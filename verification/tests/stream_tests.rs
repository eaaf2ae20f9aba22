use clai::config::ExecutionMode;
use clai::stream_strategy::{select_stream_strategy, OutputIntent, StreamStrategy, UserTerminalContext};

fn ctx(stdin: bool, stdout: bool, stderr: bool) -> UserTerminalContext {
    UserTerminalContext { stdin_is_tty: stdin, stdout_is_tty: stdout, stderr_is_tty: stderr }
}

#[test]
fn direct_human_non_tty_is_capture() {
    assert_eq!(
        select_stream_strategy(ExecutionMode::Direct, OutputIntent::Human, ctx(false, false, false), false),
        StreamStrategy::Capture
    );
}

#[test]
fn direct_human_all_tty_is_inherit() {
    assert_eq!(
        select_stream_strategy(ExecutionMode::Direct, OutputIntent::Human, ctx(true, true, true), false),
        StreamStrategy::Inherit
    );
}

#[test]
fn direct_human_all_tty_force_capture_overrides_inherit() {
    assert_eq!(
        select_stream_strategy(ExecutionMode::Direct, OutputIntent::Human, ctx(true, true, true), true),
        StreamStrategy::Capture
    );
}

#[test]
fn direct_human_partial_tty_is_capture() {
    assert_eq!(
        select_stream_strategy(ExecutionMode::Direct, OutputIntent::Human, ctx(false, true, true), false),
        StreamStrategy::Capture
    );
}

#[test]
fn verbose_direct_all_tty_still_capture() {
    assert_eq!(
        select_stream_strategy(ExecutionMode::Direct, OutputIntent::Verbose, ctx(true, true, true), false),
        StreamStrategy::Capture
    );
}

#[test]
fn force_capture_ignored_for_verbose_on_direct() {
    assert_eq!(
        select_stream_strategy(ExecutionMode::Direct, OutputIntent::Verbose, ctx(true, true, true), true),
        StreamStrategy::Capture
    );
}

#[test]
fn docker_always_capture() {
    let tty = ctx(true, true, true);
    assert_eq!(
        select_stream_strategy(ExecutionMode::Docker, OutputIntent::Human, tty, true),
        StreamStrategy::Capture
    );
    assert_eq!(
        select_stream_strategy(ExecutionMode::Docker, OutputIntent::Verbose, tty, false),
        StreamStrategy::Capture
    );
}

#[test]
fn bwrap_always_capture() {
    let tty = ctx(true, true, true);
    assert_eq!(
        select_stream_strategy(ExecutionMode::Bwrap, OutputIntent::Human, tty, true),
        StreamStrategy::Capture
    );
    assert_eq!(
        select_stream_strategy(ExecutionMode::Bwrap, OutputIntent::Verbose, tty, false),
        StreamStrategy::Capture
    );
}

#[test]
fn all_streams_tty_helper_matches_selection_matrix() {
    assert!(!UserTerminalContext { stdin_is_tty: false, stdout_is_tty: true, stderr_is_tty: true }
        .all_streams_tty());
    assert!(UserTerminalContext { stdin_is_tty: true, stdout_is_tty: true, stderr_is_tty: true }
        .all_streams_tty());
}

#[test]
fn default_output_intent_is_human() {
    assert_eq!(OutputIntent::default(), OutputIntent::Human);
}

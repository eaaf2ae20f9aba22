use clai::cli_output::{
    cloud_request_prelude, dry_run_skip_note, model_stream_prelude, run_hint, session_help_rows,
    session_start_rows, styled_pre_run_rows, Color, Span, TextStyle,
};
use clai::interactive_mode::InteractiveExecutionMode;
use clai::presentation::PreRunLine;
use clai::tty::{format_labeled_line, Severity};

fn texts(row: &[Span]) -> Vec<String> {
    row.iter().map(|s| s.text.clone()).collect()
}

fn joined(row: &[Span]) -> String {
    row.iter().map(|s| s.text.as_str()).collect::<Vec<_>>().concat()
}

fn plain() -> TextStyle {
    TextStyle { color: Color::Default, bold: false, dim: false, italic: false }
}

#[test]
fn styled_pre_run_for_allowed_command() {
    let lines = vec![
        PreRunLine::SectionProposal,
        PreRunLine::CommandLine { needs_shell: false, line: "ls -la".to_string(), blocked: false },
        PreRunLine::Intent("list files".to_string()),
    ];
    let rows = styled_pre_run_rows(&lines);
    assert_eq!(rows.len(), 5);
    assert!(rows[0].is_empty());
    assert_eq!(texts(&rows[1]), vec!["  ", "▸", " ", "Proposal"]);
    assert_eq!(rows[1][1].style, TextStyle { color: Color::Cyan, bold: true, dim: false, italic: false });
    assert_eq!(texts(&rows[2]), vec!["  ", "Run:", " ", "ls -la"]);
    assert_eq!(rows[2][1].style, TextStyle { color: Color::Default, bold: false, dim: true, italic: false });
    assert_eq!(rows[2][3].style, TextStyle { color: Color::White, bold: false, dim: false, italic: false });
    assert_eq!(joined(&rows[3]), "  Why: list files");
    assert!(rows[4].is_empty());
}

#[test]
fn styled_pre_run_for_blocked_command() {
    let lines = vec![
        PreRunLine::SectionBlocked,
        PreRunLine::CommandLine { needs_shell: true, line: "rm -rf /".to_string(), blocked: true },
        PreRunLine::ShellRequestNote,
        PreRunLine::Blocked { reason: "blocklist".to_string() },
        PreRunLine::WontRun,
    ];
    let rows = styled_pre_run_rows(&lines);
    assert_eq!(rows.len(), 7);
    assert_eq!(joined(&rows[1]), "  ▸ Proposal (blocked)");
    assert_eq!(rows[1][3].style.color, Color::Red);
    assert_eq!(joined(&rows[2]), "  Command: rm -rf /");
    assert_eq!(joined(&rows[3]), "  Note: shell execution requested (`needs_shell`)");
    assert_eq!(joined(&rows[4]), "  Blocked: blocklist");
    assert_eq!(rows[4][1].style.color, Color::Red);
    assert_eq!(joined(&rows[5]), "  This command will not be run");
}

#[test]
fn session_header_plain_and_styled() {
    let plain_rows = session_start_rows(InteractiveExecutionMode::Confirm, "local", "model (local): /m.gguf", false);
    assert_eq!(plain_rows.len(), 2);
    assert_eq!(
        joined(&plain_rows[0]),
        "clai: interactive session — source=local  mode=confirm  (EOF or `exit` to quit; `help` for built-ins; Ctrl+C cancels the current request)"
    );
    assert_eq!(joined(&plain_rows[1]), "model (local): /m.gguf");
    let styled = session_start_rows(InteractiveExecutionMode::Auto, "cloud", "", true);
    assert_eq!(styled.len(), 5);
    assert_eq!(joined(&styled[1]), "  ▸ clai · interactive · cloud · auto");
    assert_eq!(joined(&styled[3]), "  model: (not set)");
    assert_eq!(styled[3][3].style.color, Color::Green);
}

#[test]
fn help_rows_name_the_mode() {
    let plain_rows = session_help_rows(InteractiveExecutionMode::DryRun, false);
    assert_eq!(plain_rows.len(), 1);
    let t = joined(&plain_rows[0]);
    assert!(t.starts_with("Built-ins:\n  help          Show this help\n"));
    assert!(t.contains("Execution modes (effective this session: dry-run):"));
    let styled = session_help_rows(InteractiveExecutionMode::Confirm, true);
    assert_eq!(styled.len(), 14);
    assert_eq!(joined(&styled[7]), "  ● confirm");
    assert_eq!(joined(&styled[2]), "  help  Show this help");
}

#[test]
fn notes_and_hints() {
    assert_eq!(joined(&dry_run_skip_note(false)), "(dry-run interactive mode; not executed)");
    assert_eq!(joined(&dry_run_skip_note(true)), "  ○ dry-run: not executed (preview only)");
    assert_eq!(joined(&run_hint("Run: ls", false)), "Run: ls");
    let styled = run_hint("Run: ls", true);
    assert_eq!(joined(&styled), "  ▶ Run: ls");
    assert_eq!(styled[1].style, TextStyle { color: Color::Green, bold: true, dim: false, italic: false });
    assert!(cloud_request_prelude(false, true).is_none());
    assert_eq!(joined(&cloud_request_prelude(true, false).unwrap()), "[requesting from cloud...]");
    assert_eq!(joined(&cloud_request_prelude(true, true).unwrap()), "  ··· requesting from cloud…");
    assert_eq!(joined(&model_stream_prelude(true, false).unwrap()), "[composing...]");
}

#[test]
fn no_color_disables_ansi() {
    let row = format_labeled_line("error", "x", Severity::Error, false);
    assert_eq!(row.len(), 1);
    assert_eq!(row[0].text, "error: x");
    assert_eq!(row[0].style, plain());
    let colored = format_labeled_line("error", "x", Severity::Error, true);
    assert_eq!(texts(&colored), vec!["error", " x"]);
    assert_eq!(colored[0].style.color, Color::Red);
    let ok = format_labeled_line("ok", "done", Severity::Success, true);
    assert_eq!(ok[0].style.color, Color::Green);
}

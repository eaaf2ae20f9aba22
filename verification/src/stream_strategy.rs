//! Stream connection strategy for proposal execution: inherit the user's terminal or capture
//! through pipes. Pure decision logic only.

use vstd::prelude::*;

use crate::config::ExecutionMode;

verus! {

/// Whether the current process's standard streams are attached to a user terminal.
#[derive(Debug, Clone, Copy, PartialEq, Eq, Structural)]
pub struct UserTerminalContext {
    pub stdin_is_tty: bool,
    pub stdout_is_tty: bool,
    pub stderr_is_tty: bool,
}

impl UserTerminalContext {
    /// `true` when stdin, stdout and stderr are all terminals.
    pub fn all_streams_tty(&self) -> (r: bool)
        ensures
            r == (self.stdin_is_tty && self.stdout_is_tty && self.stderr_is_tty),
    {
        self.stdin_is_tty && self.stdout_is_tty && self.stderr_is_tty
    }
}

/// Human-default vs verbose presentation. Verbose always forces piped capture.
#[derive(Debug, Clone, Copy, PartialEq, Eq, Structural)]
pub enum OutputIntent {
    /// Default human terminal UX; may inherit on direct + TTY.
    Human,
    /// Opt-in verbose / structured diagnostics; always capture.
    Verbose,
}

impl Default for OutputIntent {
    fn default() -> (r: Self)
        ensures
            r == OutputIntent::Human,
    {
        OutputIntent::Human
    }
}

/// How the executor connects the child's standard streams.
#[derive(Debug, Clone, Copy, PartialEq, Eq, Structural)]
pub enum StreamStrategy {
    /// Inherit stdin/stdout/stderr from this process.
    Inherit,
    /// Piped capture with size limits.
    Capture,
}

/// The child inherits the terminal exactly when the run is direct, human-oriented, not forced to
/// capture, and all three streams are terminals.
pub open spec fn strategy_spec(
    mode: ExecutionMode,
    output_intent: OutputIntent,
    tty: UserTerminalContext,
    force_capture: bool,
) -> StreamStrategy {
    if mode == ExecutionMode::Direct && output_intent == OutputIntent::Human && !force_capture
        && tty.stdin_is_tty && tty.stdout_is_tty && tty.stderr_is_tty {
        StreamStrategy::Inherit
    } else {
        StreamStrategy::Capture
    }
}

/// Whether the child should use inherited stdio or piped capture: non-direct profiles and
/// verbose output always capture; `force_capture` captures in direct mode; direct + human
/// inherits only when every stream is a terminal.
pub fn select_stream_strategy(
    mode: ExecutionMode,
    output_intent: OutputIntent,
    tty: UserTerminalContext,
    force_capture: bool,
) -> (r: StreamStrategy)
    ensures
        r == strategy_spec(mode, output_intent, tty, force_capture),
        r == StreamStrategy::Inherit ==> tty.stdin_is_tty && tty.stdout_is_tty && tty.stderr_is_tty,
        r == StreamStrategy::Inherit ==> mode == ExecutionMode::Direct && output_intent
            == OutputIntent::Human && !force_capture,
{
    if output_intent == OutputIntent::Verbose {
        return StreamStrategy::Capture;
    }
    if force_capture && mode == ExecutionMode::Direct {
        return StreamStrategy::Capture;
    }
    match mode {
        ExecutionMode::Docker | ExecutionMode::Bwrap => StreamStrategy::Capture,
        ExecutionMode::Direct => {
            if tty.all_streams_tty() {
                StreamStrategy::Inherit
            } else {
                StreamStrategy::Capture
            }
        },
    }
}

/// The child inherits the terminal only when stdin, stdout and stderr are all terminals: with
/// any stream redirected (such as `clai ask ... > out.txt`) the streams are captured. And a
/// direct, human-oriented run that is not forced to capture does inherit when all three are.
pub proof fn lemma_inherit_only_with_all_terminals(
    mode: ExecutionMode,
    output_intent: OutputIntent,
    tty: UserTerminalContext,
    force_capture: bool,
)
    ensures
        !tty.stdin_is_tty || !tty.stdout_is_tty || !tty.stderr_is_tty ==> strategy_spec(
            mode,
            output_intent,
            tty,
            force_capture,
        ) == StreamStrategy::Capture,
        force_capture ==> strategy_spec(mode, output_intent, tty, force_capture)
            == StreamStrategy::Capture,
        mode == ExecutionMode::Direct && output_intent == OutputIntent::Human && !force_capture
            && tty.stdin_is_tty && tty.stdout_is_tty && tty.stderr_is_tty ==> strategy_spec(
            mode,
            output_intent,
            tty,
            force_capture,
        ) == StreamStrategy::Inherit,
{
}

/// Sandboxed profiles (docker, bwrap) and verbose output never inherit the terminal.
pub proof fn lemma_capture_when_not_direct_or_verbose(
    mode: ExecutionMode,
    output_intent: OutputIntent,
    tty: UserTerminalContext,
    force_capture: bool,
)
    requires
        mode != ExecutionMode::Direct || output_intent == OutputIntent::Verbose,
    ensures
        strategy_spec(mode, output_intent, tty, force_capture) == StreamStrategy::Capture,
{
}

} // verus!

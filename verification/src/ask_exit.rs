//! Process exit codes for `clai` when `clai ask` runs a child process.

use vstd::prelude::*;

verus! {

/// Exit when the proposed command is killed for exceeding the run timeout (as GNU `timeout`).
pub const CLAI_ASK_TIMEOUT_EXIT: i32 = 124;

/// The user declined the "run this command?" prompt; no child was run.
pub const CLAI_ASK_USER_DECLINED_EXIT: i32 = 2;

/// Dry-run was in effect and no child was run.
pub const CLAI_ASK_DRY_RUN_EXIT: i32 = 3;

/// The exit code for a child that finished: its own code when it has one, `128 + signal` when a
/// signal ended it, `1` otherwise.
pub open spec fn child_exit_spec(code: Option<i32>, signal: Option<i32>) -> int {
    match code {
        Some(c) => c as int,
        None => match signal {
            Some(s) => 128 + s,
            None => 1,
        },
    }
}

/// Maps a finished child's exit code (or, when it has none, the signal that ended it) to the
/// `clai` process exit code.
pub fn clai_ask_process_exit_for_child(code: Option<i32>, signal: Option<i32>) -> (r: i32)
    requires
        code is None && signal is Some ==> signal->0 <= i32::MAX - 128,
    ensures
        r == child_exit_spec(code, signal),
        code is Some ==> r == code->0,
        code is None && signal is Some ==> r == 128 + signal->0,
        code is None && signal is None ==> r == 1,
{
    if let Some(c) = code {
        return c;
    }
    if let Some(sig) = signal {
        return 128 + sig;
    }
    1
}

/// A child that reports an exit code is mapped to that code, whatever signal is also given; a
/// child ended by signal `s` without a code is mapped to `128 + s` for every signal number `s`
/// (so `SIGKILL`, 9, gives 137 and `SIGTERM`, 15, gives 143); with neither the result is 1.
pub proof fn lemma_child_exit_codes(code: Option<i32>, signal: Option<i32>)
    ensures
        forall|c: i32, s: Option<i32>| #[trigger] child_exit_spec(Some(c), s) == c as int,
        forall|s: i32| #[trigger] child_exit_spec(None, Some(s)) == 128 + s as int,
        child_exit_spec(None, None) == 1,
        child_exit_spec(None, Some(9)) == 137,
{
}

/// Distinct signals give distinct exit codes, and every signal-ended child exits above 128
/// (for positive signal numbers), apart from any code below 128 reported by a child itself.
pub proof fn lemma_signal_codes_distinct(s1: i32, s2: i32)
    ensures
        s1 != s2 ==> child_exit_spec(None, Some(s1)) != child_exit_spec(None, Some(s2)),
        s1 > 0 ==> child_exit_spec(None, Some(s1)) > 128,
{
}

} // verus!

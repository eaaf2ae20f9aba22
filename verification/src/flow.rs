//! The decisions around running a proposal in `clai ask` and in the interactive session:
//! which confirmations are asked, when a run is skipped, which exit code results, and when to
//! offer remembering an executable. The prompts and the run itself happen outside.

use vstd::prelude::*;

use crate::ask_exit::{child_exit_spec, clai_ask_process_exit_for_child, CLAI_ASK_DRY_RUN_EXIT, CLAI_ASK_TIMEOUT_EXIT, CLAI_ASK_USER_DECLINED_EXIT};
use crate::interactive_mode::{needs_dry_run_execute_prompt, needs_interactive_run_prompt, InteractiveExecutionMode};
use crate::policy::{PolicyDecision, RiskTier};
use crate::schema::{opt_str, strs};
use crate::text::to_owned_string;
use crate::trusted_store::{basename_spec, listed, program_basename, trusted_list_contains};

verus! {

/// A trusted entry skips the policy confirmation only for a command that is otherwise allowed:
/// not blocked, not a shell request, not destructive, and with its base name listed.
pub open spec fn trust_bypass_spec(
    blocked: bool,
    tier: RiskTier,
    needs_shell: bool,
    trusted: Seq<Seq<char>>,
    program: Seq<char>,
) -> bool {
    !blocked && !needs_shell && tier != RiskTier::Destructive && listed(trusted, basename_spec(program))
}

/// The extra policy confirmation is asked when the decision requires it, `--yes` was not given,
/// and no trusted entry bypasses it.
pub open spec fn policy_prompt_spec(
    d: PolicyDecision,
    yes: bool,
    trusted: Seq<Seq<char>>,
    program: Seq<char>,
    needs_shell: bool,
) -> bool {
    d.requires_confirmation && !yes && !trust_bypass_spec(d.blocked, d.tier, needs_shell, trusted, program)
}

/// Whether the extra policy confirmation is asked.
pub fn policy_prompt_needed(
    d: &PolicyDecision,
    yes: bool,
    trusted: &Vec<String>,
    program: &str,
    needs_shell: bool,
) -> (r: bool)
    ensures
        r == policy_prompt_spec(*d, yes, strs(trusted@), program@, needs_shell),
{
    if !d.requires_confirmation || yes {
        return false;
    }
    if d.blocked || needs_shell || d.tier == RiskTier::Destructive {
        return true;
    }
    let base = program_basename(program);
    !trusted_list_contains(trusted, base.as_str())
}

/// The confirm-mode "Run proposed command?" step is asked unless `--yes` was given or the
/// executable was remembered (never for shell requests).
pub open spec fn run_prompt_spec(
    mode: InteractiveExecutionMode,
    yes: bool,
    remembered: Seq<Seq<char>>,
    program: Seq<char>,
    needs_shell: bool,
) -> bool {
    mode == InteractiveExecutionMode::Confirm && !yes && !(!needs_shell && listed(
        remembered,
        basename_spec(program),
    ))
}

/// Whether the confirm-mode run step is asked.
pub fn run_prompt_needed(
    mode: InteractiveExecutionMode,
    yes: bool,
    remembered: &Vec<String>,
    program: &str,
    needs_shell: bool,
) -> (r: bool)
    ensures
        r == run_prompt_spec(mode, yes, strs(remembered@), program@, needs_shell),
{
    if !needs_interactive_run_prompt(mode, yes) {
        return false;
    }
    if needs_shell {
        return true;
    }
    let base = program_basename(program);
    !trusted_list_contains(remembered, base.as_str())
}

/// The questions asked on an interactive line before a policy-allowed command runs.
#[derive(Debug, Clone, Copy, PartialEq, Eq, Structural)]
pub struct PromptPlan {
    /// Dry-run mode: ask whether to execute at all.
    pub dry_run_execute: bool,
    /// Only the policy confirmation.
    pub policy_confirm: bool,
    /// Only the run step.
    pub run_confirm: bool,
    /// Policy and run step asked as one question.
    pub combined: bool,
}

/// The interactive prompt plan: when both the policy and the run step would ask, one combined
/// question is asked instead of two.
pub open spec fn prompt_plan_spec(dry: bool, p: bool, q: bool) -> PromptPlan {
    PromptPlan { dry_run_execute: dry, policy_confirm: p && !q, run_confirm: q && !p, combined: p && q }
}

/// Plan the questions for one interactive line.
pub fn plan_session_prompts(
    mode: InteractiveExecutionMode,
    yes: bool,
    d: &PolicyDecision,
    trusted: &Vec<String>,
    remembered: &Vec<String>,
    program: &str,
    needs_shell: bool,
) -> (r: PromptPlan)
    ensures
        r == prompt_plan_spec(
            mode == InteractiveExecutionMode::DryRun && !yes,
            policy_prompt_spec(*d, yes, strs(trusted@), program@, needs_shell),
            run_prompt_spec(mode, yes, strs(remembered@), program@, needs_shell),
        ),
{
    let dry = needs_dry_run_execute_prompt(mode, yes);
    let p = policy_prompt_needed(d, yes, trusted, program, needs_shell);
    let q = run_prompt_needed(mode, yes, remembered, program, needs_shell);
    PromptPlan { dry_run_execute: dry, policy_confirm: p && !q, run_confirm: q && !p, combined: p && q }
}

/// A question asked before an interactive line runs.
#[derive(Debug, Clone, Copy, PartialEq, Eq, Structural)]
pub enum SessionQuestion {
    /// Dry-run mode: execute this command at all?
    DryRunExecute,
    /// The policy and the run step asked as one question.
    Combined,
    /// The extra policy confirmation.
    PolicyConfirm,
    /// Confirm mode's "Run proposed command?".
    RunConfirm,
}

/// Why an interactive line is not run.
#[derive(Debug, Clone, Copy, PartialEq, Eq, Structural)]
pub enum SessionSkip {
    Blocked,
    DryRunDeclined,
    PolicyDeclined,
    RunDeclined,
}

/// What the session does next with a proposal.
#[derive(Debug, Clone, Copy, PartialEq, Eq, Structural)]
pub enum SessionStep {
    Ask(SessionQuestion),
    Skip(SessionSkip),
    Run,
}

/// Questions are asked in this order: dry-run, combined, policy, run.
pub open spec fn question_rank(q: SessionQuestion) -> int {
    match q {
        SessionQuestion::DryRunExecute => 0,
        SessionQuestion::Combined => 1,
        SessionQuestion::PolicyConfirm => 2,
        SessionQuestion::RunConfirm => 3,
    }
}

/// Whether the plan asks a question.
pub open spec fn planned(plan: PromptPlan, q: SessionQuestion) -> bool {
    match q {
        SessionQuestion::DryRunExecute => plan.dry_run_execute,
        SessionQuestion::Combined => plan.combined,
        SessionQuestion::PolicyConfirm => plan.policy_confirm,
        SessionQuestion::RunConfirm => plan.run_confirm,
    }
}

/// The first planned question ranked after `after` (`-1`: from the start); running when none is
/// left.
pub open spec fn next_question(plan: PromptPlan, after: int) -> SessionStep {
    if after < 0 && plan.dry_run_execute {
        SessionStep::Ask(SessionQuestion::DryRunExecute)
    } else if after < 1 && plan.combined {
        SessionStep::Ask(SessionQuestion::Combined)
    } else if after < 2 && plan.policy_confirm {
        SessionStep::Ask(SessionQuestion::PolicyConfirm)
    } else if after < 3 && plan.run_confirm {
        SessionStep::Ask(SessionQuestion::RunConfirm)
    } else {
        SessionStep::Run
    }
}

/// Declining a question skips the line, for the question's reason.
pub open spec fn declined_reason(q: SessionQuestion) -> SessionSkip {
    match q {
        SessionQuestion::DryRunExecute => SessionSkip::DryRunDeclined,
        SessionQuestion::Combined => SessionSkip::PolicyDeclined,
        SessionQuestion::PolicyConfirm => SessionSkip::PolicyDeclined,
        SessionQuestion::RunConfirm => SessionSkip::RunDeclined,
    }
}

/// The session's next step for a proposal: a blocked one is skipped; otherwise the planned
/// questions are asked in order, a "no" skips the line, and the line runs once every planned
/// question was answered "yes". `answered` is the last question asked and its answer.
pub open spec fn session_step_spec(blocked: bool, plan: PromptPlan, answered: Option<(SessionQuestion, bool)>) -> SessionStep {
    if blocked {
        SessionStep::Skip(SessionSkip::Blocked)
    } else {
        match answered {
            None => next_question(plan, -1),
            Some((q, false)) => SessionStep::Skip(declined_reason(q)),
            Some((q, true)) => next_question(plan, question_rank(q)),
        }
    }
}

/// The session's next step (see [`session_step_spec`]).
pub fn session_step(blocked: bool, plan: PromptPlan, answered: Option<(SessionQuestion, bool)>) -> (r: SessionStep)
    ensures
        r == session_step_spec(blocked, plan, answered),
{
    if blocked {
        return SessionStep::Skip(SessionSkip::Blocked);
    }
    let after: i8 = match answered {
        None => -1,
        Some((q, false)) => {
            return SessionStep::Skip(
                match q {
                    SessionQuestion::DryRunExecute => SessionSkip::DryRunDeclined,
                    SessionQuestion::Combined => SessionSkip::PolicyDeclined,
                    SessionQuestion::PolicyConfirm => SessionSkip::PolicyDeclined,
                    SessionQuestion::RunConfirm => SessionSkip::RunDeclined,
                },
            );
        },
        Some((q, true)) => match q {
            SessionQuestion::DryRunExecute => 0,
            SessionQuestion::Combined => 1,
            SessionQuestion::PolicyConfirm => 2,
            SessionQuestion::RunConfirm => 3,
        },
    };
    if after < 0 && plan.dry_run_execute {
        SessionStep::Ask(SessionQuestion::DryRunExecute)
    } else if after < 1 && plan.combined {
        SessionStep::Ask(SessionQuestion::Combined)
    } else if after < 2 && plan.policy_confirm {
        SessionStep::Ask(SessionQuestion::PolicyConfirm)
    } else if after < 3 && plan.run_confirm {
        SessionStep::Ask(SessionQuestion::RunConfirm)
    } else {
        SessionStep::Run
    }
}

/// The text of a session question.
pub fn question_text(q: SessionQuestion) -> (r: &'static str)
    ensures
        r@ == match q {
            SessionQuestion::DryRunExecute => "Dry-run mode: execute this command?"@,
            SessionQuestion::Combined => "This command is sensitive or destructive. Run it?"@,
            SessionQuestion::PolicyConfirm => "This command is sensitive or destructive. Run it?"@,
            SessionQuestion::RunConfirm => "Run proposed command?"@,
        },
{
    match q {
        SessionQuestion::DryRunExecute => "Dry-run mode: execute this command?",
        SessionQuestion::Combined => "This command is sensitive or destructive. Run it?",
        SessionQuestion::PolicyConfirm => "This command is sensitive or destructive. Run it?",
        SessionQuestion::RunConfirm => "Run proposed command?",
    }
}

/// Which remember offers follow a "yes": trusting the program after the policy question (alone
/// or combined), remembering the run after the run question (alone or combined).
pub fn offers_after_yes(q: SessionQuestion) -> (r: (bool, bool))
    ensures
        r.0 == (q == SessionQuestion::PolicyConfirm || q == SessionQuestion::Combined),
        r.1 == (q == SessionQuestion::RunConfirm || q == SessionQuestion::Combined),
{
    match q {
        SessionQuestion::DryRunExecute => (false, false),
        SessionQuestion::Combined => (true, true),
        SessionQuestion::PolicyConfirm => (true, false),
        SessionQuestion::RunConfirm => (false, true),
    }
}

/// A blocked proposal is never run in the session, whatever was answered.
pub proof fn lemma_session_never_runs_blocked(plan: PromptPlan, answered: Option<(SessionQuestion, bool)>)
    ensures
        session_step_spec(true, plan, answered) == SessionStep::Skip(SessionSkip::Blocked),
{
}

/// A session line runs only once the last planned question was answered "yes": a run after a
/// "yes" to `q` means no planned question ranks after `q`, and a run with nothing answered
/// means nothing was planned.
pub proof fn lemma_session_runs_after_all_questions(blocked: bool, plan: PromptPlan, answered: Option<(SessionQuestion, bool)>)
    requires
        session_step_spec(blocked, plan, answered) == SessionStep::Run,
    ensures
        !blocked,
        answered is None ==> !plan.dry_run_execute && !plan.combined && !plan.policy_confirm && !plan.run_confirm,
        answered matches Some((q, a)) ==> a && forall|p: SessionQuestion|
            question_rank(p) > question_rank(q) ==> !#[trigger] planned(plan, p),
{
}

/// The executable's base name to offer remembering in a list after the user approved a run:
/// only for non-shell proposals, on a terminal, and when not already listed.
pub open spec fn offer_spec(list: Seq<Seq<char>>, program: Seq<char>, needs_shell: bool, tty: bool) -> Option<Seq<char>> {
    if needs_shell || !tty || listed(list, basename_spec(program)) {
        None
    } else {
        Some(basename_spec(program))
    }
}

/// Which base name to offer adding to a list (trusted programs or remembered runs), if any.
pub fn remember_offer(list: &Vec<String>, program: &str, needs_shell: bool, tty: bool) -> (r: Option<String>)
    ensures
        opt_str(r) == offer_spec(strs(list@), program@, needs_shell, tty),
        needs_shell ==> r is None,
{
    if needs_shell || !tty {
        return None;
    }
    let base = program_basename(program);
    if trusted_list_contains(list, base.as_str()) {
        return None;
    }
    Some(base)
}

/// What `clai ask` does next.
#[derive(Debug, Clone, PartialEq, Eq)]
pub enum AskStep {
    /// Print the proposal JSON and stop (exit 0, nothing run).
    PrintOnly,
    /// The policy blocks the proposal: report the reason and fail.
    Blocked(String),
    /// Ask the policy confirmation.
    AskConfirm,
    /// The user declined: exit without running.
    Declined,
    /// Dry-run default in effect: exit without running.
    DryRun,
    /// Run the command.
    Run,
}

/// Message when a blocked decision carries no reason.
pub const BLOCKED_BY_POLICY_MSG: &'static str = "blocked by policy";

/// The step after a confirmation (or when none was needed): declined stops; otherwise the
/// dry-run default stops unless `--yes`; otherwise run.
pub open spec fn after_confirm_spec(accepted: bool, yes: bool, dry_run_default: bool) -> AskStep {
    if !accepted {
        AskStep::Declined
    } else if dry_run_default && !yes {
        AskStep::DryRun
    } else {
        AskStep::Run
    }
}

/// The first step of `clai ask` once the proposal is parsed and the policy has decided.
pub open spec fn ask_first_spec(
    print_only: bool,
    d: PolicyDecision,
    yes: bool,
    dry_run_default: bool,
    trusted: Seq<Seq<char>>,
    program: Seq<char>,
    needs_shell: bool,
) -> AskStep {
    if print_only {
        AskStep::PrintOnly
    } else if d.blocked {
        AskStep::Blocked(arbitrary())
    } else if policy_prompt_spec(d, yes, trusted, program, needs_shell) {
        AskStep::AskConfirm
    } else {
        after_confirm_spec(true, yes, dry_run_default)
    }
}

/// The first step of `clai ask`: print only, blocked (with the policy's reason, or a default),
/// ask the confirmation, stop for dry-run, or run.
pub fn ask_first_step(
    print_only: bool,
    d: &PolicyDecision,
    yes: bool,
    dry_run_default: bool,
    trusted: &Vec<String>,
    program: &str,
    needs_shell: bool,
) -> (r: AskStep)
    ensures
        match ask_first_spec(print_only, *d, yes, dry_run_default, strs(trusted@), program@, needs_shell) {
            AskStep::Blocked(_) => r matches AskStep::Blocked(m) && m@ == match opt_str(d.reason) {
                Some(x) => x,
                None => BLOCKED_BY_POLICY_MSG@,
            },
            s => r == s,
        },
{
    if print_only {
        return AskStep::PrintOnly;
    }
    if d.blocked {
        let m = match &d.reason {
            Some(r) => r.clone(),
            None => to_owned_string(BLOCKED_BY_POLICY_MSG),
        };
        return AskStep::Blocked(m);
    }
    if policy_prompt_needed(d, yes, trusted, program, needs_shell) {
        return AskStep::AskConfirm;
    }
    ask_after_confirmation(true, yes, dry_run_default)
}

/// The step of `clai ask` after the confirmation was answered.
pub fn ask_after_confirmation(accepted: bool, yes: bool, dry_run_default: bool) -> (r: AskStep)
    ensures
        r == after_confirm_spec(accepted, yes, dry_run_default),
{
    if !accepted {
        AskStep::Declined
    } else if dry_run_default && !yes {
        AskStep::DryRun
    } else {
        AskStep::Run
    }
}

/// The `clai` exit code for a step that ends without running a child, if it is one.
pub fn exit_code_without_run(step: &AskStep) -> (r: Option<i32>)
    ensures
        r == match *step {
            AskStep::PrintOnly => Some(0i32),
            AskStep::Declined => Some(CLAI_ASK_USER_DECLINED_EXIT),
            AskStep::DryRun => Some(CLAI_ASK_DRY_RUN_EXIT),
            _ => None,
        },
{
    match step {
        AskStep::PrintOnly => Some(0),
        AskStep::Declined => Some(CLAI_ASK_USER_DECLINED_EXIT),
        AskStep::DryRun => Some(CLAI_ASK_DRY_RUN_EXIT),
        _ => None,
    }
}

/// The `clai` exit code after a run: 124 on timeout, else the child's mapped exit.
pub open spec fn run_exit_spec(timed_out: bool, code: Option<i32>, signal: Option<i32>) -> int {
    if timed_out {
        CLAI_ASK_TIMEOUT_EXIT as int
    } else {
        child_exit_spec(code, signal)
    }
}

/// The `clai` exit code after a run.
pub fn run_exit_code(timed_out: bool, code: Option<i32>, signal: Option<i32>) -> (r: i32)
    requires
        !timed_out && code is None && signal is Some ==> signal->0 <= i32::MAX - 128,
    ensures
        r == run_exit_spec(timed_out, code, signal),
{
    if timed_out {
        CLAI_ASK_TIMEOUT_EXIT
    } else {
        clai_ask_process_exit_for_child(code, signal)
    }
}

/// Blocked proposals, shell requests and destructive commands never skip the policy
/// confirmation through a trusted entry.
pub proof fn lemma_trust_never_bypasses_unsafe(
    blocked: bool,
    tier: RiskTier,
    needs_shell: bool,
    trusted: Seq<Seq<char>>,
    program: Seq<char>,
)
    requires
        blocked || needs_shell || tier == RiskTier::Destructive,
    ensures
        !trust_bypass_spec(blocked, tier, needs_shell, trusted, program),
{
}

/// With `--yes`, neither the policy confirmation, nor the run step, nor the dry-run question
/// is asked.
pub proof fn lemma_yes_asks_nothing(
    mode: InteractiveExecutionMode,
    d: PolicyDecision,
    trusted: Seq<Seq<char>>,
    remembered: Seq<Seq<char>>,
    program: Seq<char>,
    needs_shell: bool,
)
    ensures
        prompt_plan_spec(
            mode == InteractiveExecutionMode::DryRun && !true,
            policy_prompt_spec(d, true, trusted, program, needs_shell),
            run_prompt_spec(mode, true, remembered, program, needs_shell),
        ) == (PromptPlan { dry_run_execute: false, policy_confirm: false, run_confirm: false, combined: false }),
{
}

/// Before a run, the user is asked at most one confirmation besides the dry-run question.
pub proof fn lemma_at_most_one_confirmation(dry: bool, p: bool, q: bool)
    ensures
        ({
            let plan = prompt_plan_spec(dry, p, q);
            !(plan.policy_confirm && plan.run_confirm) && !(plan.policy_confirm && plan.combined)
                && !(plan.run_confirm && plan.combined)
        }),
{
}

/// A blocked proposal is never run by `clai ask`, whatever else holds.
pub proof fn lemma_ask_never_runs_blocked(
    d: PolicyDecision,
    yes: bool,
    dry_run_default: bool,
    trusted: Seq<Seq<char>>,
    program: Seq<char>,
    needs_shell: bool,
)
    requires
        d.blocked,
    ensures
        ask_first_spec(false, d, yes, dry_run_default, trusted, program, needs_shell) is Blocked,
{
}

} // verus!

use clai::flow::{ask_after_confirmation, ask_first_step, exit_code_without_run, plan_session_prompts, remember_offer, run_exit_code, AskStep, PromptPlan};
use clai::interactive_mode::InteractiveExecutionMode;
use clai::policy::{PolicyDecision, RiskTier};
use clai::trusted_store::{choose_project_config_path, program_basename, remember_in_list, trusted_list_contains};

fn decision(tier: RiskTier, confirm: bool, blocked: bool) -> PolicyDecision {
    PolicyDecision { tier, requires_confirmation: confirm, blocked, reason: None }
}

#[test]
fn basename_and_lists() {
    assert_eq!(program_basename("/usr/bin/chmod"), "chmod");
    assert_eq!(program_basename("git"), "git");
    let mut l = vec!["Git".to_string()];
    assert!(trusted_list_contains(&l, "git"));
    assert!(!trusted_list_contains(&l, "gi"));
    remember_in_list(&mut l, "git".into());
    assert_eq!(l.len(), 1);
    remember_in_list(&mut l, "ls".into());
    assert_eq!(l, vec!["Git", "ls"]);
}

#[test]
fn project_path_choice() {
    assert_eq!(choose_project_config_path("a".into(), "b".into(), true, true), "a");
    assert_eq!(choose_project_config_path("a".into(), "b".into(), false, true), "b");
    assert_eq!(choose_project_config_path("a".into(), "b".into(), false, false), "a");
}

#[test]
fn trusted_program_skips_policy_prompt() {
    let d = decision(RiskTier::Sensitive, true, false);
    let trusted = vec!["chmod".to_string()];
    let plan = plan_session_prompts(InteractiveExecutionMode::Auto, false, &d, &trusted, &vec![], "/bin/chmod", false);
    assert_eq!(plan, PromptPlan { dry_run_execute: false, policy_confirm: false, run_confirm: false, combined: false });
    let plan = plan_session_prompts(InteractiveExecutionMode::Auto, false, &d, &vec![], &vec![], "chmod", false);
    assert!(plan.policy_confirm);
}

#[test]
fn confirm_mode_combines_prompts() {
    let d = decision(RiskTier::Sensitive, true, false);
    let plan = plan_session_prompts(InteractiveExecutionMode::Confirm, false, &d, &vec![], &vec![], "chmod", false);
    assert!(plan.combined && !plan.policy_confirm && !plan.run_confirm);
    let remembered = vec!["chmod".to_string()];
    let plan = plan_session_prompts(InteractiveExecutionMode::Confirm, false, &d, &vec![], &remembered, "chmod", false);
    assert!(plan.policy_confirm && !plan.combined);
    let plan = plan_session_prompts(InteractiveExecutionMode::DryRun, true, &d, &vec![], &vec![], "chmod", false);
    assert_eq!(plan, PromptPlan { dry_run_execute: false, policy_confirm: false, run_confirm: false, combined: false });
}

#[test]
fn shell_requests_are_not_remembered() {
    assert_eq!(remember_offer(&vec![], "/bin/ls", false, true).as_deref(), Some("ls"));
    assert_eq!(remember_offer(&vec![], "ls", true, true), None);
    assert_eq!(remember_offer(&vec!["LS".into()], "ls", false, true), None);
    assert_eq!(remember_offer(&vec![], "ls", false, false), None);
}

#[test]
fn ask_steps_and_exit_codes() {
    let mut blocked = decision(RiskTier::Destructive, true, true);
    blocked.reason = Some("matches high-risk blocklist".into());
    assert_eq!(
        ask_first_step(false, &blocked, true, false, &vec![], "rm", false),
        AskStep::Blocked("matches high-risk blocklist".into())
    );
    let ok = decision(RiskTier::Standard, false, false);
    assert_eq!(ask_first_step(true, &ok, false, true, &vec![], "ls", false), AskStep::PrintOnly);
    assert_eq!(ask_first_step(false, &ok, false, true, &vec![], "ls", false), AskStep::DryRun);
    assert_eq!(ask_first_step(false, &ok, true, true, &vec![], "ls", false), AskStep::Run);
    let sens = decision(RiskTier::Sensitive, true, false);
    assert_eq!(ask_first_step(false, &sens, false, false, &vec![], "chmod", false), AskStep::AskConfirm);
    assert_eq!(ask_after_confirmation(false, false, false), AskStep::Declined);
    assert_eq!(exit_code_without_run(&AskStep::Declined), Some(2));
    assert_eq!(exit_code_without_run(&AskStep::DryRun), Some(3));
    assert_eq!(exit_code_without_run(&AskStep::Run), None);
    assert_eq!(run_exit_code(true, None, None), 124);
    assert_eq!(run_exit_code(false, Some(19), None), 19);
}

use clai::interactive_mode::{
    needs_dry_run_execute_prompt, needs_interactive_run_prompt,
    resolve_effective_interactive_execution_mode, InteractiveExecutionMode,
};

#[test]
fn precedence_cli_yes_wins() {
    assert_eq!(
        resolve_effective_interactive_execution_mode(
            Some(InteractiveExecutionMode::DryRun),
            Some(InteractiveExecutionMode::DryRun),
            true,
            true,
        ),
        InteractiveExecutionMode::Auto
    );
}

#[test]
fn precedence_cli_flag_over_config() {
    assert_eq!(
        resolve_effective_interactive_execution_mode(
            Some(InteractiveExecutionMode::DryRun),
            Some(InteractiveExecutionMode::Confirm),
            false,
            true,
        ),
        InteractiveExecutionMode::Confirm
    );
}

#[test]
fn config_field_over_legacy() {
    assert_eq!(
        resolve_effective_interactive_execution_mode(
            Some(InteractiveExecutionMode::Auto),
            None,
            false,
            true,
        ),
        InteractiveExecutionMode::Auto
    );
}

#[test]
fn legacy_dry_run_default_true_maps_dry_run() {
    assert_eq!(
        resolve_effective_interactive_execution_mode(None, None, false, true),
        InteractiveExecutionMode::DryRun
    );
}

#[test]
fn legacy_dry_run_default_false_maps_confirm_not_auto() {
    assert_eq!(
        resolve_effective_interactive_execution_mode(None, None, false, false),
        InteractiveExecutionMode::Confirm
    );
}

#[test]
fn parse_loose_accepts_aliases() {
    assert_eq!(
        InteractiveExecutionMode::parse_loose("DRY-RUN"),
        Some(InteractiveExecutionMode::DryRun)
    );
}

#[test]
fn parse_loose_trims_and_rejects_unknown() {
    assert_eq!(
        InteractiveExecutionMode::parse_loose("  dry_run\n"),
        Some(InteractiveExecutionMode::DryRun)
    );
    assert_eq!(InteractiveExecutionMode::parse_loose("Auto"), Some(InteractiveExecutionMode::Auto));
    assert_eq!(InteractiveExecutionMode::parse_loose("always"), None);
}

#[test]
fn mode_names() {
    assert_eq!(InteractiveExecutionMode::DryRun.as_str(), "dry-run");
    assert_eq!(InteractiveExecutionMode::Confirm.as_str(), "confirm");
    assert_eq!(InteractiveExecutionMode::Auto.as_str(), "auto");
    assert_eq!(InteractiveExecutionMode::default(), InteractiveExecutionMode::Confirm);
}

#[test]
fn fr16_run_prompt_only_in_confirm_without_yes() {
    assert!(needs_interactive_run_prompt(InteractiveExecutionMode::Confirm, false));
    assert!(!needs_interactive_run_prompt(InteractiveExecutionMode::Confirm, true));
    assert!(!needs_interactive_run_prompt(InteractiveExecutionMode::Auto, false));
    assert!(!needs_interactive_run_prompt(InteractiveExecutionMode::DryRun, false));
}

#[test]
fn dry_run_asks_before_execute_unless_yes() {
    assert!(needs_dry_run_execute_prompt(InteractiveExecutionMode::DryRun, false));
    assert!(!needs_dry_run_execute_prompt(InteractiveExecutionMode::DryRun, true));
    assert!(!needs_dry_run_execute_prompt(InteractiveExecutionMode::Confirm, false));
}

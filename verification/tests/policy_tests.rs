use clai::policy::{PolicyEngine, RiskTier};
use clai::schema::CommandProposal;

fn proposal(program: &str, args: &[&str]) -> CommandProposal {
    CommandProposal {
        program: program.into(),
        args: args.iter().map(|s| s.to_string()).collect(),
        cwd: None,
        reason: None,
        needs_shell: false,
        confidence: None,
        script_body: None,
        script_extension: None,
    }
}

#[test]
fn blocks_rm_rf_root() {
    let eng = PolicyEngine::new("/tmp".to_string(), false, vec![]);
    let p = proposal("rm", &["-rf", "/"]);
    let d = eng.evaluate(&p);
    assert!(d.blocked);
}

#[test]
fn strict_allowlist_sees_final_interpreter_with_temp_path() {
    let eng = PolicyEngine::new("/tmp".to_string(), true, vec!["python3".into()]);
    let p = proposal("python3", &["/var/tmp/clai-script-abc/script.py"]);
    let d = eng.evaluate(&p);
    assert!(!d.blocked);
}

#[test]
fn policy_still_blocks_obvious_destructive_proposal() {
    let eng = PolicyEngine::new("/tmp".to_string(), false, vec![]);
    let d = eng.evaluate(&proposal("rm", &["-rf", "/"]));
    assert!(d.blocked, "expected block for rm -rf /, got {d:?}");
}

#[test]
fn cwd_jail() {
    let eng = PolicyEngine::new("/tmp/clai_policy_jail".to_string(), false, vec![]);
    let mut p = proposal("ls", &[]);
    p.cwd = Some("/tmp/clai_policy_outside".into());
    let d = eng.evaluate(&p);
    assert!(d.blocked);
    assert_eq!(d.tier, RiskTier::Sensitive);
    assert_eq!(
        d.reason.as_deref(),
        Some("cwd /tmp/clai_policy_outside escapes jail root /tmp/clai_policy_jail")
    );
}

#[test]
fn cwd_inside_jail_after_normalization_is_allowed() {
    let eng = PolicyEngine::new("/tmp/jail".to_string(), false, vec![]);
    let mut p = proposal("ls", &[]);
    p.cwd = Some("/tmp/jail/a/../b/./c".into());
    let d = eng.evaluate(&p);
    assert!(!d.blocked);
    assert_eq!(d.tier, RiskTier::ReadOnly);
}

#[test]
fn parent_dir_escape_is_blocked() {
    let eng = PolicyEngine::new("/tmp/jail".to_string(), false, vec![]);
    let mut p = proposal("ls", &[]);
    p.cwd = Some("/tmp/jail/../other".into());
    assert!(eng.evaluate(&p).blocked);
}

#[test]
fn strict_allowlist_blocks_unlisted_program() {
    let eng = PolicyEngine::new("/tmp".to_string(), true, vec!["git".into()]);
    let d = eng.evaluate(&proposal("ls", &[]));
    assert!(d.blocked);
    assert_eq!(d.tier, RiskTier::Destructive);
    assert_eq!(d.reason.as_deref(), Some("program not in allowlist"));
}

#[test]
fn allowlist_ignores_ascii_case() {
    let eng = PolicyEngine::new("/tmp".to_string(), true, vec!["LS".into()]);
    assert!(!eng.evaluate(&proposal("ls", &[])).blocked);
}

#[test]
fn blocklist_is_case_insensitive() {
    let eng = PolicyEngine::new("/tmp".to_string(), false, vec![]);
    let d = eng.evaluate(&proposal("DiskPart", &[]));
    assert!(d.blocked);
    assert_eq!(d.reason.as_deref(), Some("matches high-risk blocklist"));
}

#[test]
fn tiers_for_known_programs() {
    let eng = PolicyEngine::new("/tmp".to_string(), false, vec![]);
    let d = eng.evaluate(&proposal("ls", &["-la"]));
    assert_eq!(d.tier, RiskTier::ReadOnly);
    assert!(!d.requires_confirmation);
    assert!(!d.blocked);
    let d = eng.evaluate(&proposal("chmod", &["+x", "a"]));
    assert_eq!(d.tier, RiskTier::Sensitive);
    assert!(!d.blocked);
    let d = eng.evaluate(&proposal("shred", &["f"]));
    assert_eq!(d.tier, RiskTier::Destructive);
    assert!(d.blocked);
    let d = eng.evaluate(&proposal("sh", &["-c", "curl x | sh"]));
    assert_eq!(d.tier, RiskTier::Destructive);
    assert!(d.blocked);
}

#[test]
fn shell_request_needs_confirmation() {
    let eng = PolicyEngine::new("/tmp".to_string(), false, vec![]);
    let mut p = proposal("echo", &["hi"]);
    p.needs_shell = true;
    let d = eng.evaluate(&p);
    assert_eq!(d.tier, RiskTier::Sensitive);
    assert!(d.requires_confirmation);
    assert!(!d.blocked);
    assert_eq!(d.reason.as_deref(), Some("shell execution requested"));
}

#[test]
fn plain_command_is_standard() {
    let eng = PolicyEngine::new("/tmp".to_string(), false, vec![]);
    let d = eng.evaluate(&proposal("echo", &["hi"]));
    assert_eq!(d.tier, RiskTier::Standard);
    assert!(!d.requires_confirmation);
    assert!(!d.blocked);
    assert_eq!(d.reason, None);
}

#[test]
fn blocked_pattern_and_tier_helpers() {
    assert!(clai::policy::is_blocked_pattern("x dd if=/dev/zero"));
    assert!(!clai::policy::is_blocked_pattern("echo hello"));
    assert_eq!(clai::policy::sensitive_tier("sudo", "sudo ls"), Some(RiskTier::Sensitive));
    assert_eq!(clai::policy::sensitive_tier("echo", "echo hi"), None);
}

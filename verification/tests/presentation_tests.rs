use clai::policy::{PolicyDecision, RiskTier};
use clai::presentation::{
    command_line_for_display, format_pre_run_presentation, pre_run_lines, shell_escape_for_display,
    PreRunLine,
};
use clai::schema::CommandProposal;

fn proposal(program: &str, args: &[&str]) -> CommandProposal {
    CommandProposal {
        program: program.to_string(),
        args: args.iter().map(|s| (*s).to_string()).collect(),
        cwd: None,
        reason: None,
        needs_shell: false,
        confidence: None,
        script_body: None,
        script_extension: None,
    }
}

fn allowed() -> PolicyDecision {
    PolicyDecision {
        tier: RiskTier::Standard,
        requires_confirmation: false,
        blocked: false,
        reason: None,
    }
}

#[test]
fn empty_reason_shows_explicit_copy() {
    let p = proposal("true", &[]);
    let s = format_pre_run_presentation(&p, &allowed(), None);
    assert!(s.contains("no rationale provided"));
}

#[test]
fn blocked_branch_includes_explanation() {
    let mut p = proposal("rm", &["-rf", "/"]);
    p.reason = Some("bad".into());
    let d = PolicyDecision {
        tier: RiskTier::Destructive,
        requires_confirmation: true,
        blocked: true,
        reason: Some("matches high-risk blocklist".into()),
    };
    let s = format_pre_run_presentation(&p, &d, None);
    assert!(s.contains("Blocked:"));
    assert!(s.contains("will not be run"));
}

#[test]
fn escape_empty_token() {
    assert_eq!(shell_escape_for_display(""), "''");
}

#[test]
fn preview_program_and_args() {
    assert_eq!(command_line_for_display(&proposal("ls", &[])), "ls");
    assert_eq!(command_line_for_display(&proposal("ls", &["-la"])), "ls -la");
}

#[test]
fn escape_quotes_arg_with_space() {
    assert_eq!(command_line_for_display(&proposal("echo", &["a b"])), "echo 'a b'");
}

#[test]
fn preview_omits_model_metadata() {
    let mut p = proposal("true", &[]);
    p.reason = Some("secret or bypass hint from model".to_string());
    let line = command_line_for_display(&p);
    assert!(!line.contains("reason"));
    assert!(!line.contains("bypass"));
}

#[test]
fn escape_single_quote_inside_token() {
    assert_eq!(shell_escape_for_display("it's"), "'it'\"'\"'s'");
    assert_eq!(shell_escape_for_display("a\\b"), "'a\\b'");
    assert_eq!(shell_escape_for_display("plain"), "plain");
}

#[test]
fn allowed_presentation_exact_text() {
    let mut p = proposal("ls", &["-la"]);
    p.cwd = Some("/work".into());
    p.reason = Some("list files".into());
    p.confidence = Some("high".into());
    let d = PolicyDecision {
        tier: RiskTier::ReadOnly,
        requires_confirmation: true,
        blocked: false,
        reason: None,
    };
    let s = format_pre_run_presentation(&p, &d, Some("/tmp/s.py"));
    assert_eq!(
        s,
        "── Proposal ──\nExecutable + args: ls -la\nManaged temp script: interpreter runs this ephemeral file (removed after exit): /tmp/s.py\nWorking directory: /work\nWhat / intent: list files\nConfidence: high"
    );
}

#[test]
fn sensitive_presentation_asks_policy_confirmation() {
    let p = proposal("chmod", &["+x", "f"]);
    let d = PolicyDecision {
        tier: RiskTier::Sensitive,
        requires_confirmation: true,
        blocked: false,
        reason: None,
    };
    let lines = pre_run_lines(&p, &d, None);
    assert_eq!(lines.last(), Some(&PreRunLine::PolicyConfirm));
}

#[test]
fn blocked_lines_without_reason_use_default() {
    let mut p = proposal("rm", &["x"]);
    p.needs_shell = true;
    let d = PolicyDecision {
        tier: RiskTier::Destructive,
        requires_confirmation: true,
        blocked: true,
        reason: None,
    };
    let lines = pre_run_lines(&p, &d, Some(""));
    assert_eq!(
        lines,
        vec![
            PreRunLine::SectionBlocked,
            PreRunLine::CommandLine { needs_shell: true, line: "rm x".into(), blocked: true },
            PreRunLine::ShellRequestNote,
            PreRunLine::Blocked { reason: "blocked by policy (no reason given).".into() },
            PreRunLine::WontRun,
        ]
    );
}

#[test]
fn whitespace_reason_counts_as_missing() {
    let mut p = proposal("true", &[]);
    p.reason = Some("   ".into());
    let lines = pre_run_lines(&p, &allowed(), None);
    assert!(lines.contains(&PreRunLine::Intent("(no rationale provided in model output)".into())));
}

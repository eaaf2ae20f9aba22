use clai::config::{ExecutionConfig, ExecutionMode};
use clai::schema::CommandProposal;
use clai::session::{classify_builtin_line, non_direct_context_one_line, non_direct_context_verbose, SessionBuiltin};

fn p() -> CommandProposal {
    CommandProposal {
        program: "sh".to_string(),
        args: vec!["-c".to_string(), "true".to_string()],
        cwd: None,
        reason: None,
        needs_shell: false,
        confidence: None,
        script_body: None,
        script_extension: None,
    }
}

#[test]
fn builtin_exit_quit() {
    assert_eq!(classify_builtin_line("  EXIT  "), Some(SessionBuiltin::Exit));
    assert_eq!(classify_builtin_line("quit"), Some(SessionBuiltin::Exit));
}

#[test]
fn builtin_help() {
    assert_eq!(classify_builtin_line("help"), Some(SessionBuiltin::Help));
    assert_eq!(classify_builtin_line("?"), Some(SessionBuiltin::Help));
}

#[test]
fn non_builtin_none() {
    assert_eq!(classify_builtin_line("ls -la"), None);
}

#[test]
fn builtin_reload_and_blank() {
    assert_eq!(classify_builtin_line("Reload"), Some(SessionBuiltin::Reload));
    assert_eq!(classify_builtin_line("   "), None);
}

#[test]
fn direct_mode_returns_none() {
    let e = ExecutionConfig { mode: ExecutionMode::Direct, ..Default::default() };
    assert!(non_direct_context_one_line(&p(), &e, "/home/u").is_none());
}

#[test]
fn docker_includes_image_and_cwd() {
    let e = ExecutionConfig {
        mode: ExecutionMode::Docker,
        docker_image: Some("myimg:tag".into()),
        ..Default::default()
    };
    let line = non_direct_context_one_line(&p(), &e, "/home/u").expect("line");
    assert!(line.contains("profile=docker"));
    assert!(line.contains("image=myimg:tag"));
    assert!(line.contains("sh"));
    assert!(line.contains("cwd="));
    assert_eq!(line, "clai: profile=docker  image=myimg:tag  cwd=/home/u  sh -c true");
}

#[test]
fn bwrap_contains_profile() {
    let e = ExecutionConfig { mode: ExecutionMode::Bwrap, ..Default::default() };
    let line = non_direct_context_one_line(&p(), &e, "/w").expect("line");
    assert!(line.contains("profile=bwrap"));
}

#[test]
fn docker_default_image_and_proposal_cwd() {
    let e = ExecutionConfig { mode: ExecutionMode::Docker, ..Default::default() };
    let mut q = p();
    q.cwd = Some("/proj".into());
    let line = non_direct_context_one_line(&q, &e, "/home/u").expect("line");
    assert_eq!(line, "clai: profile=docker  image=alpine:latest  cwd=/proj  sh -c true");
}

#[test]
fn verbose_context_lists_extra_args() {
    let e = ExecutionConfig {
        mode: ExecutionMode::Bwrap,
        bwrap_extra_args: vec!["--ro-bind".into(), "/".into()],
        ..Default::default()
    };
    let s = non_direct_context_verbose(&p(), &e, "/w").expect("line");
    assert_eq!(
        s,
        "clai: profile=bwrap  cwd=/w  sh -c true\n  bwrap_extra_args: [\"--ro-bind\", \"/\"]"
    );
}

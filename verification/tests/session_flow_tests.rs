use clai::cloud::{reply_content, ChatChoice, ChatReply};
use clai::flow::{offers_after_yes, question_text, session_step, PromptPlan, SessionQuestion as Q, SessionSkip, SessionStep};
use clai::cloud::{authorization_header, chat_completions_url, endpoint_url};
use clai::config::{
    check_config_version, default_config_path, default_data_dir, resolve_config_path_for_read,
    with_migration_hint, xdg_dir, AppConfig, CloudConfig,
};
use clai::digest::digest_matches;
use clai::error::AppError;
use clai::registry::{resolve_model_path, ModelRegistry, RegistryModel};
use clai::session::{
    after_run_output, classify_session_line, cloud_target, no_stream_requested, run_finished_notice,
    run_preview, session_model_line, session_source, user_request_message, AfterRun, SessionBuiltin,
    SessionLine,
};
use clai::stream_strategy::StreamStrategy;
use clai::tty::Severity;
use sha2::Digest;

#[test]
fn error_messages() {
    assert_eq!(AppError::Msg("x".into()).message(), "x");
    assert_eq!(
        AppError::RegistryVersion { got: 2 }.message(),
        "model registry major version 2 unsupported; upgrade clai"
    );
    assert_eq!(
        AppError::ConfigNeedsMigration { current: 0, latest: 1 }.message(),
        "config version 0 requires migration to 1; run `clai migrate --dry-run`"
    );
}

#[test]
fn config_locations() {
    assert_eq!(xdg_dir(Some("/x"), Some("/home/u"), ".config"), Some("/x".to_string()));
    assert_eq!(xdg_dir(Some(""), Some("/home/u"), ".config"), Some("/home/u/.config".to_string()));
    assert_eq!(xdg_dir(None, None, ".config"), None);
    assert_eq!(default_config_path(Some("/home/u/.config")), "/home/u/.config/clai/config.toml");
    assert_eq!(default_config_path(None), "./clai/config.toml");
    assert_eq!(default_data_dir(Some("/d")), "/d/clai");
    assert_eq!(resolve_config_path_for_read(Some("a.toml".into()), "b".into(), None), "a.toml");
    assert_eq!(
        resolve_config_path_for_read(None, "/nonexistent/clai/config.toml".into(), Some("/nonexistent/legacy.toml".into())),
        "/nonexistent/clai/config.toml"
    );
}

#[test]
fn config_version_checks() {
    assert_eq!(check_config_version(1), Ok(()));
    assert_eq!(
        check_config_version(2),
        Err(AppError::Msg("config version 2 is newer than this clai supports (1)".into()))
    );
    assert_eq!(
        check_config_version(0),
        Err(AppError::ConfigNeedsMigration { current: 0, latest: 1 })
    );
    assert_eq!(
        with_migration_hint(AppError::ConfigNeedsMigration { current: 0, latest: 1 }),
        AppError::Msg("config requires migration — run: clai migrate apply".into())
    );
    assert_eq!(with_migration_hint(AppError::Msg("x".into())), AppError::Msg("x".into()));
}

fn registry() -> ModelRegistry {
    ModelRegistry {
        registry_version: 1,
        models: vec![RegistryModel {
            id: "qwen".into(),
            display_name: "Qwen".into(),
            hf_repo: "org/qwen".into(),
            filename: "qwen.gguf".into(),
            sha256: None,
            profile: "fast".into(),
            ram_hint_gb: None,
        }],
    }
}

#[test]
fn model_path_resolution_order() {
    let mut cfg = AppConfig::default();
    let reg = registry();
    assert_eq!(resolve_model_path(&cfg, Some("/o.gguf".into()), &reg, "/nonexistent", None), Ok("/o.gguf".to_string()));
    cfg.model_path = Some("/cfg.gguf".into());
    assert_eq!(resolve_model_path(&cfg, None, &reg, "/nonexistent", None), Ok("/cfg.gguf".to_string()));
    cfg.model_path = None;
    assert_eq!(
        resolve_model_path(&cfg, None, &reg, "/nonexistent", None),
        Err(AppError::Msg("no default model; run clai init or --model".into()))
    );
    cfg.default_model_id = Some("nope".into());
    assert_eq!(
        resolve_model_path(&cfg, None, &reg, "/nonexistent", None),
        Err(AppError::Msg("unknown model id nope".into()))
    );
    cfg.default_model_id = Some("qwen".into());
    assert_eq!(
        resolve_model_path(&cfg, None, &reg, "/nonexistent", None),
        Err(AppError::Msg(
            "model file not found; run: clai models pull qwen (installs to /nonexistent/models/qwen.gguf)".into()
        ))
    );
}

#[test]
fn session_lines() {
    assert_eq!(classify_session_line("   \t"), SessionLine::Blank);
    assert_eq!(classify_session_line("  QUIT \n"), SessionLine::Builtin(SessionBuiltin::Exit));
    assert_eq!(classify_session_line(" list files \n"), SessionLine::Request("list files".into()));
    assert_eq!(
        user_request_message("list files"),
        "User request: list files\nReply with ONLY the JSON object."
    );
}

#[test]
fn stream_env_flag() {
    assert!(no_stream_requested(Some("1")));
    assert!(no_stream_requested(Some("true")));
    assert!(no_stream_requested(Some("yes")));
    assert!(!no_stream_requested(Some("TRUE")));
    assert!(!no_stream_requested(Some("0")));
    assert!(!no_stream_requested(None));
}

#[test]
fn cloud_settings() {
    let mut c = CloudConfig::default();
    assert_eq!(cloud_target(&c), Err(AppError::Msg("cloud.base_url missing".into())));
    c.base_url = Some("https://api.example/v1/".into());
    assert_eq!(cloud_target(&c), Err(AppError::Msg("cloud.model missing".into())));
    c.model = Some("gpt".into());
    assert_eq!(cloud_target(&c), Ok(("https://api.example/v1/".to_string(), "gpt".to_string())));
    assert_eq!(chat_completions_url("https://api.example/v1//"), "https://api.example/v1/chat/completions");
    assert_eq!(chat_completions_url("http://h"), "http://h/chat/completions");
    assert_eq!(endpoint_url("http://127.0.0.1:11434/", "/api/tags"), "http://127.0.0.1:11434/api/tags");
    assert_eq!(endpoint_url("///", "/x"), "/x");
    assert_eq!(authorization_header(Some("k1")), Some("Bearer k1".to_string()));
    assert_eq!(authorization_header(None), None);
}

#[test]
fn session_header_parts() {
    assert_eq!(session_source(true, true), "cloud");
    assert_eq!(session_source(true, false), "local");
    assert_eq!(session_model_line(true, Some("gpt"), &Ok("x".into())), "model (cloud): gpt");
    assert_eq!(session_model_line(true, None, &Ok("x".into())), "model (cloud): (cloud.model not set)");
    assert_eq!(session_model_line(false, None, &Ok("/m.gguf".into())), "model (local): /m.gguf");
    assert_eq!(
        session_model_line(false, None, &Err(AppError::Msg("no default model; run clai init or --model".into()))),
        "model (local): (unresolved — no default model; run clai init or --model)"
    );
}

#[test]
fn previews_and_after_run() {
    assert_eq!(run_preview(false, false, true, None, "ls -la"), Some("Run: ls -la".to_string()));
    assert_eq!(run_preview(false, false, true, Some("clai: profile=bwrap".into()), "ls"), Some("clai: profile=bwrap".to_string()));
    assert_eq!(run_preview(true, false, true, None, "ls"), None);
    assert_eq!(run_preview(false, true, true, None, "ls"), None);
    assert_eq!(run_preview(false, false, false, None, "ls"), None);
    assert_eq!(
        after_run_output(true, StreamStrategy::Capture, true, false, false),
        AfterRun { report: true, context_line: false, captured: false }
    );
    assert_eq!(
        after_run_output(false, StreamStrategy::Capture, true, false, false),
        AfterRun { report: false, context_line: true, captured: true }
    );
    assert_eq!(
        after_run_output(false, StreamStrategy::Capture, true, false, true),
        AfterRun { report: false, context_line: false, captured: true }
    );
    assert_eq!(
        after_run_output(false, StreamStrategy::Inherit, true, false, false),
        AfterRun { report: false, context_line: false, captured: false }
    );
}

#[test]
fn run_notices() {
    let (label, msg, sev) = run_finished_notice(false, 0);
    assert_eq!((label, msg.as_str(), sev), ("ok", "command finished.", Severity::Success));
    let (label, msg, sev) = run_finished_notice(false, -3);
    assert_eq!(label, "warn");
    assert_eq!(sev, Severity::Warn);
    assert_eq!(msg, "run finished with clai exit mapping -3 (clai continues; type another line or exit)");
    let (_, msg, _) = run_finished_notice(true, 124);
    assert_eq!(msg, "run finished with clai exit mapping 124 (clai continues; type another line or exit)");
}

#[test]
fn digest_check() {
    let d = sha2::Sha256::digest(b"abc");
    assert!(digest_matches(d.as_slice(), "BA7816BF8F01CFEA414140DE5DAE2223B00361A396177A9CB410FF61F20015AD"));
    assert!(digest_matches(d.as_slice(), "ba7816bf8f01cfea414140de5dae2223b00361a396177a9cb410ff61f20015ad"));
    assert!(!digest_matches(d.as_slice(), "00"));
    assert!(digest_matches(&[0xab, 0x01], "ab01"));
}

#[test]
fn cloud_reply_content() {
    let r = ChatReply { choices: vec![ChatChoice { content: Some("{\"program\":\"ls\"}".into()) }, ChatChoice { content: None }] };
    assert_eq!(reply_content(&r), Ok("{\"program\":\"ls\"}".to_string()));
    let missing = AppError::Msg("cloud: missing choices[0].message.content".into());
    assert_eq!(reply_content(&ChatReply { choices: vec![] }), Err(missing.clone()));
    assert_eq!(reply_content(&ChatReply { choices: vec![ChatChoice { content: None }] }), Err(missing));
}

#[test]
fn session_steps_follow_answers() {
    let plan = PromptPlan { dry_run_execute: true, policy_confirm: false, run_confirm: false, combined: true };
    assert_eq!(session_step(true, plan, None), SessionStep::Skip(SessionSkip::Blocked));
    assert_eq!(session_step(false, plan, None), SessionStep::Ask(Q::DryRunExecute));
    assert_eq!(session_step(false, plan, Some((Q::DryRunExecute, true))), SessionStep::Ask(Q::Combined));
    assert_eq!(session_step(false, plan, Some((Q::Combined, true))), SessionStep::Run);
    assert_eq!(session_step(false, plan, Some((Q::Combined, false))), SessionStep::Skip(SessionSkip::PolicyDeclined));
    assert_eq!(session_step(false, plan, Some((Q::DryRunExecute, false))), SessionStep::Skip(SessionSkip::DryRunDeclined));
    let run_only = PromptPlan { dry_run_execute: false, policy_confirm: false, run_confirm: true, combined: false };
    assert_eq!(session_step(false, run_only, None), SessionStep::Ask(Q::RunConfirm));
    assert_eq!(session_step(false, run_only, Some((Q::RunConfirm, false))), SessionStep::Skip(SessionSkip::RunDeclined));
    let nothing = PromptPlan { dry_run_execute: false, policy_confirm: false, run_confirm: false, combined: false };
    assert_eq!(session_step(false, nothing, None), SessionStep::Run);
    assert_eq!(question_text(Q::RunConfirm), "Run proposed command?");
    assert_eq!(offers_after_yes(Q::Combined), (true, true));
    assert_eq!(offers_after_yes(Q::PolicyConfirm), (true, false));
    assert_eq!(offers_after_yes(Q::DryRunExecute), (false, false));
}

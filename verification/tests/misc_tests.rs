use clai::ask_exit::{
    clai_ask_process_exit_for_child, CLAI_ASK_DRY_RUN_EXIT, CLAI_ASK_TIMEOUT_EXIT,
    CLAI_ASK_USER_DECLINED_EXIT,
};
use clai::engine::{complete_local_best_effort, max_new_tokens_local, DEFAULT_MAX_NEW_TOKENS};
use clai::host_context::{build_system_prompt, classify_shell_path, detect_shell_family, shell_family_for_profile, HostContext, ShellFamily};
use clai::runtime_tooling::{runtime_tooling_snapshot, status, RuntimeTooling};

#[test]
fn no_run_exit_codes_are_nonzero_and_distinct() {
    assert_ne!(CLAI_ASK_USER_DECLINED_EXIT, 0);
    assert_ne!(CLAI_ASK_DRY_RUN_EXIT, 0);
    assert_ne!(CLAI_ASK_TIMEOUT_EXIT, 0);
    assert_ne!(CLAI_ASK_USER_DECLINED_EXIT, CLAI_ASK_DRY_RUN_EXIT);
}

#[test]
fn maps_zero_and_nonzero() {
    assert_eq!(clai_ask_process_exit_for_child(Some(0), None), 0);
    assert_eq!(clai_ask_process_exit_for_child(Some(1), None), 1);
    assert_eq!(clai_ask_process_exit_for_child(Some(42), None), 42);
}

#[test]
fn maps_unix_signal_termination() {
    assert_eq!(clai_ask_process_exit_for_child(None, Some(15)), 128 + 15);
    assert_eq!(clai_ask_process_exit_for_child(None, None), 1);
}

#[test]
fn classify_bash_path() {
    assert_eq!(classify_shell_path("/bin/bash"), ShellFamily::Bash);
}

#[test]
fn classify_other_shells() {
    assert_eq!(classify_shell_path("/usr/bin/ZSH"), ShellFamily::Zsh);
    assert_eq!(classify_shell_path("C:\\pwsh.exe"), ShellFamily::Pwsh);
    assert_eq!(classify_shell_path("/bin/sh"), ShellFamily::PosixSh);
    assert_eq!(classify_shell_path("/bin/tcsh"), ShellFamily::PosixSh);
    assert_eq!(classify_shell_path("/opt/xyz"), ShellFamily::Unknown);
    assert_eq!(shell_family_for_profile("windows_cmd"), Some(ShellFamily::Cmd));
    assert_eq!(shell_family_for_profile("other"), None);
    assert_eq!(detect_shell_family(None, true, true, None), Some(ShellFamily::PowerShell));
    assert_eq!(detect_shell_family(None, false, false, Some("/bin/fish")), Some(ShellFamily::Fish));
    assert_eq!(detect_shell_family(None, false, false, None), None);
}

#[test]
fn system_prompt_mentions_host() {
    let h = HostContext {
        os: "linux".into(),
        arch: "x86_64".into(),
        os_description: "Linux".into(),
        shell_family: ShellFamily::Bash,
        shell_executable_hint: None,
        is_tty: false,
        path_separator: '/',
        cwd: "/w".into(),
    };
    let s = build_system_prompt(&h);
    assert!(s.starts_with("You output exactly one JSON object"));
    assert!(s.contains("Host: os=linux arch=x86_64 cwd=/w shell_family=Bash path_sep=/\n"));
    assert!(s.contains("\"script_extension\""));
}

#[test]
fn empty_snapshot_when_detect_off() {
    let t = runtime_tooling_snapshot(false, || -> RuntimeTooling { unreachable!() });
    assert_eq!(t.python3, None);
    assert_eq!(t.node, None);
}

#[test]
fn snapshot_uses_probe_when_detecting() {
    let t = runtime_tooling_snapshot(true, || RuntimeTooling {
        python3: Some("/usr/bin/python3".into()),
        python: None,
        node: None,
        ruby: None,
        perl: None,
        php: None,
    });
    assert_eq!(t.python3.as_deref(), Some("/usr/bin/python3"));
    let rows = t.doctor_rows();
    assert_eq!(rows[0], ("python3", "yes — /usr/bin/python3".to_string()));
    assert_eq!(rows[5], ("php", "not found on PATH".to_string()));
    assert_eq!(status(&None), "not found on PATH");
}

#[test]
fn token_cap_from_env_value() {
    assert_eq!(max_new_tokens_local(None), DEFAULT_MAX_NEW_TOKENS);
    assert_eq!(max_new_tokens_local(Some("100")), 100);
    assert_eq!(max_new_tokens_local(Some("-5")), DEFAULT_MAX_NEW_TOKENS);
    assert_eq!(max_new_tokens_local(Some("999999")), 32768);
    assert_eq!(max_new_tokens_local(Some("abc")), DEFAULT_MAX_NEW_TOKENS);
    assert_eq!(max_new_tokens_local(Some("+100")), 100);
    assert_eq!(max_new_tokens_local(Some("0")), DEFAULT_MAX_NEW_TOKENS);
    assert_eq!(max_new_tokens_local(Some(" 5")), DEFAULT_MAX_NEW_TOKENS);
    assert_eq!(max_new_tokens_local(Some("99999999999")), DEFAULT_MAX_NEW_TOKENS);
    assert_eq!(max_new_tokens_local(Some("007")), 7);
}

#[test]
fn local_completion_unavailable_in_this_build() {
    assert!(complete_local_best_effort("/m.gguf", "s", "u", 10).is_err());
}

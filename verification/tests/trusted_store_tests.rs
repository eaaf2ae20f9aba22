use clai::error::AppError;
use clai::trusted_store::{append_remember_run_program, append_trusted_program};

#[test]
fn append_creates_minimal_config() {
    let raw = append_trusted_program(None, "clai.toml", "chmod")
        .expect("append")
        .expect("new text");
    assert!(raw.contains("trusted_programs"));
    assert!(raw.contains("chmod"));
    assert!(raw.contains("config_version"));
}

#[test]
fn append_is_idempotent() {
    let first = append_trusted_program(None, "clai.toml", "/usr/bin/chmod")
        .expect("append")
        .expect("new text");
    let second = append_trusted_program(Some(first.as_str()), "clai.toml", "chmod").expect("append2");
    assert!(second.is_none());
    assert_eq!(first.matches("chmod").count(), 1, "{}", first);
}

#[test]
fn append_merges_existing_table() {
    let existing = "config_version = 1\n[interactive]\nexecution = \"confirm\"\n";
    let raw = append_trusted_program(Some(existing), "config.toml", "git")
        .expect("append")
        .expect("new text");
    assert!(raw.contains("execution"));
    assert!(raw.contains("git"));
}

#[test]
fn append_remember_run_merges_interactive_section() {
    let existing = "config_version = 1\n[interactive]\nexecution = \"confirm\"\n";
    let raw = append_remember_run_program(Some(existing), "clai.toml", "ls")
        .expect("append")
        .expect("new text");
    assert!(raw.contains("remember_run_programs"));
    assert!(raw.contains("ls"));
    assert!(raw.contains("execution"));
}

#[test]
fn append_ignores_ascii_case_of_listed_name() {
    let existing = "[policy]\ntrusted_programs = [\"Git\"]\n";
    let out = append_trusted_program(Some(existing), "clai.toml", "/usr/bin/git").expect("append");
    assert!(out.is_none());
}

#[test]
fn existing_file_gets_no_version_line() {
    let existing = "[policy]\n";
    let raw = append_trusted_program(Some(existing), "clai.toml", "make")
        .expect("append")
        .expect("new text");
    assert!(!raw.contains("config_version"));
    assert!(raw.contains("make"));
}

#[test]
fn parse_error_names_the_file() {
    match append_trusted_program(Some("[policy"), "/home/u/clai.toml", "ls") {
        Err(AppError::Msg(m)) => assert!(m.starts_with("/home/u/clai.toml: "), "{}", m),
        other => panic!("unexpected {:?}", other),
    }
}

#[test]
fn wrong_section_type_is_reported() {
    match append_trusted_program(Some("policy = 3\n"), "clai.toml", "ls") {
        Err(AppError::Msg(m)) => assert_eq!(m, "[policy] must be a table"),
        other => panic!("unexpected {:?}", other),
    }
}

#[test]
fn wrong_key_type_is_reported() {
    match append_trusted_program(Some("[policy]\ntrusted_programs = \"ls\"\n"), "clai.toml", "ls") {
        Err(AppError::Msg(m)) => assert_eq!(m, "trusted_programs must be an array"),
        other => panic!("unexpected {:?}", other),
    }
}

#[test]
fn other_values_survive_the_edit() {
    let existing = "ratio = 0.5\n[policy]\ntrusted_programs = [\"ls\"]\n";
    let raw = append_trusted_program(Some(existing), "clai.toml", "cat")
        .expect("append")
        .expect("new text");
    assert!(raw.contains("0.5"));
    assert!(raw.contains("\"ls\""));
    assert!(raw.contains("\"cat\""));
}

#[test]
fn resolve_prefers_existing_clai_toml() {
    let dir = tempfile::tempdir().expect("tempdir");
    let clai = dir.path().join("clai.toml");
    tempfile::NamedTempFile::new_in(dir.path()).unwrap().persist(&clai).unwrap();
    let dot_dir = tempfile::Builder::new().prefix(".clai").rand_bytes(0).tempdir_in(dir.path()).expect("mkdir");
    let dot = dot_dir.path().join("config.toml");
    tempfile::NamedTempFile::new_in(dot_dir.path()).unwrap().persist(&dot).unwrap();
    assert_eq!(
        clai::trusted_store::resolve_project_trusted_write_path(dir.path().to_str().unwrap()),
        clai.to_str().unwrap()
    );
}

#[test]
fn resolve_falls_back_to_dot_config_then_new_clai_toml() {
    let dir = tempfile::tempdir().expect("tempdir");
    let base = dir.path().to_str().unwrap().to_string();
    assert_eq!(
        clai::trusted_store::resolve_project_trusted_write_path(&base),
        dir.path().join("clai.toml").to_str().unwrap()
    );
    let dot_dir = tempfile::Builder::new().prefix(".clai").rand_bytes(0).tempdir_in(dir.path()).expect("mkdir");
    let dot = dot_dir.path().join("config.toml");
    tempfile::NamedTempFile::new_in(dot_dir.path()).unwrap().persist(&dot).unwrap();
    assert_eq!(clai::trusted_store::resolve_project_trusted_write_path(&base), dot.to_str().unwrap());
}

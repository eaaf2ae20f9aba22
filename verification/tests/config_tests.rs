use clai::config::{choose_config_path, choose_installed_model, choose_read_path};
use clai::config::{
    default_models_dir, discover_local_config_paths, AppConfig, ExecutionMode, LocalWarmupMode,
    CONFIG_VERSION_LATEST,
};
use clai::interactive_history::DEFAULT_HISTORY_MAX_ENTRIES;
use clai::migrate;

#[test]
fn default_local_warmup_is_off() {
    assert_eq!(AppConfig::default().interactive.local_warmup, LocalWarmupMode::Off);
}

#[test]
fn interactive_history_default_cap() {
    assert_eq!(AppConfig::default().interactive.history_max_entries, DEFAULT_HISTORY_MAX_ENTRIES);
}

#[test]
fn app_config_defaults() {
    let c = AppConfig::default();
    assert_eq!(c.config_version, CONFIG_VERSION_LATEST);
    assert!(c.policy.dry_run_default);
    assert_eq!(c.execution.mode, ExecutionMode::Direct);
    assert!(c.tooling.detect_runtimes);
    assert!(!c.tooling.ephemeral_scripts);
    assert!(c.cloud.structured_outputs);
    assert!(!clai::config::PolicyConfig::default().dry_run_default);
}

#[test]
fn discover_local_config_paths_orders_ancestor_before_descendant() {
    let dir = tempfile::tempdir().expect("tempdir");
    let root = tempfile::Builder::new().prefix("root").tempdir_in(dir.path()).expect("mkdir");
    let sub = tempfile::Builder::new().prefix("sub").tempdir_in(root.path()).expect("mkdir");
    let f1 = tempfile::NamedTempFile::new_in(root.path()).unwrap();
    let root_toml = root.path().join("clai.toml");
    f1.persist(&root_toml).unwrap();
    let f2 = tempfile::NamedTempFile::new_in(sub.path()).unwrap();
    let sub_toml = sub.path().join("clai.toml");
    f2.persist(&sub_toml).unwrap();
    let paths = discover_local_config_paths(sub.path().to_str().unwrap());
    assert_eq!(paths.len(), 2);
    assert_eq!(paths[0], root_toml.to_str().unwrap());
    assert_eq!(paths[1], sub_toml.to_str().unwrap());
}

#[test]
fn models_dir_under_data_dir() {
    assert_eq!(default_models_dir("/data/clai"), "/data/clai/models");
}

#[test]
fn migrate_plan_text() {
    assert_eq!(migrate::dry_run(1), "current config_version: 1\nno migration needed.");
    assert_eq!(migrate::dry_run(0), "current config_version: 0\nwould migrate 0 -> 1");
}

#[test]
fn migrate_apply_sets_latest_only() {
    let mut c = AppConfig::default();
    c.config_version = 0;
    c.default_model_id = Some("m".into());
    migrate::apply(&mut c);
    assert_eq!(c.config_version, CONFIG_VERSION_LATEST);
    assert_eq!(c.default_model_id.as_deref(), Some("m"));
    let mut d = AppConfig::default();
    d.config_version = 7;
    migrate::apply(&mut d);
    assert_eq!(d.config_version, 7);
}

#[test]
fn choosers_follow_existence_answers() {
    let p = || "/d/clai/registry.json".to_string();
    let l = || Some("/legacy/registry.json".to_string());
    assert_eq!(choose_read_path(p(), l(), true, true), "/d/clai/registry.json");
    assert_eq!(choose_read_path(p(), l(), false, true), "/legacy/registry.json");
    assert_eq!(choose_read_path(p(), l(), false, false), "/d/clai/registry.json");
    assert_eq!(choose_read_path(p(), None, false, true), "/d/clai/registry.json");
    assert_eq!(choose_installed_model(p(), l(), true, false), Some(p()));
    assert_eq!(choose_installed_model(p(), l(), false, true), l());
    assert_eq!(choose_installed_model(p(), l(), false, false), None);
    assert_eq!(choose_installed_model(p(), None, false, true), None);
    assert_eq!(choose_config_path(Some("x.toml".into()), p(), l(), true, true), "x.toml");
    assert_eq!(choose_config_path(None, p(), l(), false, true), "/legacy/registry.json");
}

#[test]
fn collected_config_paths_run_outermost_first() {
    let dirs = vec!["/a/b".to_string(), "/a".to_string(), "/".to_string()];
    // flags per directory, closest first: [.clai/config.toml, clai.toml]
    let present = vec![true, true, false, true, false, false];
    let r = clai::config::collect_config_paths(&dirs, &present);
    assert_eq!(r, vec!["/a/clai.toml", "/a/b/clai.toml", "/a/b/.clai/config.toml"]);
    let none = clai::config::collect_config_paths(&dirs, &vec![false; 6]);
    assert!(none.is_empty());
}

use clai::config::ExtraModelEntry;
use clai::error::AppError;
use clai::registry::{profile_rank, ModelRegistry, RegistryModel};

fn model(id: &str, name: &str, profile: &str) -> RegistryModel {
    RegistryModel {
        id: id.into(),
        display_name: name.into(),
        profile: profile.into(),
        hf_repo: "org/repo".into(),
        filename: format!("{id}.gguf"),
        sha256: None,
        ram_hint_gb: Some(8),
    }
}

fn base() -> ModelRegistry {
    ModelRegistry {
        registry_version: 1,
        models: vec![
            model("qwen2.5-7b", "Qwen 2.5 7B Instruct", "balanced"),
            model("phi-mini", "Phi Mini", "fast"),
        ],
    }
}

#[test]
fn search_finds_qwen() {
    let r = base();
    let hits = r.search("qwen 7b");
    assert_eq!(hits.len(), 1);
    assert_eq!(hits[0].id, "qwen2.5-7b");
}

#[test]
fn search_empty_query_lists_all() {
    let r = base();
    assert_eq!(r.search("   ").len(), 2);
    assert_eq!(r.search("FAST")[0].id, "phi-mini");
    assert!(r.search("llama").is_empty());
}

#[test]
fn find_by_id() {
    let r = base();
    assert_eq!(r.find("phi-mini").map(|m| m.display_name.as_str()), Some("Phi Mini"));
    assert!(r.find("nope").is_none());
}

#[test]
fn merge_same_version_overrides_and_appends() {
    let cached = ModelRegistry {
        registry_version: 1,
        models: vec![model("phi-mini", "Phi Mini v2", "fast"), model("new", "New", "capable")],
    };
    let m = ModelRegistry::load_merged(base(), Some(cached)).unwrap();
    let ids: Vec<&str> = m.models.iter().map(|m| m.id.as_str()).collect();
    assert_eq!(ids, vec!["qwen2.5-7b", "phi-mini", "new"]);
    assert_eq!(m.models[1].display_name, "Phi Mini v2");
}

#[test]
fn merge_rejects_unsupported_version() {
    let cached = ModelRegistry { registry_version: 2, models: vec![] };
    let e = ModelRegistry::load_merged(base(), Some(cached)).unwrap_err();
    assert_eq!(e, AppError::RegistryVersion { got: 2 });
}

#[test]
fn merge_without_cache_keeps_base() {
    let m = ModelRegistry::load_merged(base(), None).unwrap();
    assert_eq!(m.models.len(), 2);
}

#[test]
fn extras_are_upserted() {
    let extra = ExtraModelEntry {
        id: "mine".into(),
        display_name: "Mine".into(),
        profile: "capable".into(),
        hf_repo: "me/mine".into(),
        filename: "mine.gguf".into(),
        sha256: None,
        ram_hint_gb: None,
    };
    let m = base().with_extra_models(&vec![extra]);
    assert_eq!(m.models.len(), 3);
    assert_eq!(m.models[2].id, "mine");
}

#[test]
fn profile_ranks() {
    assert_eq!(profile_rank("fast"), 0);
    assert_eq!(profile_rank("balanced"), 1);
    assert_eq!(profile_rank("capable"), 2);
    assert_eq!(profile_rank("other"), 3);
}

#[test]
fn unknown_model_id_is_an_error() {
    let e = clai::registry::default_model_path_for("zzz", &base(), "/nonexistent-data", None).unwrap_err();
    assert_eq!(e, AppError::Msg("unknown model id zzz".into()));
    let e = clai::registry::default_model_path_for("phi-mini", &base(), "/nonexistent-data", None).unwrap_err();
    assert_eq!(
        e,
        AppError::Msg("model file not found; run: clai models pull phi-mini (installs to /nonexistent-data/models/phi-mini.gguf)".into())
    );
}

fn entry(id: &str, name: &str, profile: &str) -> clai::registry::RegistryModel {
    clai::registry::RegistryModel {
        id: id.into(),
        display_name: name.into(),
        profile: profile.into(),
        hf_repo: "org/repo".into(),
        filename: format!("{id}.gguf"),
        sha256: None,
        ram_hint_gb: None,
    }
}

#[test]
fn picker_orders_by_profile_then_name() {
    let models = vec![
        entry("b", "B", "capable"),
        entry("z", "z", "fast"),
        entry("a1", "a", "fast"),
        entry("c", "c", "other"),
        entry("a2", "A", "fast"),
        entry("m", "m", "balanced"),
    ];
    let ids: Vec<String> = clai::registry::models_in_picker_order(&models).into_iter().map(|m| m.id).collect();
    assert_eq!(ids, vec!["a1", "a2", "z", "m", "b", "c"]);
}

#[test]
fn model_path_outcome_follows_installed_answer() {
    let reg = ModelRegistry { registry_version: 1, models: vec![entry("phi", "Phi", "fast")] };
    assert_eq!(
        clai::registry::model_path_outcome("phi", &reg, "/data", Some("/data/models/phi.gguf".into())),
        Ok("/data/models/phi.gguf".to_string())
    );
    assert_eq!(
        clai::registry::model_path_outcome("phi", &reg, "/data", None),
        Err(AppError::Msg("model file not found; run: clai models pull phi (installs to /data/models/phi.gguf)".into()))
    );
    assert_eq!(
        clai::registry::model_path_outcome("nope", &reg, "/data", Some("/x".into())),
        Err(AppError::Msg("unknown model id nope".into()))
    );
}

#[test]
fn catalog_rows_mark_default_and_missing_files() {
    let mut fast = entry("fast-one", "Fast One", "fast");
    fast.ram_hint_gb = Some(4);
    let reg = ModelRegistry { registry_version: 1, models: vec![fast, entry("big", "Big", "capable")] };
    let installed = vec![Some("/data/models/fast-one.gguf".to_string()), None];
    let rows = clai::registry::catalog_rows(&reg, Some("big"), &installed);
    assert_eq!(rows.len(), 2);
    assert_eq!(rows[0].id, "fast-one");
    assert_eq!(rows[0].display_name, "Fast One");
    assert_eq!(rows[0].profile, "fast");
    assert_eq!(rows[0].location, "/data/models/fast-one.gguf");
    assert!(!rows[0].is_default);
    assert_eq!(rows[0].ram_hint_gb, Some(4));
    assert_eq!(rows[0].filename, "fast-one.gguf");
    assert_eq!(rows[1].location, "(not downloaded)");
    assert!(rows[1].is_default);
    assert_eq!(rows[1].hf_repo, "org/repo");
    let no_default = clai::registry::catalog_rows(&reg, None, &installed);
    assert!(no_default.iter().all(|r| !r.is_default));
}

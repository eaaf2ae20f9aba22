//! Configuration model: the settings `clai` reads from `config.toml`, project files and the
//! environment, their defaults, and where project files are looked for.

use vstd::prelude::*;

use crate::error::{msg_error, AppError};
use crate::interactive_history::DEFAULT_HISTORY_MAX_ENTRIES;
use crate::text::{decimal, push_decimal, to_owned_string};
use crate::interactive_mode::InteractiveExecutionMode;
use crate::path::{exists_answer, is_file_answer, path_join, probe_exists, probe_files, spec_path_join};
use crate::schema::strs;

verus! {

/// Bump when automatic migrations are required.
pub const CONFIG_VERSION_LATEST: u32 = 1;

/// Optional sandbox / wrapper for `run`.
#[derive(Debug, Clone, Copy, PartialEq, Eq, Structural)]
pub enum ExecutionMode {
    Direct,
    Docker,
    Bwrap,
}

impl Default for ExecutionMode {
    fn default() -> (r: Self)
        ensures
            r == ExecutionMode::Direct,
    {
        ExecutionMode::Direct
    }
}

/// How `run` executes a command (see `execution.mode`).
#[derive(Debug, Clone)]
pub struct ExecutionConfig {
    pub mode: ExecutionMode,
    /// Docker image when `mode = "docker"`.
    pub docker_image: Option<String>,
    pub docker_extra_args: Vec<String>,
    /// Extra `bwrap` args before `--` when `mode = "bwrap"`.
    pub bwrap_extra_args: Vec<String>,
}

impl Default for ExecutionConfig {
    fn default() -> (r: Self)
        ensures
            r.mode == ExecutionMode::Direct,
            r.docker_image is None,
            r.docker_extra_args@.len() == 0,
            r.bwrap_extra_args@.len() == 0,
    {
        ExecutionConfig {
            mode: ExecutionMode::Direct,
            docker_image: None,
            docker_extra_args: Vec::new(),
            bwrap_extra_args: Vec::new(),
        }
    }
}

/// `[tooling]`: PATH probes and optional file-backed scripts from model output.
#[derive(Debug, Clone)]
pub struct ToolingConfig {
    /// When true, probe PATH once per process and expose results in the prompt and `doctor`.
    pub detect_runtimes: bool,
    /// When true, `script_body` in model JSON is written to a private temp file.
    pub ephemeral_scripts: bool,
    /// Prompt guidance: prefer short scripts when a runtime fits.
    pub prefer_scripts_when_available: bool,
}

impl Default for ToolingConfig {
    fn default() -> (r: Self)
        ensures
            r.detect_runtimes,
            !r.ephemeral_scripts,
            r.prefer_scripts_when_available,
    {
        ToolingConfig {
            detect_runtimes: true,
            ephemeral_scripts: false,
            prefer_scripts_when_available: true,
        }
    }
}

/// Optional Hugging Face GGUF entry; same fields as registry model objects.
#[derive(Debug, Clone)]
pub struct ExtraModelEntry {
    pub id: String,
    pub display_name: String,
    pub profile: String,
    pub hf_repo: String,
    pub filename: String,
    pub sha256: Option<String>,
    pub ram_hint_gb: Option<u32>,
}

/// `[models]`: extra catalog entries.
#[derive(Debug, Clone)]
pub struct ModelsSection {
    pub extra: Vec<ExtraModelEntry>,
}

impl Default for ModelsSection {
    fn default() -> (r: Self)
        ensures
            r.extra@.len() == 0,
    {
        ModelsSection { extra: Vec::new() }
    }
}

/// When to load the local GGUF in an interactive local session.
#[derive(Debug, Clone, Copy, PartialEq, Eq, Structural)]
pub enum LocalWarmupMode {
    /// Lazy load on the first line that runs local inference.
    Off,
    /// Load the model after the session banner, before the first prompt.
    Blocking,
}

impl Default for LocalWarmupMode {
    fn default() -> (r: Self)
        ensures
            r == LocalWarmupMode::Off,
    {
        LocalWarmupMode::Off
    }
}

/// Config table `[interactive]`.
#[derive(Debug, Clone)]
pub struct InteractiveSection {
    /// When set, authoritative for interactive mode when no CLI override applies.
    pub execution: Option<InteractiveExecutionMode>,
    /// Optional eager load of the GGUF at session start.
    pub local_warmup: LocalWarmupMode,
    /// Confirm mode only: basenames that skip the "Run proposed command?" prompt.
    pub remember_run_programs: Vec<String>,
    /// Max qualifying request lines recalled with Up (raised to the minimum when used).
    pub history_max_entries: usize,
}

/// Default for `[interactive].history_max_entries`.
pub fn interactive_history_cap_default() -> (r: usize)
    ensures
        r == DEFAULT_HISTORY_MAX_ENTRIES,
{
    DEFAULT_HISTORY_MAX_ENTRIES
}

impl Default for InteractiveSection {
    fn default() -> (r: Self)
        ensures
            r.execution is None,
            r.local_warmup == LocalWarmupMode::Off,
            r.remember_run_programs@.len() == 0,
            r.history_max_entries == DEFAULT_HISTORY_MAX_ENTRIES,
    {
        InteractiveSection {
            execution: None,
            local_warmup: LocalWarmupMode::Off,
            remember_run_programs: Vec::new(),
            history_max_entries: DEFAULT_HISTORY_MAX_ENTRIES,
        }
    }
}

/// `[policy]`.
#[derive(Debug, Clone)]
pub struct PolicyConfig {
    pub dry_run_default: bool,
    pub allowlist_bins: Vec<String>,
    pub strict_allowlist: bool,
    /// Program basenames that skip the extra policy confirmation when the command is otherwise
    /// allowed (not blocked, not `needs_shell`, not destructive).
    pub trusted_programs: Vec<String>,
}

impl Default for PolicyConfig {
    fn default() -> (r: Self)
        ensures
            !r.dry_run_default,
            r.allowlist_bins@.len() == 0,
            !r.strict_allowlist,
            r.trusted_programs@.len() == 0,
    {
        PolicyConfig {
            dry_run_default: false,
            allowlist_bins: Vec::new(),
            strict_allowlist: false,
            trusted_programs: Vec::new(),
        }
    }
}

/// `[cloud]`: optional OpenAI-compatible API.
#[derive(Debug, Clone)]
pub struct CloudConfig {
    pub enabled: bool,
    pub base_url: Option<String>,
    pub api_key_env: Option<String>,
    pub model: Option<String>,
    /// Set false if the server rejects `response_format.type = json_schema`.
    pub structured_outputs: bool,
}

impl Default for CloudConfig {
    fn default() -> (r: Self)
        ensures
            !r.enabled,
            r.base_url is None,
            r.api_key_env is None,
            r.model is None,
            r.structured_outputs,
    {
        CloudConfig {
            enabled: false,
            base_url: None,
            api_key_env: None,
            model: None,
            structured_outputs: true,
        }
    }
}

/// Default for `config_version` when a file does not set it.
pub fn default_config_version() -> (r: u32)
    ensures
        r == CONFIG_VERSION_LATEST,
{
    CONFIG_VERSION_LATEST
}

/// Default for boolean settings that are on unless turned off.
pub fn default_true() -> (r: bool)
    ensures
        r,
{
    true
}

/// All settings.
#[derive(Debug, Clone)]
pub struct AppConfig {
    pub config_version: u32,
    pub default_model_id: Option<String>,
    pub model_path: Option<String>,
    /// posix | windows_powershell | windows_cmd
    pub execution_profile: Option<String>,
    pub preferred_shell: Option<String>,
    pub execution: ExecutionConfig,
    pub policy: PolicyConfig,
    pub cloud: CloudConfig,
    /// When true, `clai ask` uses machine-oriented output unless overridden.
    pub ask_verbose: bool,
    /// When true, `clai ask` uses piped capture in direct mode even on a TTY.
    pub ask_force_capture: bool,
    /// When true, do not print the one-line pre-run preview in human output.
    pub ask_no_preview: bool,
    pub interactive: InteractiveSection,
    pub models: ModelsSection,
    pub tooling: ToolingConfig,
}

impl Default for AppConfig {
    fn default() -> (r: Self)
        ensures
            r.config_version == CONFIG_VERSION_LATEST,
            r.default_model_id is None,
            r.model_path is None,
            r.execution_profile is None,
            r.preferred_shell is None,
            r.execution.mode == ExecutionMode::Direct,
            r.execution.docker_image is None,
            r.policy.dry_run_default,
            !r.policy.strict_allowlist,
            r.policy.allowlist_bins@.len() == 0,
            r.policy.trusted_programs@.len() == 0,
            !r.cloud.enabled,
            r.cloud.structured_outputs,
            !r.ask_verbose,
            !r.ask_force_capture,
            !r.ask_no_preview,
            r.interactive.execution is None,
            r.interactive.local_warmup == LocalWarmupMode::Off,
            r.interactive.history_max_entries == DEFAULT_HISTORY_MAX_ENTRIES,
            r.interactive.remember_run_programs@.len() == 0,
            r.models.extra@.len() == 0,
            r.tooling.detect_runtimes,
            !r.tooling.ephemeral_scripts,
            r.tooling.prefer_scripts_when_available,
    {
        AppConfig {
            config_version: CONFIG_VERSION_LATEST,
            default_model_id: None,
            model_path: None,
            execution_profile: None,
            preferred_shell: None,
            execution: ExecutionConfig::default(),
            policy: PolicyConfig {
                dry_run_default: true,
                allowlist_bins: Vec::new(),
                strict_allowlist: false,
                trusted_programs: Vec::new(),
            },
            cloud: CloudConfig::default(),
            ask_verbose: false,
            ask_force_capture: false,
            ask_no_preview: false,
            interactive: InteractiveSection::default(),
            models: ModelsSection::default(),
            tooling: ToolingConfig::default(),
        }
    }
}

/// Name for the list that `Path::ancestors` yields for `start`: the path itself, then each parent
/// up to the root.
pub uninterp spec fn spec_path_ancestors(start: Seq<char>) -> Seq<Seq<char>>;

/// Calls `Path::ancestors`; the contract says only that the result is the named ancestor list.
#[verifier::external_body]
fn path_ancestors(start: &str) -> (r: Vec<String>)
    ensures
        strs(r@) == spec_path_ancestors(start@),
{
    std::path::Path::new(start).ancestors().map(|p| p.to_string_lossy().into_owned()).collect()
}

/// The project config files looked for in directory `dir`, in the order they are checked.
pub open spec fn local_candidates(dir: Seq<char>) -> Seq<Seq<char>> {
    seq![spec_path_join(dir, ".clai/config.toml"@), spec_path_join(dir, "clai.toml"@)]
}

/// The candidates of every directory from `dirs[0]` (closest) outward, closest first.
pub open spec fn all_candidates(dirs: Seq<Seq<char>>) -> Seq<Seq<char>>
    decreases dirs.len(),
{
    if dirs.len() == 0 {
        seq![]
    } else {
        all_candidates(dirs.drop_last()) + local_candidates(dirs.last())
    }
}

/// Keep the entries of `c` whose flag in `present` is set.
pub open spec fn select(c: Seq<Seq<char>>, present: Seq<bool>) -> Seq<Seq<char>>
    decreases c.len(),
{
    if c.len() == 0 || present.len() == 0 {
        seq![]
    } else {
        select(c.drop_last(), present.drop_last()) + if present.last() {
            seq![c.last()]
        } else {
            seq![]
        }
    }
}

/// The project config files of `dirs` (closest directory first) whose flag in `present` is
/// set, outermost directory first, and within a directory `clai.toml` before
/// `.clai/config.toml`. `present` holds one flag per candidate of [`all_candidates`], in that
/// order.
pub fn collect_config_paths(dirs: &Vec<String>, present: &Vec<bool>) -> (r: Vec<String>)
    requires
        present@.len() == all_candidates(strs(dirs@)).len(),
    ensures
        strs(r@) == select(all_candidates(strs(dirs@)), present@).reverse(),
{
    let ghost dv = strs(dirs@);
    let mut stack: Vec<String> = Vec::new();
    let mut i: usize = 0;
    let n: usize = present.len();
    proof {
        lemma_all_candidates_len(dv);
    }
    while i < dirs.len()
        invariant
            i <= dirs.len(),
            n == present@.len(),
            dv == strs(dirs@),
            present@.len() == all_candidates(dv).len(),
            all_candidates(dv).len() == 2 * dv.len(),
            dv.len() == dirs@.len(),
            present@.len() == 2 * dirs@.len(),
            all_candidates(dv.subrange(0, i as int)).len() == 2 * i,
            strs(stack@) == select(
                all_candidates(dv.subrange(0, i as int)),
                present@.subrange(0, 2 * i as int),
            ),
        decreases dirs.len() - i,
    {
        let ghost prev_c = all_candidates(dv.subrange(0, i as int));
        let ghost prev_p = present@.subrange(0, 2 * i as int);
        let ghost prev_stack = strs(stack@);
        let a = path_join(dirs[i].as_str(), ".clai/config.toml");
        let pa = present[2 * i];
        let ghost av = a@;
        if pa {
            stack.push(a);
        }
        let b = path_join(dirs[i].as_str(), "clai.toml");
        let pb = present[2 * i + 1];
        let ghost bv = b@;
        if pb {
            stack.push(b);
        }
        proof {
            let d = dv.subrange(0, i + 1);
            assert(d.drop_last() =~= dv.subrange(0, i as int));
            assert(d.last() == dirs@[i as int]@);
            let c1 = prev_c.push(av);
            let c2 = c1.push(bv);
            assert(all_candidates(d) =~= c2);
            let p1 = prev_p.push(pa);
            let p2 = p1.push(pb);
            assert(p2 =~= present@.subrange(0, 2 * (i + 1)));
            assert(c2.drop_last() =~= c1);
            assert(p2.drop_last() =~= p1);
            assert(c1.drop_last() =~= prev_c);
            assert(p1.drop_last() =~= prev_p);
            assert(select(c1, p1) =~= prev_stack + if pa {
                seq![av]
            } else {
                seq![]
            });
            assert(strs(stack@) =~= select(c2, p2));
        }
        i = i + 1;
    }
    assert(dv.subrange(0, i as int) =~= dv);
    assert(present@.subrange(0, 2 * i as int) =~= present@);
    let ghost collected = strs(stack@);
    let mut out: Vec<String> = Vec::new();
    let mut k: usize = stack.len();
    while k > 0
        invariant
            k <= stack.len(),
            collected == strs(stack@),
            out@.len() == stack.len() - k,
            forall|j: int| 0 <= j < out@.len() ==> #[trigger] out@[j]@ == collected[stack.len() - 1 - j],
        decreases k,
    {
        k = k - 1;
        out.push(stack[k].clone());
    }
    assert(strs(out@) =~= collected.reverse());
    out
}

proof fn lemma_all_candidates_len(d: Seq<Seq<char>>)
    ensures
        all_candidates(d).len() == 2 * d.len(),
        forall|i: int| 0 <= i <= d.len() ==> #[trigger] all_candidates(d.subrange(0, i)).len() == 2 * i,
    decreases d.len(),
{
    if d.len() > 0 {
        lemma_all_candidates_len(d.drop_last());
        assert forall|i: int| 0 <= i <= d.len() implies #[trigger] all_candidates(d.subrange(0, i)).len() == 2 * i by {
            if i < d.len() {
                assert(d.subrange(0, i) =~= d.drop_last().subrange(0, i));
            } else {
                assert(d.subrange(0, i) =~= d);
            }
        }
    } else {
        assert forall|i: int| 0 <= i <= d.len() implies #[trigger] all_candidates(d.subrange(0, i)).len() == 2 * i by {
            assert(d.subrange(0, i) =~= d);
        }
    }
}

/// The candidates of directory `j` sit at positions `2 * j` (`.clai/config.toml`) and
/// `2 * j + 1` (`clai.toml`).
proof fn lemma_all_candidates_index(d: Seq<Seq<char>>, j: int)
    requires
        0 <= j < d.len(),
    ensures
        all_candidates(d).len() == 2 * d.len(),
        all_candidates(d)[2 * j] == spec_path_join(d[j], ".clai/config.toml"@),
        all_candidates(d)[2 * j + 1] == spec_path_join(d[j], "clai.toml"@),
    decreases d.len(),
{
    lemma_all_candidates_len(d);
    lemma_all_candidates_len(d.drop_last());
    if j < d.len() - 1 {
        lemma_all_candidates_index(d.drop_last(), j);
    }
}

proof fn lemma_select_keeps_flagged(c: Seq<Seq<char>>, present: Seq<bool>, k: int)
    requires
        c.len() == present.len(),
        0 <= k < c.len(),
        present[k],
    ensures
        select(c, present).contains(c[k]),
    decreases c.len(),
{
    let rest = select(c.drop_last(), present.drop_last());
    if k < c.len() - 1 {
        lemma_select_keeps_flagged(c.drop_last(), present.drop_last(), k);
        let i = choose|i: int| 0 <= i < rest.len() && rest[i] == c[k];
        assert(select(c, present)[i] == c[k]);
    } else {
        assert(select(c, present)[rest.len() as int] == c[k]);
    }
}

proof fn lemma_select_only_flagged(c: Seq<Seq<char>>, present: Seq<bool>, x: Seq<char>)
    requires
        c.len() == present.len(),
        select(c, present).contains(x),
    ensures
        exists|k: int| 0 <= k < c.len() && present[k] && c[k] == x,
    decreases c.len(),
{
    let rest = select(c.drop_last(), present.drop_last());
    let i = choose|i: int| 0 <= i < select(c, present).len() && select(c, present)[i] == x;
    if i < rest.len() {
        assert(rest[i] == x);
        lemma_select_only_flagged(c.drop_last(), present.drop_last(), x);
        let k = choose|k: int| 0 <= k < c.drop_last().len() && present.drop_last()[k] && c.drop_last()[k] == x;
        assert(present[k] && c[k] == x);
    } else {
        assert(present[c.len() - 1] && c[c.len() - 1] == x);
    }
}

proof fn lemma_reverse_contains(s: Seq<Seq<char>>, x: Seq<char>)
    ensures
        s.reverse().contains(x) <==> s.contains(x),
{
    if s.contains(x) {
        let i = choose|i: int| 0 <= i < s.len() && s[i] == x;
        assert(s.reverse()[s.len() - 1 - i] == x);
    }
    if s.reverse().contains(x) {
        let i = choose|i: int| 0 <= i < s.reverse().len() && s.reverse()[i] == x;
        assert(s[s.len() - 1 - i] == x);
    }
}

/// The discovered project files are exactly the candidates whose file test said yes: for every
/// directory `dirs[j]`, `dirs[j]/.clai/config.toml` is listed when its test said yes, and so is
/// `dirs[j]/clai.toml`; and every listed path is one of these two files of some directory whose
/// test said yes.
pub proof fn lemma_discovered_files(dirs: Seq<Seq<char>>, present: Seq<bool>, found: Seq<Seq<char>>)
    requires
        present.len() == 2 * dirs.len(),
        found == select(all_candidates(dirs), present).reverse(),
    ensures
        forall|j: int|
            #![trigger dirs[j]]
            0 <= j < dirs.len() ==> (present[2 * j] ==> found.contains(
                spec_path_join(dirs[j], ".clai/config.toml"@),
            )) && (present[2 * j + 1] ==> found.contains(spec_path_join(dirs[j], "clai.toml"@))),
        forall|x: Seq<char>|
            #[trigger] found.contains(x) ==> exists|j: int|
                0 <= j < dirs.len() && ((present[2 * j] && x == spec_path_join(
                    dirs[j],
                    ".clai/config.toml"@,
                )) || (present[2 * j + 1] && x == spec_path_join(dirs[j], "clai.toml"@))),
{
    let c = all_candidates(dirs);
    lemma_all_candidates_len(dirs);
    assert forall|j: int|
        #![trigger dirs[j]]
        0 <= j < dirs.len() implies (present[2 * j] ==> found.contains(
            spec_path_join(dirs[j], ".clai/config.toml"@),
        )) && (present[2 * j + 1] ==> found.contains(spec_path_join(dirs[j], "clai.toml"@))) by {
        lemma_all_candidates_index(dirs, j);
        if present[2 * j] {
            lemma_select_keeps_flagged(c, present, 2 * j);
            lemma_reverse_contains(select(c, present), c[2 * j]);
        }
        if present[2 * j + 1] {
            lemma_select_keeps_flagged(c, present, 2 * j + 1);
            lemma_reverse_contains(select(c, present), c[2 * j + 1]);
        }
    }
    assert forall|x: Seq<char>| #[trigger] found.contains(x) implies exists|j: int|
        0 <= j < dirs.len() && ((present[2 * j] && x == spec_path_join(dirs[j], ".clai/config.toml"@))
            || (present[2 * j + 1] && x == spec_path_join(dirs[j], "clai.toml"@))) by {
        lemma_reverse_contains(select(c, present), x);
        lemma_select_only_flagged(c, present, x);
        let k = choose|k: int| 0 <= k < c.len() && present[k] && c[k] == x;
        let j = k / 2;
        lemma_all_candidates_index(dirs, j);
        assert(k == 2 * j || k == 2 * j + 1);
    }
}

/// Walk from `start` (usually the working directory) up to the root and collect `clai.toml`
/// and `.clai/config.toml` files that exist. Outer directories come first, inner ones last, so
/// that later files win when merged. Whether each file exists is what `Path::is_file` answers
/// for that exact path (see [`is_file_answer`]); what is returned for the answers is
/// [`collect_config_paths`], and [`lemma_discovered_files`] says which paths that lists.
pub fn discover_local_config_paths(start: &str) -> (r: Vec<String>)
    ensures
        exists|present: Seq<bool>|
            {
                &&& present.len() == all_candidates(spec_path_ancestors(start@)).len()
                &&& present.len() == 2 * spec_path_ancestors(start@).len()
                &&& forall|j: int|
                    #![trigger spec_path_ancestors(start@)[j]]
                    0 <= j < spec_path_ancestors(start@).len() ==> is_file_answer(
                        spec_path_join(spec_path_ancestors(start@)[j], ".clai/config.toml"@),
                        present[2 * j],
                    ) && is_file_answer(
                        spec_path_join(spec_path_ancestors(start@)[j], "clai.toml"@),
                        present[2 * j + 1],
                    )
                &&& strs(r@) == #[trigger] select(
                    all_candidates(spec_path_ancestors(start@)),
                    present,
                ).reverse()
            },
{
    let dirs = path_ancestors(start);
    let ghost dv = strs(dirs@);
    let mut cands: Vec<String> = Vec::new();
    let mut i: usize = 0;
    proof {
        lemma_all_candidates_len(dv);
    }
    while i < dirs.len()
        invariant
            i <= dirs.len(),
            dv == strs(dirs@),
            strs(cands@) == all_candidates(dv.subrange(0, i as int)),
        decreases dirs.len() - i,
    {
        let a = path_join(dirs[i].as_str(), ".clai/config.toml");
        let b = path_join(dirs[i].as_str(), "clai.toml");
        let ghost prev = strs(cands@);
        cands.push(a);
        cands.push(b);
        proof {
            let d = dv.subrange(0, i + 1);
            assert(d.drop_last() =~= dv.subrange(0, i as int));
            assert(d.last() == dirs@[i as int]@);
            assert(strs(cands@) =~= all_candidates(d));
        }
        i = i + 1;
    }
    assert(dv.subrange(0, i as int) =~= dv);
    let present = probe_files(&cands);
    proof {
        lemma_all_candidates_len(dv);
        assert forall|j: int|
            #![trigger dv[j]]
            0 <= j < dv.len() implies is_file_answer(
                spec_path_join(dv[j], ".clai/config.toml"@),
                present@[2 * j],
            ) && is_file_answer(spec_path_join(dv[j], "clai.toml"@), present@[2 * j + 1]) by {
            lemma_all_candidates_index(dv, j);
            assert(cands@[2 * j]@ == strs(cands@)[2 * j]);
            assert(cands@[2 * j + 1]@ == strs(cands@)[2 * j + 1]);
        }
    }
    let r = collect_config_paths(&dirs, &present);
    assert(present@.len() == all_candidates(spec_path_ancestors(start@)).len());
    r
}

/// Default models directory under the data directory.
pub fn default_models_dir(data_dir: &str) -> (r: String)
    ensures
        r@ == spec_path_join(data_dir@, "models"@),
{
    path_join(data_dir, "models")
}

/// Default registry cache file under the data directory.
pub fn default_registry_cache_path(data_dir: &str) -> (r: String)
    ensures
        r@ == spec_path_join(data_dir@, "registry.json"@),
{
    path_join(data_dir, "registry.json")
}

/// A file to read: the preferred one when it exists, else the legacy one when there is one and
/// it exists, else the preferred one (which may then be created).
pub open spec fn read_path_choice(
    preferred: Seq<char>,
    legacy: Option<Seq<char>>,
    preferred_exists: bool,
    legacy_exists: bool,
) -> Seq<char> {
    if preferred_exists {
        preferred
    } else if legacy is Some && legacy_exists {
        legacy->0
    } else {
        preferred
    }
}

/// Pick the file to read from what exists (see [`read_path_choice`]).
pub fn choose_read_path(preferred: String, legacy: Option<String>, preferred_exists: bool, legacy_exists: bool) -> (r: String)
    ensures
        r@ == read_path_choice(preferred@, crate::schema::opt_str(legacy), preferred_exists, legacy_exists),
{
    if preferred_exists {
        return preferred;
    }
    match legacy {
        Some(l) => if legacy_exists {
            l
        } else {
            preferred
        },
        None => preferred,
    }
}

/// The legacy directory's copy of `rel`, when there is a legacy directory.
pub open spec fn legacy_path(legacy_dir: Option<&str>, rel: Seq<char>) -> Option<Seq<char>> {
    match legacy_dir {
        Some(l) => Some(spec_path_join(l@, rel)),
        None => None,
    }
}

/// Registry cache to read: the one under the data directory when it exists, else the one in a
/// legacy directory (`legacy_dir`, given on macOS) when that exists, else the preferred path.
/// Which files exist is read from the filesystem; what is returned for each answer is
/// [`choose_read_path`].
pub fn resolve_registry_cache_path_for_read(data_dir: &str, legacy_dir: Option<&str>) -> (r: String)
    ensures
        exists|preferred_exists: bool, legacy_exists: bool|
            r@ == #[trigger] read_path_choice(
                spec_path_join(data_dir@, "registry.json"@),
                legacy_path(legacy_dir, "registry.json"@),
                preferred_exists,
                legacy_exists,
            ) && exists_answer(spec_path_join(data_dir@, "registry.json"@), preferred_exists) && (
            !preferred_exists && legacy_dir is Some ==> exists_answer(
                spec_path_join(legacy_dir->0@, "registry.json"@),
                legacy_exists,
            )),
{
    let preferred = default_registry_cache_path(data_dir);
    let pe = probe_exists(preferred.as_str());
    let (legacy, le) = match legacy_dir {
        Some(l) if !pe => {
            let p = path_join(l, "registry.json");
            let e = probe_exists(p.as_str());
            (Some(p), e)
        },
        Some(l) => (Some(path_join(l, "registry.json")), false),
        None => (None, false),
    };
    let r = choose_read_path(preferred, legacy, pe, le);
    assert(r@ == read_path_choice(
        spec_path_join(data_dir@, "registry.json"@),
        legacy_path(legacy_dir, "registry.json"@),
        pe,
        le,
    ));
    r
}

/// Where an installed model file is: the one under the models directory when it exists, else
/// the one under the legacy directory's `models` folder when there is one and it exists, else
/// none.
pub open spec fn installed_choice(
    preferred: Seq<char>,
    legacy: Option<Seq<char>>,
    preferred_exists: bool,
    legacy_exists: bool,
) -> Option<Seq<char>> {
    if preferred_exists {
        Some(preferred)
    } else if legacy is Some && legacy_exists {
        legacy
    } else {
        None
    }
}

/// The legacy directory's copy of a model file, when there is a legacy directory.
pub open spec fn legacy_model_path(legacy_dir: Option<&str>, filename: Seq<char>) -> Option<Seq<char>> {
    match legacy_dir {
        Some(l) => Some(spec_path_join(spec_path_join(l@, "models"@), filename)),
        None => None,
    }
}

/// Pick the installed model file from what exists (see [`installed_choice`]).
pub fn choose_installed_model(preferred: String, legacy: Option<String>, preferred_exists: bool, legacy_exists: bool) -> (r: Option<String>)
    ensures
        crate::schema::opt_str(r) == installed_choice(
            preferred@,
            crate::schema::opt_str(legacy),
            preferred_exists,
            legacy_exists,
        ),
{
    if preferred_exists {
        return Some(preferred);
    }
    match legacy {
        Some(l) => if legacy_exists {
            Some(l)
        } else {
            None
        },
        None => None,
    }
}

/// Path of a downloaded model file, if it exists under the models directory or the legacy
/// directory's `models` folder. Which files exist is read from the filesystem; what is returned
/// for each answer is [`choose_installed_model`].
pub fn installed_model_path(data_dir: &str, legacy_dir: Option<&str>, filename: &str) -> (r: Option<String>)
    ensures
        exists|preferred_exists: bool, legacy_exists: bool|
            crate::schema::opt_str(r) == #[trigger] installed_choice(
                spec_path_join(spec_path_join(data_dir@, "models"@), filename@),
                legacy_model_path(legacy_dir, filename@),
                preferred_exists,
                legacy_exists,
            ) && exists_answer(
                spec_path_join(spec_path_join(data_dir@, "models"@), filename@),
                preferred_exists,
            ) && (!preferred_exists && legacy_dir is Some ==> exists_answer(
                spec_path_join(spec_path_join(legacy_dir->0@, "models"@), filename@),
                legacy_exists,
            )),
{
    let dir = default_models_dir(data_dir);
    let preferred = path_join(dir.as_str(), filename);
    let pe = probe_exists(preferred.as_str());
    let (legacy, le) = match legacy_dir {
        Some(l) => {
            let ldir = path_join(l, "models");
            let p = path_join(ldir.as_str(), filename);
            let e = if pe {
                false
            } else {
                probe_exists(p.as_str())
            };
            (Some(p), e)
        },
        None => (None, false),
    };
    let r = choose_installed_model(preferred, legacy, pe, le);
    r
}

/// An XDG base directory: the environment variable's value when set and non-empty, else the
/// home directory joined with `fallback` (`.config`, `.local/share`), else none.
pub open spec fn xdg_dir_spec(var: Option<Seq<char>>, home: Option<Seq<char>>, fallback: Seq<char>) -> Option<Seq<char>> {
    match var {
        Some(v) if v.len() > 0 => Some(v),
        _ => match home {
            Some(h) => Some(spec_path_join(h, fallback)),
            None => None,
        },
    }
}

/// Resolve an XDG base directory from the variable's value and the home directory.
pub fn xdg_dir(var: Option<&str>, home: Option<&str>, fallback: &str) -> (r: Option<String>)
    ensures
        crate::schema::opt_str(r) == xdg_dir_spec(
            match var {
                Some(v) => Some(v@),
                None => None,
            },
            match home {
                Some(h) => Some(h@),
                None => None,
            },
            fallback@,
        ),
{
    if let Some(v) = var {
        if v.unicode_len() > 0 {
            return Some(to_owned_string(v));
        }
    }
    match home {
        Some(h) => Some(path_join(h, fallback)),
        None => None,
    }
}

/// The preferred config file: `clai/config.toml` under the config base directory (`.` when
/// there is none).
pub fn default_config_path(config_home: Option<&str>) -> (r: String)
    ensures
        r@ == spec_path_join(
            spec_path_join(
                match config_home {
                    Some(h) => h@,
                    None => "."@,
                },
                "clai"@,
            ),
            "config.toml"@,
        ),
{
    let base = match config_home {
        Some(h) => h,
        None => ".",
    };
    let dir = path_join(base, "clai");
    path_join(dir.as_str(), "config.toml")
}

/// The application data root: `clai` under the data base directory (`.` when there is none).
pub fn default_data_dir(data_home: Option<&str>) -> (r: String)
    ensures
        r@ == spec_path_join(
            match data_home {
                Some(h) => h@,
                None => "."@,
            },
            "clai"@,
        ),
{
    let base = match data_home {
        Some(h) => h,
        None => ".",
    };
    path_join(base, "clai")
}

/// The config file to read: the one given, else [`read_path_choice`] of the preferred and the
/// legacy file.
pub open spec fn config_read_choice(
    path: Option<Seq<char>>,
    preferred: Seq<char>,
    legacy: Option<Seq<char>>,
    preferred_exists: bool,
    legacy_exists: bool,
) -> Seq<char> {
    match path {
        Some(p) => p,
        None => read_path_choice(preferred, legacy, preferred_exists, legacy_exists),
    }
}

/// Pick the config file to read from what exists (see [`config_read_choice`]).
pub fn choose_config_path(
    path: Option<String>,
    preferred: String,
    legacy: Option<String>,
    preferred_exists: bool,
    legacy_exists: bool,
) -> (r: String)
    ensures
        r@ == config_read_choice(
            crate::schema::opt_str(path),
            preferred@,
            crate::schema::opt_str(legacy),
            preferred_exists,
            legacy_exists,
        ),
{
    match path {
        Some(p) => p,
        None => choose_read_path(preferred, legacy, preferred_exists, legacy_exists),
    }
}

/// The config file to read: the one given; else the preferred path when it exists; else the
/// legacy file (given on macOS) when that exists; else the preferred path. Which files exist is
/// read from the filesystem; what is returned for each answer is [`choose_config_path`].
pub fn resolve_config_path_for_read(path: Option<String>, preferred: String, legacy: Option<String>) -> (r: String)
    ensures
        path is Some ==> r == path->0,
        exists|preferred_exists: bool, legacy_exists: bool|
            r@ == #[trigger] config_read_choice(
                crate::schema::opt_str(path),
                preferred@,
                crate::schema::opt_str(legacy),
                preferred_exists,
                legacy_exists,
            ),
        path is None ==> exists|preferred_exists: bool, legacy_exists: bool|
            r@ == #[trigger] config_read_choice(
                None,
                preferred@,
                crate::schema::opt_str(legacy),
                preferred_exists,
                legacy_exists,
            ) && exists_answer(preferred@, preferred_exists) && (!preferred_exists && legacy is Some
                ==> exists_answer(legacy->0@, legacy_exists)),
{
    if let Some(p) = path {
        assert(p@ == config_read_choice(Some(p@), preferred@, crate::schema::opt_str(legacy), false, false));
        return p;
    }
    let pe = probe_exists(preferred.as_str());
    let le = match &legacy {
        Some(l) if !pe => probe_exists(l.as_str()),
        _ => false,
    };
    choose_config_path(None, preferred, legacy, pe, le)
}

/// Check a loaded config's `config_version`: newer than this build is an error, older needs
/// migration.
pub fn check_config_version(version: u32) -> (r: Result<(), AppError>)
    ensures
        version == CONFIG_VERSION_LATEST <==> r is Ok,
        version > CONFIG_VERSION_LATEST ==> r is Err && msg_error(
            r->Err_0,
            "config version "@ + decimal(version as nat) + " is newer than this clai supports ("@
                + decimal(CONFIG_VERSION_LATEST as nat) + ")"@,
        ),
        version < CONFIG_VERSION_LATEST ==> r == Err::<(), AppError>(
            AppError::ConfigNeedsMigration { current: version, latest: CONFIG_VERSION_LATEST },
        ),
{
    if version > CONFIG_VERSION_LATEST {
        let mut m = to_owned_string("config version ");
        push_decimal(&mut m, version as u64);
        m.append(" is newer than this clai supports (");
        push_decimal(&mut m, CONFIG_VERSION_LATEST as u64);
        m.append(")");
        return Err(AppError::Msg(m));
    }
    if version < CONFIG_VERSION_LATEST {
        return Err(AppError::ConfigNeedsMigration { current: version, latest: CONFIG_VERSION_LATEST });
    }
    Ok(())
}

/// Message that replaces a "needs migration" error when a command loads its config.
pub const NEEDS_MIGRATION_MSG: &'static str = "config requires migration — run: clai migrate apply";

/// A config load error as commands report it: a "needs migration" error becomes a hint to run
/// `clai migrate apply`; others are unchanged.
pub fn with_migration_hint(e: AppError) -> (r: AppError)
    ensures
        e is ConfigNeedsMigration ==> msg_error(r, NEEDS_MIGRATION_MSG@),
        !(e is ConfigNeedsMigration) ==> r == e,
{
    match e {
        AppError::ConfigNeedsMigration { .. } => AppError::Msg(to_owned_string(NEEDS_MIGRATION_MSG)),
        other => other,
    }
}

} // verus!

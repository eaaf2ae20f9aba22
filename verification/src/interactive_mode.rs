//! Interactive session execution mode (dry-run / confirm / auto) and its resolution.

use vstd::prelude::*;

use crate::text::{ascii_lower_seq, eq_ignore_ascii_case_spec, str_eq, to_ascii_lowercase, trim, trim_spec};

verus! {

/// How the default interactive session handles execution after policy allows a proposal.
#[derive(Debug, Clone, Copy, PartialEq, Eq, Structural)]
pub enum InteractiveExecutionMode {
    /// Show the proposal, then ask whether to execute (default no).
    DryRun,
    /// Show the proposal, then prompt before run.
    Confirm,
    /// Run without the interactive "run it?" step; policy confirmation still applies.
    Auto,
}

impl Default for InteractiveExecutionMode {
    fn default() -> (r: Self)
        ensures
            r == InteractiveExecutionMode::Confirm,
    {
        InteractiveExecutionMode::Confirm
    }
}

/// The kebab-case name of a mode.
pub open spec fn mode_name(m: InteractiveExecutionMode) -> Seq<char> {
    match m {
        InteractiveExecutionMode::DryRun => "dry-run"@,
        InteractiveExecutionMode::Confirm => "confirm"@,
        InteractiveExecutionMode::Auto => "auto"@,
    }
}

/// The mode a (trimmed, ASCII-lowercased) word names, if any.
pub open spec fn parse_mode_spec(s: Seq<char>) -> Option<InteractiveExecutionMode> {
    let w = ascii_lower_seq(trim_spec(s));
    if w == "dry-run"@ || w == "dry_run"@ || w == "dryrun"@ {
        Some(InteractiveExecutionMode::DryRun)
    } else if w == "confirm"@ {
        Some(InteractiveExecutionMode::Confirm)
    } else if w == "auto"@ {
        Some(InteractiveExecutionMode::Auto)
    } else {
        None
    }
}

impl InteractiveExecutionMode {
    /// The kebab-case name used in TOML, env and CLI.
    pub fn as_str(self) -> (r: &'static str)
        ensures
            r@ == mode_name(self),
    {
        match self {
            InteractiveExecutionMode::DryRun => "dry-run",
            InteractiveExecutionMode::Confirm => "confirm",
            InteractiveExecutionMode::Auto => "auto",
        }
    }

    /// Parse the values used in TOML and env (`dry-run`, `confirm`, `auto`, and the aliases
    /// `dry_run` / `dryrun`), ignoring surrounding white space and ASCII case.
    pub fn parse_loose(s: &str) -> (r: Option<Self>)
        ensures
            r == parse_mode_spec(s@),
    {
        let w = to_ascii_lowercase(trim(s));
        let w = w.as_str();
        if str_eq(w, "dry-run") || str_eq(w, "dry_run") || str_eq(w, "dryrun") {
            Some(InteractiveExecutionMode::DryRun)
        } else if str_eq(w, "confirm") {
            Some(InteractiveExecutionMode::Confirm)
        } else if str_eq(w, "auto") {
            Some(InteractiveExecutionMode::Auto)
        } else {
            None
        }
    }
}

/// The interactive "run it?" step applies only in confirm mode when the user did not pass `--yes`.
pub fn needs_interactive_run_prompt(mode: InteractiveExecutionMode, policy_auto_yes: bool) -> (r:
    bool)
    ensures
        r == (mode == InteractiveExecutionMode::Confirm && !policy_auto_yes),
{
    mode == InteractiveExecutionMode::Confirm && !policy_auto_yes
}

/// Dry-run asks whether to execute, unless `--yes` was passed.
pub fn needs_dry_run_execute_prompt(mode: InteractiveExecutionMode, policy_auto_yes: bool) -> (r:
    bool)
    ensures
        r == (mode == InteractiveExecutionMode::DryRun && !policy_auto_yes),
{
    mode == InteractiveExecutionMode::DryRun && !policy_auto_yes
}

/// The effective mode by precedence: CLI `--yes` > CLI `--interactive-mode` > config >
/// legacy `dry_run_default` (true → dry-run, false → confirm).
pub open spec fn effective_mode_spec(
    config_field: Option<InteractiveExecutionMode>,
    cli_flag: Option<InteractiveExecutionMode>,
    cli_yes: bool,
    dry_run_default: bool,
) -> InteractiveExecutionMode {
    if cli_yes {
        InteractiveExecutionMode::Auto
    } else if cli_flag is Some {
        cli_flag->0
    } else if config_field is Some {
        config_field->0
    } else if dry_run_default {
        InteractiveExecutionMode::DryRun
    } else {
        InteractiveExecutionMode::Confirm
    }
}

/// Resolve the effective interactive execution mode.
pub fn resolve_effective_interactive_execution_mode(
    config_field: Option<InteractiveExecutionMode>,
    cli_flag: Option<InteractiveExecutionMode>,
    cli_yes: bool,
    dry_run_default: bool,
) -> (r: InteractiveExecutionMode)
    ensures
        r == effective_mode_spec(config_field, cli_flag, cli_yes, dry_run_default),
{
    if cli_yes {
        return InteractiveExecutionMode::Auto;
    }
    if let Some(m) = cli_flag {
        return m;
    }
    if let Some(m) = config_field {
        return m;
    }
    if dry_run_default {
        InteractiveExecutionMode::DryRun
    } else {
        InteractiveExecutionMode::Confirm
    }
}

/// `--yes` always yields auto mode, and auto mode never shows either interactive prompt.
pub proof fn lemma_yes_never_prompts(
    config_field: Option<InteractiveExecutionMode>,
    cli_flag: Option<InteractiveExecutionMode>,
    dry_run_default: bool,
)
    ensures
        effective_mode_spec(config_field, cli_flag, true, dry_run_default)
            == InteractiveExecutionMode::Auto,
        effective_mode_spec(config_field, cli_flag, true, dry_run_default)
            != InteractiveExecutionMode::Confirm,
        effective_mode_spec(config_field, cli_flag, true, dry_run_default)
            != InteractiveExecutionMode::DryRun,
{
}

/// At most one of the two interactive prompts applies to a mode.
pub proof fn lemma_prompts_exclusive(mode: InteractiveExecutionMode, yes: bool)
    ensures
        !((mode == InteractiveExecutionMode::Confirm && !yes) && (mode
            == InteractiveExecutionMode::DryRun && !yes)),
{
}

/// The name of every mode parses back to that mode.
pub proof fn lemma_parse_name_roundtrip(m: InteractiveExecutionMode)
    ensures
        parse_mode_spec(mode_name(m)) == Some(m),
{
    reveal_strlit("dry-run");
    reveal_strlit("dry_run");
    reveal_strlit("dryrun");
    reveal_strlit("confirm");
    reveal_strlit("auto");
    let s = mode_name(m);
    assert(crate::text::trim_start_spec(s) == s);
    assert(crate::text::trim_end_spec(s) == s);
    assert(ascii_lower_seq(s) =~= s);
}

/// Parsing ignores surrounding white space and ASCII case: any text whose trimmed form equals
/// a mode's name up to ASCII case parses to that mode; and text parses to nothing exactly when
/// its trimmed, ASCII-lowercased form is none of the accepted names.
pub proof fn lemma_parse_ignores_case_and_space(s: Seq<char>, m: InteractiveExecutionMode)
    ensures
        eq_ignore_ascii_case_spec(trim_spec(s), mode_name(m)) ==> parse_mode_spec(s) == Some(m),
        parse_mode_spec(s) is None <==> ({
            let w = ascii_lower_seq(trim_spec(s));
            w != "dry-run"@ && w != "dry_run"@ && w != "dryrun"@ && w != "confirm"@ && w != "auto"@
        }),
{
    reveal_strlit("dry-run");
    reveal_strlit("dry_run");
    reveal_strlit("dryrun");
    reveal_strlit("confirm");
    reveal_strlit("auto");
    let n = mode_name(m);
    assert(ascii_lower_seq(n) =~= n);
    let w = ascii_lower_seq(trim_spec(s));
    if w == n {
        match m {
            InteractiveExecutionMode::DryRun => {},
            InteractiveExecutionMode::Confirm => {
                assert(w[0] == 'c');
                assert(w != "dry-run"@ && w != "dry_run"@ && w != "dryrun"@);
            },
            InteractiveExecutionMode::Auto => {
                assert(w[0] == 'a');
                assert(w != "dry-run"@ && w != "dry_run"@ && w != "dryrun"@ && w != "confirm"@);
            },
        }
    }
}

} // verus!

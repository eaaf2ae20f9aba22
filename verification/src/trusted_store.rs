//! User-approved executables: `[policy].trusted_programs` and
//! `[interactive].remember_run_programs`, and where a project's list is written.

use vstd::prelude::*;

use crate::error::AppError;
use crate::path::{file_name, file_name_spec, is_file_answer, path_join, probe_file, spec_path_join};
use crate::toml_doc::{append_name_to_config_text, append_text_outcome};
use crate::schema::strs;
use crate::text::{eq_ignore_ascii_case, eq_ignore_ascii_case_spec, to_owned_string};

verus! {

/// The executable's base name: the final path component when there is one, else the text as
/// given.
pub open spec fn basename_spec(program: Seq<char>) -> Seq<char> {
    match file_name_spec(program) {
        Some(b) => b,
        None => program,
    }
}

/// Base name of an executable path (`/usr/bin/chmod` → `chmod`).
pub fn program_basename(program: &str) -> (r: String)
    ensures
        r@ == basename_spec(program@),
{
    match file_name(program) {
        Some(b) => b,
        None => to_owned_string(program),
    }
}

/// `basename` is in the list, compared without ASCII case.
pub open spec fn listed(list: Seq<Seq<char>>, basename: Seq<char>) -> bool {
    exists|i: int| 0 <= i < list.len() && eq_ignore_ascii_case_spec(#[trigger] list[i], basename)
}

/// Whether `basename` appears in a trusted list (ASCII case ignored).
pub fn trusted_list_contains(trusted: &Vec<String>, basename: &str) -> (r: bool)
    ensures
        r == listed(strs(trusted@), basename@),
{
    let mut i: usize = 0;
    while i < trusted.len()
        invariant
            i <= trusted@.len(),
            forall|j: int| 0 <= j < i ==> !eq_ignore_ascii_case_spec(#[trigger] strs(trusted@)[j], basename@),
        decreases trusted@.len() - i,
    {
        if eq_ignore_ascii_case(trusted[i].as_str(), basename) {
            assert(strs(trusted@)[i as int] == trusted@[i as int]@);
            return true;
        }
        i = i + 1;
    }
    false
}

/// Add `basename` to the in-memory list unless it is already listed.
pub fn remember_in_list(list: &mut Vec<String>, basename: String)
    ensures
        listed(strs(old(list)@), basename@) ==> final(list)@ == old(list)@,
        !listed(strs(old(list)@), basename@) ==> final(list)@ == old(list)@.push(basename),
        listed(strs(final(list)@), basename@),
{
    if !trusted_list_contains(list, basename.as_str()) {
        let ghost b = basename@;
        list.push(basename);
        proof {
            let l = strs(list@);
            assert(l[l.len() - 1] == b);
            assert(crate::text::ascii_lower_seq(b) =~= crate::text::ascii_lower_seq(b));
        }
    }
}

/// The project config file to write: an existing `clai.toml` in `cwd`, else an existing
/// `.clai/config.toml`, else a new `clai.toml`.
pub fn choose_project_config_path(clai_toml: String, dot_config: String, clai_exists: bool, dot_exists: bool) -> (r: String)
    ensures
        r == if !clai_exists && dot_exists {
            dot_config
        } else {
            clai_toml
        },
{
    if clai_exists {
        clai_toml
    } else if dot_exists {
        dot_config
    } else {
        clai_toml
    }
}

/// The project config file to write in `cwd` given which files exist: `clai.toml` when it
/// exists, else `.clai/config.toml` when that exists, else `clai.toml`.
pub open spec fn project_path_choice(cwd: Seq<char>, clai_exists: bool, dot_exists: bool) -> Seq<char> {
    if !clai_exists && dot_exists {
        spec_path_join(cwd, ".clai/config.toml"@)
    } else {
        spec_path_join(cwd, "clai.toml"@)
    }
}

/// Prefer an existing project config in `cwd`; otherwise `./clai.toml`. Which files exist is
/// read from the filesystem.
pub fn resolve_project_trusted_write_path(cwd: &str) -> (r: String)
    ensures
        exists|clai_exists: bool, dot_exists: bool|
            r@ == #[trigger] project_path_choice(cwd@, clai_exists, dot_exists) && is_file_answer(
                spec_path_join(cwd@, "clai.toml"@),
                clai_exists,
            ) && is_file_answer(spec_path_join(cwd@, ".clai/config.toml"@), dot_exists),
{
    let clai = path_join(cwd, "clai.toml");
    let dot = path_join(cwd, ".clai/config.toml");
    let ce = probe_file(clai.as_str());
    let de = probe_file(dot.as_str());
    let r = choose_project_config_path(clai, dot, ce, de);
    assert(r@ == project_path_choice(cwd@, ce, de));
    r
}

/// The current text of a config file as a plain value (`None`: no file).
pub open spec fn existing_view(existing: Option<&str>) -> Option<Seq<char>> {
    match existing {
        Some(t) => Some(t@),
        None => None,
    }
}

/// Append `program`'s base name to `[section].key` in a config file whose text is `existing`
/// (`None` when it does not exist, which starts a minimal file). Returns the text to write, or
/// `None` when the name was already listed.
fn append_basename_to_nested_array(
    existing: Option<&str>,
    path: &str,
    section: &str,
    key: &str,
    program: &str,
) -> (r: Result<Option<String>, AppError>)
    ensures
        append_text_outcome(
            existing_view(existing),
            path@,
            section@,
            key@,
            basename_spec(program@),
            r,
        ),
{
    let name = program_basename(program);
    append_name_to_config_text(existing, path, section, key, name.as_str())
}

/// Append `program`'s base name to `[policy].trusted_programs` in a config file's text
/// (creates a minimal document when `existing` is `None`). `Ok(Some(text))` is the updated
/// file; `Ok(None)` means it was already listed.
pub fn append_trusted_program(existing: Option<&str>, path: &str, program: &str) -> (r: Result<
    Option<String>,
    AppError,
>)
    ensures
        append_text_outcome(
            existing_view(existing),
            path@,
            "policy"@,
            "trusted_programs"@,
            basename_spec(program@),
            r,
        ),
{
    append_basename_to_nested_array(existing, path, "policy", "trusted_programs", program)
}

/// Append `program`'s base name to `[interactive].remember_run_programs` in a config file's
/// text; as [`append_trusted_program`].
pub fn append_remember_run_program(existing: Option<&str>, path: &str, program: &str) -> (r:
    Result<Option<String>, AppError>)
    ensures
        append_text_outcome(
            existing_view(existing),
            path@,
            "interactive"@,
            "remember_run_programs"@,
            basename_spec(program@),
            r,
        ),
{
    append_basename_to_nested_array(existing, path, "interactive", "remember_run_programs", program)
}

/// Where a remembered executable is saved.
#[derive(Debug, Clone, Copy, PartialEq, Eq, Structural)]
pub enum TrustScope {
    /// The project config in the current directory.
    Project,
    /// The global user config.
    Global,
}

impl TrustScope {
    /// The choice as shown in the save prompt.
    pub fn label(self) -> (r: &'static str)
        ensures
            r@ == match self {
                TrustScope::Project => "This project (clai.toml or .clai/config.toml in this directory)"@,
                TrustScope::Global => "Global user config"@,
            },
    {
        match self {
            TrustScope::Project => "This project (clai.toml or .clai/config.toml in this directory)",
            TrustScope::Global => "Global user config",
        }
    }
}

/// Which list a remembered executable goes to.
#[derive(Debug, Clone, Copy, PartialEq, Eq, Structural)]
pub enum RememberList {
    /// `[policy].trusted_programs`: skips the extra policy confirmation.
    TrustedPrograms,
    /// `[interactive].remember_run_programs`: skips the confirm-mode run step.
    RememberRunPrograms,
}

/// The yes/no question offering to remember `base` in a list.
pub open spec fn remember_question_spec(list: RememberList, base: Seq<char>) -> Seq<char> {
    match list {
        RememberList::TrustedPrograms => "Add `"@ + base
            + "` to trusted programs (skip policy confirmation for this executable later)?"@,
        RememberList::RememberRunPrograms => "Remember `"@ + base
            + "` so confirm mode skips the \"Run proposed command?\" step for it next time?"@,
    }
}

/// The question offering to remember `base`.
pub fn remember_question(list: RememberList, base: &str) -> (r: String)
    ensures
        r@ == remember_question_spec(list, base@),
{
    match list {
        RememberList::TrustedPrograms => {
            let mut s = to_owned_string("Add `");
            s.append(base);
            s.append("` to trusted programs (skip policy confirmation for this executable later)?");
            s
        },
        RememberList::RememberRunPrograms => {
            let mut s = to_owned_string("Remember `");
            s.append(base);
            s.append("` so confirm mode skips the \"Run proposed command?\" step for it next time?");
            s
        },
    }
}

/// The title of the project-or-global choice.
pub fn save_prompt_title(list: RememberList) -> (r: &'static str)
    ensures
        r@ == match list {
            RememberList::TrustedPrograms => "Save trusted program to:"@,
            RememberList::RememberRunPrograms => "Save to:"@,
        },
{
    match list {
        RememberList::TrustedPrograms => "Save trusted program to:",
        RememberList::RememberRunPrograms => "Save to:",
    }
}

/// The notice after `base` was written to a config file.
pub fn wrote_notice(list: RememberList, base: &str, path: &str) -> (r: String)
    ensures
        r@ == "Wrote `"@ + base@ + "` to "@ + match list {
            RememberList::TrustedPrograms => "[policy].trusted_programs"@,
            RememberList::RememberRunPrograms => "[interactive].remember_run_programs"@,
        } + " in "@ + path@ + "."@,
{
    let mut s = to_owned_string("Wrote `");
    s.append(base);
    s.append("` to ");
    match list {
        RememberList::TrustedPrograms => s.append("[policy].trusted_programs"),
        RememberList::RememberRunPrograms => s.append("[interactive].remember_run_programs"),
    }
    s.append(" in ");
    s.append(path);
    s.append(".");
    s
}

/// Append `program`'s base name to the chosen list in a config file's text (see
/// [`append_trusted_program`] and [`append_remember_run_program`]).
pub fn append_to_list(list: RememberList, existing: Option<&str>, path: &str, program: &str) -> (r: Result<Option<String>, AppError>)
    ensures
        append_text_outcome(
            existing_view(existing),
            path@,
            match list {
                RememberList::TrustedPrograms => "policy"@,
                RememberList::RememberRunPrograms => "interactive"@,
            },
            match list {
                RememberList::TrustedPrograms => "trusted_programs"@,
                RememberList::RememberRunPrograms => "remember_run_programs"@,
            },
            basename_spec(program@),
            r,
        ),
{
    match list {
        RememberList::TrustedPrograms => append_trusted_program(existing, path, program),
        RememberList::RememberRunPrograms => append_remember_run_program(existing, path, program),
    }
}

} // verus!

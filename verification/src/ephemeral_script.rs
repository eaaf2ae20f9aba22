//! Managed ephemeral script files: whether a proposal's `script_body` may be written, under
//! which file name, and the proposal that runs it.

use vstd::prelude::*;

use crate::config::ToolingConfig;
use crate::error::{msg_error, AppError};
use crate::path::{file_name, file_name_spec};
use crate::schema::{opt_str, strs, CommandProposal};
use crate::text::{contains, seq_contains, spec_to_lowercase, str_eq, to_lowercase, to_owned_string, trim, trim_spec};

verus! {

/// `s` without its leading `.` characters.
pub open spec fn strip_leading_dots(s: Seq<char>) -> Seq<char>
    decreases s.len(),
{
    if s.len() > 0 && s[0] == '.' {
        strip_leading_dots(s.drop_first())
    } else {
        s
    }
}

fn strip_leading_dots_exec(s: &str) -> (r: &str)
    ensures
        r@ == strip_leading_dots(s@),
{
    let n = s.unicode_len();
    let mut i: usize = 0;
    assert(s@.subrange(0, n as int) =~= s@);
    while i < n && s.get_char(i) == '.'
        invariant
            n == s@.len(),
            i <= n,
            forall|k: int| 0 <= k < i ==> s@[k] == '.',
            strip_leading_dots(s@) == strip_leading_dots(s@.subrange(i as int, n as int)),
        decreases n - i,
    {
        assert(s@.subrange(i as int, n as int).drop_first() =~= s@.subrange(i + 1, n as int));
        i = i + 1;
    }
    s.substring_char(i, n)
}

/// The temp-file extension the model's program suggests.
pub open spec fn default_extension_spec(program: Seq<char>) -> Seq<char> {
    let lower = spec_to_lowercase(program);
    let base = spec_to_lowercase(
        match file_name_spec(program) {
            Some(b) => b,
            None => program,
        },
    );
    if seq_contains(base, "python"@) || seq_contains(lower, "python"@) {
        "py"@
    } else if seq_contains(base, "node"@) || base == "node"@ {
        "js"@
    } else if seq_contains(base, "ruby"@) {
        "rb"@
    } else if seq_contains(base, "perl"@) {
        "pl"@
    } else if seq_contains(base, "php"@) {
        "php"@
    } else {
        "txt"@
    }
}

/// The file extension for a script run by `program`.
pub fn default_extension_for_program(program: &str) -> (r: String)
    ensures
        r@ == default_extension_spec(program@),
{
    let lower = to_lowercase(program);
    let base = match file_name(program) {
        Some(b) => to_lowercase(b.as_str()),
        None => to_lowercase(program),
    };
    let b = base.as_str();
    if contains(b, "python") || contains(lower.as_str(), "python") {
        return to_owned_string("py");
    }
    if contains(b, "node") || str_eq(b, "node") {
        return to_owned_string("js");
    }
    if contains(b, "ruby") {
        return to_owned_string("rb");
    }
    if contains(b, "perl") {
        return to_owned_string("pl");
    }
    if contains(b, "php") {
        return to_owned_string("php");
    }
    to_owned_string("txt")
}

/// The script extension: the model's (trimmed, leading dots dropped) when non-empty, else the
/// one the program suggests.
pub open spec fn extension_spec(ext: Option<Seq<char>>, program: Seq<char>) -> Seq<char> {
    match ext {
        Some(e) => if strip_leading_dots(trim_spec(e)).len() > 0 {
            strip_leading_dots(trim_spec(e))
        } else {
            default_extension_spec(program)
        },
        None => default_extension_spec(program),
    }
}

/// The extension of the script file.
pub fn normalized_extension(ext: Option<&str>, program: &str) -> (r: String)
    ensures
        r@ == extension_spec(
            match ext {
                Some(e) => Some(e@),
                None => None,
            },
            program@,
        ),
{
    if let Some(e) = ext {
        let t = strip_leading_dots_exec(trim(e));
        if t.unicode_len() > 0 {
            return to_owned_string(t);
        }
    }
    default_extension_for_program(program)
}

/// An optional string that is absent or blank counts as absent.
pub open spec fn blank_to_none(o: Option<Seq<char>>) -> Option<Seq<char>> {
    match o {
        Some(s) => if trim_spec(s).len() > 0 {
            Some(s)
        } else {
            None
        },
        None => None,
    }
}

fn blank_to_none_exec(o: Option<String>) -> (r: Option<String>)
    ensures
        opt_str(r) == blank_to_none(opt_str(o)),
{
    match o {
        Some(s) => if trim(s.as_str()).unicode_len() > 0 {
            Some(s)
        } else {
            None
        },
        None => None,
    }
}

impl CommandProposal {
    /// Treat a blank `script_body` or `script_extension` as absent.
    pub fn normalize_empty_script_fields(&mut self)
        ensures
            opt_str(final(self).script_body) == blank_to_none(opt_str(old(self).script_body)),
            opt_str(final(self).script_extension) == blank_to_none(
                opt_str(old(self).script_extension),
            ),
            final(self).program == old(self).program,
            final(self).args == old(self).args,
            final(self).cwd == old(self).cwd,
            final(self).reason == old(self).reason,
            final(self).needs_shell == old(self).needs_shell,
            final(self).confidence == old(self).confidence,
    {
        let body = self.script_body.take();
        self.script_body = blank_to_none_exec(body);
        let ext = self.script_extension.take();
        self.script_extension = blank_to_none_exec(ext);
    }
}

/// Message when the model sent a script but scripts are disabled.
pub const SCRIPTS_DISABLED_MSG: &'static str = "model proposed script_body but [tooling].ephemeral_scripts is false — enable it in config or use interpreter -c / inline argv instead";

/// Message when the model combined a script with shell execution.
pub const SCRIPT_WITH_SHELL_MSG: &'static str = "script_body cannot be combined with needs_shell — use argv to the interpreter only";

/// A script to write before running a proposal.
pub struct ScriptPlan {
    /// Text of the script.
    pub body: String,
    /// File name inside the private temp directory.
    pub file_name: String,
}

/// Decide whether a proposal carries a script and how it is written: `Ok(None)` when there is
/// no (non-blank) script; an error when scripts are disabled or the proposal also asks for a
/// shell; otherwise the body and `script.<ext>` file name. Blank script fields are cleared.
pub fn plan_ephemeral_script(proposal: &mut CommandProposal, tooling: &ToolingConfig) -> (r: Result<
    Option<ScriptPlan>,
    AppError,
>)
    ensures
        opt_str(final(proposal).script_body) == blank_to_none(opt_str(old(proposal).script_body)),
        opt_str(final(proposal).script_extension) == blank_to_none(
            opt_str(old(proposal).script_extension),
        ),
        final(proposal).program == old(proposal).program,
        final(proposal).args == old(proposal).args,
        final(proposal).needs_shell == old(proposal).needs_shell,
        match blank_to_none(opt_str(old(proposal).script_body)) {
            None => r matches Ok(None),
            Some(b) => if !tooling.ephemeral_scripts {
                r is Err && msg_error(r->Err_0, SCRIPTS_DISABLED_MSG@)
            } else if old(proposal).needs_shell {
                r is Err && msg_error(r->Err_0, SCRIPT_WITH_SHELL_MSG@)
            } else {
                r matches Ok(Some(plan)) && plan.body@ == b && plan.file_name@ == "script."@
                    + extension_spec(
                    blank_to_none(opt_str(old(proposal).script_extension)),
                    old(proposal).program@,
                )
            },
        },
{
    proposal.normalize_empty_script_fields();
    let body = match &proposal.script_body {
        Some(b) => b.clone(),
        None => return Ok(None),
    };
    if !tooling.ephemeral_scripts {
        return Err(AppError::Msg(to_owned_string(SCRIPTS_DISABLED_MSG)));
    }
    if proposal.needs_shell {
        return Err(AppError::Msg(to_owned_string(SCRIPT_WITH_SHELL_MSG)));
    }
    let ext = match &proposal.script_extension {
        Some(e) => normalized_extension(Some(e.as_str()), proposal.program.as_str()),
        None => normalized_extension(None, proposal.program.as_str()),
    };
    let mut name = to_owned_string("script.");
    name.append(ext.as_str());
    Ok(Some(ScriptPlan { body, file_name: name }))
}

/// The proposal that runs a materialized script: script fields cleared and the script's path
/// appended to the arguments.
pub fn attach_script_path(proposal: CommandProposal, script_path: String) -> (r: CommandProposal)
    ensures
        r.program == proposal.program,
        strs(r.args@) == strs(proposal.args@).push(script_path@),
        r.cwd == proposal.cwd,
        r.reason == proposal.reason,
        r.needs_shell == proposal.needs_shell,
        r.confidence == proposal.confidence,
        r.script_body is None,
        r.script_extension is None,
{
    let mut out = proposal;
    out.script_body = None;
    out.script_extension = None;
    let ghost before = out.args@;
    out.args.push(script_path);
    assert(strs(out.args@) =~= strs(before).push(script_path@));
    out
}

} // verus!

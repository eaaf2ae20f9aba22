//! Decisions of the interactive session: built-in commands, and the context line shown for
//! sandboxed runs.

use vstd::prelude::*;

use crate::config::{CloudConfig, ExecutionConfig, ExecutionMode};
use crate::error::{message_spec, msg_error, AppError};
use crate::stream_strategy::StreamStrategy;
use crate::text::{push_signed_decimal, signed_decimal, str_eq};
use crate::tty::Severity;
use crate::presentation::{command_line_for_display, command_line_spec};
use crate::schema::{strs, CommandProposal};
use crate::text::{eq_ignore_ascii_case, eq_ignore_ascii_case_spec, to_owned_string, trim, trim_spec};

verus! {

/// A line the session handles itself instead of sending it to the model.
#[derive(Debug, Clone, Copy, PartialEq, Eq, Structural)]
pub enum SessionBuiltin {
    Exit,
    Help,
    Reload,
}

/// The built-in a line names (trimmed, ASCII case ignored), if any.
pub open spec fn builtin_spec(line: Seq<char>) -> Option<SessionBuiltin> {
    let t = trim_spec(line);
    if t.len() == 0 {
        None
    } else if eq_ignore_ascii_case_spec(t, "exit"@) || eq_ignore_ascii_case_spec(t, "quit"@) {
        Some(SessionBuiltin::Exit)
    } else if eq_ignore_ascii_case_spec(t, "help"@) || eq_ignore_ascii_case_spec(t, "?"@) {
        Some(SessionBuiltin::Help)
    } else if eq_ignore_ascii_case_spec(t, "reload"@) {
        Some(SessionBuiltin::Reload)
    } else {
        None
    }
}

/// Classify a session input line as a built-in command.
pub fn classify_builtin_line(trimmed: &str) -> (r: Option<SessionBuiltin>)
    ensures
        r == builtin_spec(trimmed@),
{
    let t = trim(trimmed);
    if t.unicode_len() == 0 {
        return None;
    }
    if eq_ignore_ascii_case(t, "exit") || eq_ignore_ascii_case(t, "quit") {
        return Some(SessionBuiltin::Exit);
    }
    if eq_ignore_ascii_case(t, "help") || eq_ignore_ascii_case(t, "?") {
        return Some(SessionBuiltin::Help);
    }
    if eq_ignore_ascii_case(t, "reload") {
        return Some(SessionBuiltin::Reload);
    }
    None
}

/// The working directory a proposal runs in: its own `cwd`, else the current directory.
pub fn effective_proposal_cwd(proposal: &CommandProposal, current_dir: &str) -> (r: String)
    ensures
        r@ == match proposal.cwd {
            Some(c) => c@,
            None => current_dir@,
        },
{
    match &proposal.cwd {
        Some(c) => c.clone(),
        None => to_owned_string(current_dir),
    }
}

/// The one-line run context for sandboxed profiles; none for direct runs.
pub open spec fn context_line_spec(
    p: CommandProposal,
    mode: ExecutionMode,
    docker_image: Option<Seq<char>>,
    cwd: Seq<char>,
) -> Option<Seq<char>> {
    let cmd = command_line_spec(p.program@, strs(p.args@));
    match mode {
        ExecutionMode::Direct => None,
        ExecutionMode::Docker => Some(
            "clai: profile=docker  image="@ + match docker_image {
                Some(i) => i,
                None => "alpine:latest"@,
            } + "  cwd="@ + cwd + "  "@ + cmd,
        ),
        ExecutionMode::Bwrap => Some("clai: profile=bwrap  cwd="@ + cwd + "  "@ + cmd),
    }
}

/// Program, working directory and execution profile in one line for container/sandbox runs;
/// `None` for direct runs. `current_dir` is used when the proposal has no `cwd`.
pub fn non_direct_context_one_line(
    proposal: &CommandProposal,
    execution: &ExecutionConfig,
    current_dir: &str,
) -> (r: Option<String>)
    ensures
        crate::schema::opt_str(r) == context_line_spec(
            *proposal,
            execution.mode,
            crate::schema::opt_str(execution.docker_image),
            match proposal.cwd {
                Some(c) => c@,
                None => current_dir@,
            },
        ),
{
    let cwd = effective_proposal_cwd(proposal, current_dir);
    let cmd = command_line_for_display(proposal);
    match execution.mode {
        ExecutionMode::Direct => None,
        ExecutionMode::Docker => {
            let mut s = to_owned_string("clai: profile=docker  image=");
            match &execution.docker_image {
                Some(i) => s.append(i.as_str()),
                None => s.append("alpine:latest"),
            }
            s.append("  cwd=");
            s.append(cwd.as_str());
            s.append("  ");
            s.append(cmd.as_str());
            Some(s)
        },
        ExecutionMode::Bwrap => {
            let mut s = to_owned_string("clai: profile=bwrap  cwd=");
            s.append(cwd.as_str());
            s.append("  ");
            s.append(cmd.as_str());
            Some(s)
        },
    }
}

/// Name for `format!("{:?}", v)` of a list of strings (Rust's debug quoting and escaping).
pub uninterp spec fn spec_debug_strings(v: Seq<Seq<char>>) -> Seq<char>;

/// Formats a list of strings with `{:?}`; the contract says only that the text is the named
/// debug form of the strings.
#[verifier::external_body]
fn debug_strings(v: &Vec<String>) -> (r: String)
    ensures
        r@ == spec_debug_strings(strs(v@)),
{
    format!("{:?}", v)
}

/// The verbose run context: the one-line context plus the extra sandbox arguments, if any.
pub fn non_direct_context_verbose(
    proposal: &CommandProposal,
    execution: &ExecutionConfig,
    current_dir: &str,
) -> (r: Option<String>)
    ensures
        ({
            let base = context_line_spec(
                *proposal,
                execution.mode,
                crate::schema::opt_str(execution.docker_image),
                match proposal.cwd {
                    Some(c) => c@,
                    None => current_dir@,
                },
            );
            match base {
                None => r is None,
                Some(b) => r is Some && r->0@ == b + if execution.mode == ExecutionMode::Docker
                    && execution.docker_extra_args@.len() > 0 {
                    "\n  docker_extra_args: "@ + spec_debug_strings(strs(execution.docker_extra_args@))
                } else if execution.mode == ExecutionMode::Bwrap
                    && execution.bwrap_extra_args@.len() > 0 {
                    "\n  bwrap_extra_args: "@ + spec_debug_strings(strs(execution.bwrap_extra_args@))
                } else {
                    seq![]
                },
            }
        }),
{
    let line = non_direct_context_one_line(proposal, execution, current_dir);
    let mut s = match line {
        None => return None,
        Some(s) => s,
    };
    if execution.mode == ExecutionMode::Docker && execution.docker_extra_args.len() > 0 {
        s.append("\n  docker_extra_args: ");
        let d = debug_strings(&execution.docker_extra_args);
        s.append(d.as_str());
    } else if execution.mode == ExecutionMode::Bwrap && execution.bwrap_extra_args.len() > 0 {
        s.append("\n  bwrap_extra_args: ");
        let d = debug_strings(&execution.bwrap_extra_args);
        s.append(d.as_str());
    }
    Some(s)
}

/// What one line typed in the interactive session asks for.
#[derive(Debug, Clone, PartialEq, Eq)]
pub enum SessionLine {
    /// Only white space: ignored.
    Blank,
    /// A built-in command.
    Builtin(SessionBuiltin),
    /// A request for the model, trimmed.
    Request(String),
}

/// Classify a session input line: blank, a built-in, or a trimmed request.
pub fn classify_session_line(line: &str) -> (r: SessionLine)
    ensures
        trim_spec(line@).len() == 0 <==> r == SessionLine::Blank,
        trim_spec(line@).len() > 0 && builtin_spec(line@) is Some ==> r == SessionLine::Builtin(
            builtin_spec(line@)->0,
        ),
        trim_spec(line@).len() > 0 && builtin_spec(line@) is None ==> (r matches SessionLine::Request(
            t,
        ) && t@ == trim_spec(line@)),
{
    let t = trim(line);
    if t.unicode_len() == 0 {
        return SessionLine::Blank;
    }
    match classify_builtin_line(t) {
        Some(b) => {
            assert(trim_spec(t@) == trim_spec(line@)) by {
                crate::text::lemma_trim_idempotent(line@);
            }
            SessionLine::Builtin(b)
        },
        None => {
            assert(trim_spec(t@) == trim_spec(line@)) by {
                crate::text::lemma_trim_idempotent(line@);
            }
            SessionLine::Request(to_owned_string(t))
        },
    }
}

/// The user message sent to the model for a request.
pub fn user_request_message(prompt: &str) -> (r: String)
    ensures
        r@ == "User request: "@ + prompt@ + "\nReply with ONLY the JSON object."@,
{
    let mut s = to_owned_string("User request: ");
    s.append(prompt);
    s.append("\nReply with ONLY the JSON object.");
    s
}

/// `CLAI_NO_STREAM` turns streaming progress off when set to `1`, `true` or `yes`.
pub fn no_stream_requested(value: Option<&str>) -> (r: bool)
    ensures
        r == (value matches Some(v) && (v@ == "1"@ || v@ == "true"@ || v@ == "yes"@)),
{
    match value {
        Some(v) => str_eq(v, "1") || str_eq(v, "true") || str_eq(v, "yes"),
        None => false,
    }
}

/// The endpoint and model of the cloud backend, or which setting is missing.
pub fn cloud_target(cloud: &CloudConfig) -> (r: Result<(String, String), AppError>)
    ensures
        cloud.base_url is None ==> r is Err && msg_error(r->Err_0, "cloud.base_url missing"@),
        cloud.base_url is Some && cloud.model is None ==> r is Err && msg_error(
            r->Err_0,
            "cloud.model missing"@,
        ),
        cloud.base_url is Some && cloud.model is Some ==> r == Ok::<(String, String), AppError>(
            (cloud.base_url->0, cloud.model->0),
        ),
{
    let base = match &cloud.base_url {
        Some(b) => b.clone(),
        None => return Err(AppError::Msg(to_owned_string("cloud.base_url missing"))),
    };
    let model = match &cloud.model {
        Some(m) => m.clone(),
        None => return Err(AppError::Msg(to_owned_string("cloud.model missing"))),
    };
    Ok((base, model))
}

/// `cloud` when the cloud backend is requested and enabled, else `local`.
pub fn session_source(use_cloud: bool, cloud_enabled: bool) -> (r: &'static str)
    ensures
        r@ == if use_cloud && cloud_enabled {
            "cloud"@
        } else {
            "local"@
        },
{
    if use_cloud && cloud_enabled {
        "cloud"
    } else {
        "local"
    }
}

/// The model line of the session header: the cloud model, or the local model file, or why it
/// could not be resolved.
pub fn session_model_line(cloud_active: bool, cloud_model: Option<&str>, local: &Result<String, AppError>) -> (r: String)
    ensures
        r@ == if cloud_active {
            "model (cloud): "@ + match cloud_model {
                Some(m) => m@,
                None => "(cloud.model not set)"@,
            }
        } else {
            match local {
                Ok(p) => "model (local): "@ + p@,
                Err(e) => "model (local): (unresolved — "@ + message_spec(*e) + ")"@,
            }
        },
{
    if cloud_active {
        let mut s = to_owned_string("model (cloud): ");
        match cloud_model {
            Some(m) => s.append(m),
            None => s.append("(cloud.model not set)"),
        }
        return s;
    }
    match local {
        Ok(p) => {
            let mut s = to_owned_string("model (local): ");
            s.append(p.as_str());
            s
        },
        Err(e) => {
            let mut s = to_owned_string("model (local): (unresolved — ");
            let m = e.message();
            s.append(m.as_str());
            s.append(")");
            s
        },
    }
}

/// The one-line preview before a run in human mode on a terminal: the sandbox context line,
/// else `Run: ` and the command line. None when verbose, when previews are off, or when
/// standard output is not a terminal.
pub fn run_preview(
    verbose: bool,
    no_preview: bool,
    stdout_tty: bool,
    context_line: Option<String>,
    command_line: &str,
) -> (r: Option<String>)
    ensures
        (verbose || no_preview || !stdout_tty) ==> r is None,
        !(verbose || no_preview || !stdout_tty) ==> r is Some && r->0@ == match context_line {
            Some(c) => c@,
            None => "Run: "@ + command_line@,
        },
{
    if verbose || no_preview || !stdout_tty {
        return None;
    }
    match context_line {
        Some(c) => Some(c),
        None => {
            let mut s = to_owned_string("Run: ");
            s.append(command_line);
            Some(s)
        },
    }
}

/// What is printed after a run.
#[derive(Debug, Clone, Copy, PartialEq, Eq, Structural)]
pub struct AfterRun {
    /// The verbose run report (context, status, captured output).
    pub report: bool,
    /// The sandbox context line before the captured output.
    pub context_line: bool,
    /// The captured standard output and error.
    pub captured: bool,
}

/// Verbose runs print the report; captured human runs print the captured streams, preceded by
/// the sandbox context line when the profile is not direct, previews are on and standard
/// output is not a terminal; inherited runs print nothing more.
pub open spec fn after_run_spec(verbose: bool, stream: StreamStrategy, non_direct: bool, no_preview: bool, stdout_tty: bool) -> AfterRun {
    if verbose {
        AfterRun { report: true, context_line: false, captured: false }
    } else if stream == StreamStrategy::Capture {
        AfterRun { report: false, context_line: non_direct && !no_preview && !stdout_tty, captured: true }
    } else {
        AfterRun { report: false, context_line: false, captured: false }
    }
}

/// Decide what is printed after a run.
pub fn after_run_output(verbose: bool, stream: StreamStrategy, non_direct: bool, no_preview: bool, stdout_tty: bool) -> (r: AfterRun)
    ensures
        r == after_run_spec(verbose, stream, non_direct, no_preview, stdout_tty),
{
    if verbose {
        return AfterRun { report: true, context_line: false, captured: false };
    }
    match stream {
        StreamStrategy::Capture => AfterRun {
            report: false,
            context_line: non_direct && !no_preview && !stdout_tty,
            captured: true,
        },
        StreamStrategy::Inherit => AfterRun { report: false, context_line: false, captured: false },
    }
}

/// The status line after a session run: a warning with the exit mapping when the run timed
/// out or mapped to a non-zero exit, else `command finished.`.
pub fn run_finished_notice(timed_out: bool, exit: i32) -> (r: (&'static str, String, Severity))
    ensures
        (timed_out || exit != 0) ==> r.0@ == "warn"@ && r.2 == Severity::Warn && r.1@
            == "run finished with clai exit mapping "@ + signed_decimal(exit as int)
            + " (clai continues; type another line or exit)"@,
        !(timed_out || exit != 0) ==> r.0@ == "ok"@ && r.2 == Severity::Success && r.1@
            == "command finished."@,
{
    if timed_out || exit != 0 {
        let mut m = to_owned_string("run finished with clai exit mapping ");
        push_signed_decimal(&mut m, exit);
        m.append(" (clai continues; type another line or exit)");
        ("warn", m, Severity::Warn)
    } else {
        ("ok", to_owned_string("command finished."), Severity::Success)
    }
}

} // verus!

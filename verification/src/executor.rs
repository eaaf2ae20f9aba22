//! How a proposal is turned into the process that runs it: refusals, and the argument vector
//! for direct, Docker and bubblewrap runs. Spawning, waiting and capturing happen outside.

use vstd::prelude::*;

use crate::config::{ExecutionConfig, ExecutionMode};
use crate::error::{msg_error, AppError};
use crate::schema::{strs, CommandProposal};
use crate::stream_strategy::StreamStrategy;
use crate::text::to_owned_string;

verus! {

/// Message when a proposal asks for a shell.
pub const SHELL_NOT_ENABLED_MSG: &'static str = "shell execution not enabled; use argv without needs_shell";

/// Message when terminal inheritance is asked for a sandboxed run.
pub const INHERIT_NEEDS_DIRECT_MSG: &'static str = "inherited stdio is only supported in direct mode";

/// Run timeout in seconds.
pub const RUN_TIMEOUT_SECS: u64 = 120;

/// Per-stream capture limit in bytes.
pub const MAX_CAPTURE_BYTES: usize = 262144;

/// Result of running a proposal.
#[derive(Debug, Clone)]
pub struct RunOutcome {
    /// The child's exit code, when it exited with one.
    pub status: Option<i32>,
    pub stdout: String,
    pub stderr: String,
    pub timed_out: bool,
    /// The `clai` process exit code this run maps to.
    pub clai_ask_process_exit: i32,
}

/// The process to start for a proposal.
#[derive(Debug, Clone)]
pub struct ExecPlan {
    pub program: String,
    pub args: Vec<String>,
    /// Working directory of the started process, when one is set.
    pub cwd: Option<String>,
}

/// The argument vector of a run: the proposal's own for direct runs; `docker run --rm` with the
/// working directory bind-mounted and selected, the extra arguments, the image (default
/// `alpine:latest`) and the command; or `bwrap` with the host root read-only, `/dev`, `/proc`,
/// the working directory writable and selected, the extra arguments, `--` and the command.
pub open spec fn exec_argv_spec(
    mode: ExecutionMode,
    image: Option<Seq<char>>,
    docker_extra: Seq<Seq<char>>,
    bwrap_extra: Seq<Seq<char>>,
    cwd: Seq<char>,
    program: Seq<char>,
    args: Seq<Seq<char>>,
) -> (Seq<char>, Seq<Seq<char>>) {
    match mode {
        ExecutionMode::Direct => (program, args),
        ExecutionMode::Docker => (
            "docker"@,
            seq!["run"@, "--rm"@, "-v"@, cwd + ":"@ + cwd, "-w"@, cwd] + docker_extra + seq![
                match image {
                    Some(i) => i,
                    None => "alpine:latest"@,
                },
                program,
            ] + args,
        ),
        ExecutionMode::Bwrap => (
            "bwrap"@,
            seq![
                "--ro-bind"@,
                "/"@,
                "/"@,
                "--dev"@,
                "/dev"@,
                "--proc"@,
                "/proc"@,
                "--bind"@,
                cwd,
                cwd,
                "--chdir"@,
                cwd,
            ] + bwrap_extra + seq!["--"@, program] + args,
        ),
    }
}

fn push_all(out: &mut Vec<String>, items: &Vec<String>)
    ensures
        strs(final(out)@) == strs(old(out)@) + strs(items@),
{
    let ghost start = strs(out@);
    let mut i: usize = 0;
    while i < items.len()
        invariant
            i <= items@.len(),
            strs(out@) == start + strs(items@.take(i as int)),
        decreases items@.len() - i,
    {
        let ghost before = strs(out@);
        out.push(items[i].clone());
        proof {
            assert(strs(items@.take(i as int + 1)) =~= strs(items@.take(i as int)).push(items@[i as int]@));
            assert(strs(out@) =~= before.push(items@[i as int]@));
        }
        i = i + 1;
    }
    assert(items@.take(items@.len() as int) =~= items@);
}

fn strings(items: &[&str]) -> (r: Vec<String>)
    ensures
        r@.len() == items@.len(),
        forall|i: int| 0 <= i < items@.len() ==> #[trigger] r@[i]@ == items@[i]@,
{
    let mut out: Vec<String> = Vec::new();
    let mut i: usize = 0;
    while i < items.len()
        invariant
            i <= items@.len(),
            out@.len() == i,
            forall|j: int| 0 <= j < i ==> #[trigger] out@[j]@ == items@[j]@,
        decreases items@.len() - i,
    {
        out.push(to_owned_string(items[i]));
        i = i + 1;
    }
    out
}

/// The process to start for a proposal, or why it is refused: a shell request, or terminal
/// inheritance for a sandboxed run. `current_dir` stands for the proposal's missing `cwd`.
pub fn plan_execution(
    proposal: &CommandProposal,
    execution: &ExecutionConfig,
    stream: StreamStrategy,
    current_dir: &str,
) -> (r: Result<ExecPlan, AppError>)
    ensures
        proposal.needs_shell ==> r is Err && msg_error(r->Err_0, SHELL_NOT_ENABLED_MSG@),
        !proposal.needs_shell && stream == StreamStrategy::Inherit && execution.mode
            != ExecutionMode::Direct ==> r is Err && msg_error(r->Err_0, INHERIT_NEEDS_DIRECT_MSG@),
        !proposal.needs_shell && !(stream == StreamStrategy::Inherit && execution.mode
            != ExecutionMode::Direct) ==> (r matches Ok(p) && ({
            let cwd = match proposal.cwd {
                Some(c) => c@,
                None => current_dir@,
            };
            let want = exec_argv_spec(
                execution.mode,
                crate::schema::opt_str(execution.docker_image),
                strs(execution.docker_extra_args@),
                strs(execution.bwrap_extra_args@),
                cwd,
                proposal.program@,
                strs(proposal.args@),
            );
            &&& p.program@ == want.0
            &&& strs(p.args@) == want.1
            &&& p.cwd == if execution.mode == ExecutionMode::Direct {
                proposal.cwd
            } else {
                None
            }
        })),
{
    if proposal.needs_shell {
        return Err(AppError::Msg(to_owned_string(SHELL_NOT_ENABLED_MSG)));
    }
    if stream == StreamStrategy::Inherit && execution.mode != ExecutionMode::Direct {
        return Err(AppError::Msg(to_owned_string(INHERIT_NEEDS_DIRECT_MSG)));
    }
    let cwd = match &proposal.cwd {
        Some(c) => c.clone(),
        None => to_owned_string(current_dir),
    };
    match execution.mode {
        ExecutionMode::Direct => {
            let mut args: Vec<String> = Vec::new();
            push_all(&mut args, &proposal.args);
            assert(strs(args@) =~= strs(proposal.args@));
            Ok(ExecPlan { program: proposal.program.clone(), args, cwd: proposal.cwd.clone() })
        },
        ExecutionMode::Docker => {
            let mut mount = cwd.clone();
            mount.append(":");
            mount.append(cwd.as_str());
            let mut args = strings(&["run", "--rm", "-v"]);
            args.push(mount);
            args.push(to_owned_string("-w"));
            args.push(cwd.clone());
            let ghost head = strs(args@);
            push_all(&mut args, &execution.docker_extra_args);
            match &execution.docker_image {
                Some(i) => args.push(i.clone()),
                None => args.push(to_owned_string("alpine:latest")),
            }
            args.push(proposal.program.clone());
            let ghost mid = strs(args@);
            push_all(&mut args, &proposal.args);
            proof {
                let want = exec_argv_spec(
                    execution.mode,
                    crate::schema::opt_str(execution.docker_image),
                    strs(execution.docker_extra_args@),
                    strs(execution.bwrap_extra_args@),
                    cwd@,
                    proposal.program@,
                    strs(proposal.args@),
                );
                assert(head =~= seq!["run"@, "--rm"@, "-v"@, cwd@ + ":"@ + cwd@, "-w"@, cwd@]);
                assert(strs(args@) =~= want.1);
            }
            Ok(ExecPlan { program: to_owned_string("docker"), args, cwd: None })
        },
        ExecutionMode::Bwrap => {
            let mut args = strings(&["--ro-bind", "/", "/", "--dev", "/dev", "--proc", "/proc", "--bind"]);
            args.push(cwd.clone());
            args.push(cwd.clone());
            args.push(to_owned_string("--chdir"));
            args.push(cwd.clone());
            let ghost head = strs(args@);
            push_all(&mut args, &execution.bwrap_extra_args);
            args.push(to_owned_string("--"));
            args.push(proposal.program.clone());
            push_all(&mut args, &proposal.args);
            proof {
                let want = exec_argv_spec(
                    execution.mode,
                    crate::schema::opt_str(execution.docker_image),
                    strs(execution.docker_extra_args@),
                    strs(execution.bwrap_extra_args@),
                    cwd@,
                    proposal.program@,
                    strs(proposal.args@),
                );
                assert(head =~= seq![
                    "--ro-bind"@,
                    "/"@,
                    "/"@,
                    "--dev"@,
                    "/dev"@,
                    "--proc"@,
                    "/proc"@,
                    "--bind"@,
                    cwd@,
                    cwd@,
                    "--chdir"@,
                    cwd@,
                ]);
                assert(strs(args@) =~= want.1);
            }
            Ok(ExecPlan { program: to_owned_string("bwrap"), args, cwd: None })
        },
    }
}

} // verus!

//! Pre-run human presentation of command proposals: what is shown before anything runs.

use vstd::prelude::*;
use vstd::string::*;

use crate::policy::{PolicyDecision, RiskTier};
use crate::schema::{opt_str, strs, CommandProposal};
use crate::text::{is_whitespace, is_ws, push_char, to_owned_string, trim, trim_spec};

verus! {

/// One line of the pre-run proposal block (plain or styled).
#[derive(Debug, Clone, PartialEq, Eq)]
pub enum PreRunLine {
    /// Top banner for an allowed proposal.
    SectionProposal,
    /// Top banner when policy blocks.
    SectionBlocked,
    /// `blocked == true` → "Command line:"; else shell vs executable + args.
    CommandLine { needs_shell: bool, line: String, blocked: bool },
    /// Extra `needs_shell` note (only when blocked and `needs_shell`).
    ShellRequestNote,
    /// `cwd: …`
    WorkingDir(String),
    /// User-visible intent (from `reason`).
    Intent(String),
    /// Confidence if present in model output.
    Confidence(String),
    /// Extra confirmation for sensitive / destructive.
    PolicyConfirm,
    /// Blocked reason from policy.
    Blocked { reason: String },
    /// Footer when blocked.
    WontRun,
    /// Ephemeral script materialized under the managed temp contract.
    ManagedTempScript(String),
}

/// A pre-run line as a plain value.
pub enum LineView {
    SectionProposal,
    SectionBlocked,
    CommandLine { needs_shell: bool, line: Seq<char>, blocked: bool },
    ShellRequestNote,
    WorkingDir(Seq<char>),
    Intent(Seq<char>),
    Confidence(Seq<char>),
    PolicyConfirm,
    Blocked { reason: Seq<char> },
    WontRun,
    ManagedTempScript(Seq<char>),
}

pub open spec fn line_view(l: PreRunLine) -> LineView {
    match l {
        PreRunLine::SectionProposal => LineView::SectionProposal,
        PreRunLine::SectionBlocked => LineView::SectionBlocked,
        PreRunLine::CommandLine { needs_shell, line, blocked } => LineView::CommandLine {
            needs_shell,
            line: line@,
            blocked,
        },
        PreRunLine::ShellRequestNote => LineView::ShellRequestNote,
        PreRunLine::WorkingDir(s) => LineView::WorkingDir(s@),
        PreRunLine::Intent(s) => LineView::Intent(s@),
        PreRunLine::Confidence(s) => LineView::Confidence(s@),
        PreRunLine::PolicyConfirm => LineView::PolicyConfirm,
        PreRunLine::Blocked { reason } => LineView::Blocked { reason: reason@ },
        PreRunLine::WontRun => LineView::WontRun,
        PreRunLine::ManagedTempScript(s) => LineView::ManagedTempScript(s@),
    }
}

pub open spec fn lines_view(v: Seq<PreRunLine>) -> Seq<LineView> {
    v.map_values(|l: PreRunLine| line_view(l))
}

/// A token needs quoting when it holds white space, a backslash or a quote.
pub open spec fn needs_quoting(t: Seq<char>) -> bool {
    exists|i: int|
        0 <= i < t.len() && (is_ws(#[trigger] t[i]) || t[i] == '\\' || t[i] == '\'' || t[i]
            == '"')
}

/// `t` with every `'` replaced by `'"'"'`.
pub open spec fn replace_single_quotes(t: Seq<char>) -> Seq<char>
    decreases t.len(),
{
    if t.len() == 0 {
        seq![]
    } else {
        replace_single_quotes(t.drop_last()) + if t.last() == '\'' {
            seq!['\'', '"', '\'', '"', '\'']
        } else {
            seq![t.last()]
        }
    }
}

/// Display quoting of one argv token: `''` for the empty token, single-quoted when it needs
/// quoting, unchanged otherwise.
pub open spec fn shell_escape_spec(t: Seq<char>) -> Seq<char> {
    if t.len() == 0 {
        seq!['\'', '\'']
    } else if needs_quoting(t) {
        seq!['\''] + replace_single_quotes(t) + seq!['\'']
    } else {
        t
    }
}

/// Display-only quoting for a single argv token.
pub fn shell_escape_for_display(t: &str) -> (r: String)
    ensures
        r@ == shell_escape_spec(t@),
{
    let n = t.unicode_len();
    if n == 0 {
        let mut e = String::new();
        push_char(&mut e, '\'');
        push_char(&mut e, '\'');
        assert(e@ =~= seq!['\'', '\'']);
        return e;
    }
    let mut i: usize = 0;
    let mut quote = false;
    while i < n
        invariant
            n == t@.len(),
            i <= n,
            quote == exists|k: int|
                0 <= k < i && (is_ws(#[trigger] t@[k]) || t@[k] == '\\' || t@[k] == '\''
                    || t@[k] == '"'),
        decreases n - i,
    {
        let c = t.get_char(i);
        if is_whitespace(c) || c == '\\' || c == '\'' || c == '"' {
            quote = true;
        }
        i = i + 1;
    }
    if !quote {
        return to_owned_string(t);
    }
    let mut out = String::new();
    push_char(&mut out, '\'');
    let mut k: usize = 0;
    while k < n
        invariant
            n == t@.len(),
            k <= n,
            out@ == seq!['\''] + replace_single_quotes(t@.subrange(0, k as int)),
        decreases n - k,
    {
        let c = t.get_char(k);
        let ghost prev = out@;
        if c == '\'' {
            push_char(&mut out, '\'');
            push_char(&mut out, '"');
            push_char(&mut out, '\'');
            push_char(&mut out, '"');
            push_char(&mut out, '\'');
        } else {
            push_char(&mut out, c);
        }
        proof {
            let s1 = t@.subrange(0, k + 1);
            assert(s1.drop_last() =~= t@.subrange(0, k as int));
            assert(s1.last() == c);
        }
        k = k + 1;
        assert(out@ =~= seq!['\''] + replace_single_quotes(t@.subrange(0, k as int)));
    }
    push_char(&mut out, '\'');
    assert(t@.subrange(0, n as int) =~= t@);
    out
}

/// Each argument as ` <escaped>`, concatenated.
pub open spec fn display_args(args: Seq<Seq<char>>) -> Seq<char>
    decreases args.len(),
{
    if args.len() == 0 {
        seq![]
    } else {
        display_args(args.drop_last()) + seq![' '] + shell_escape_spec(args.last())
    }
}

/// The argv of a proposal as one display line: escaped program, then each escaped argument
/// after a space.
pub open spec fn command_line_spec(program: Seq<char>, args: Seq<Seq<char>>) -> Seq<char> {
    shell_escape_spec(program) + display_args(args)
}

/// One-line display of a proposal's argv (program and arguments only).
pub fn command_line_for_display(p: &CommandProposal) -> (r: String)
    ensures
        r@ == command_line_spec(p.program@, strs(p.args@)),
{
    let mut s = shell_escape_for_display(p.program.as_str());
    let mut i: usize = 0;
    while i < p.args.len()
        invariant
            i <= p.args.len(),
            s@ == shell_escape_spec(p.program@) + display_args(
                strs(p.args@.subrange(0, i as int)),
            ),
        decreases p.args.len() - i,
    {
        push_char(&mut s, ' ');
        let e = shell_escape_for_display(p.args[i].as_str());
        s.append(e.as_str());
        proof {
            let next = strs(p.args@.subrange(0, i + 1));
            assert(next.drop_last() =~= strs(p.args@.subrange(0, i as int)));
            assert(next.last() == p.args@[i as int]@);
        }
        i = i + 1;
        assert(s@ =~= shell_escape_spec(p.program@) + display_args(
            strs(p.args@.subrange(0, i as int)),
        ));
    }
    assert(p.args@.subrange(0, i as int) =~= p.args@);
    s
}

/// Text shown as intent when the model gave no usable reason.
pub open spec fn NO_RATIONALE() -> Seq<char> {
    "(no rationale provided in model output)"@
}

/// Text shown when a blocked decision carries no reason.
pub open spec fn NO_BLOCK_REASON() -> Seq<char> {
    "blocked by policy (no reason given)."@
}

/// An optional managed script path, kept only when non-empty.
pub open spec fn managed_lines(managed: Option<Seq<char>>) -> Seq<LineView> {
    match managed {
        Some(m) => if m.len() > 0 {
            seq![LineView::ManagedTempScript(m)]
        } else {
            seq![]
        },
        None => seq![],
    }
}

/// The lines shown before a run, for a proposal, the policy decision on it, and the path of a
/// managed temp script if one was written.
pub open spec fn pre_run_spec(
    p: CommandProposal,
    blocked: bool,
    tier: RiskTier,
    requires_confirmation: bool,
    reason: Option<Seq<char>>,
    managed: Option<Seq<char>>,
) -> Seq<LineView> {
    let line = command_line_spec(p.program@, strs(p.args@));
    if blocked {
        seq![
            LineView::SectionBlocked,
            LineView::CommandLine { needs_shell: p.needs_shell, line, blocked: true },
        ] + managed_lines(managed) + (if p.needs_shell {
            seq![LineView::ShellRequestNote]
        } else {
            seq![]
        }) + seq![
            LineView::Blocked {
                reason: match reason {
                    Some(r) => r,
                    None => NO_BLOCK_REASON(),
                },
            },
            LineView::WontRun,
        ]
    } else {
        seq![
            LineView::SectionProposal,
            LineView::CommandLine { needs_shell: p.needs_shell, line, blocked: false },
        ] + managed_lines(managed) + (match p.cwd {
            Some(c) => seq![LineView::WorkingDir(c@)],
            None => seq![],
        }) + seq![
            LineView::Intent(
                match p.reason {
                    Some(r) => if trim_spec(r@).len() > 0 {
                        r@
                    } else {
                        NO_RATIONALE()
                    },
                    None => NO_RATIONALE(),
                },
            ),
        ] + (match p.confidence {
            Some(c) => if trim_spec(c@).len() > 0 {
                seq![LineView::Confidence(c@)]
            } else {
                seq![]
            },
            None => seq![],
        }) + (if (tier == RiskTier::Sensitive || tier == RiskTier::Destructive)
            && requires_confirmation {
            seq![LineView::PolicyConfirm]
        } else {
            seq![]
        })
    }
}

fn opt_string_clone(o: &Option<String>) -> (r: Option<String>)
    ensures
        opt_str(r) == opt_str(*o),
{
    match o {
        Some(s) => Some(s.clone()),
        None => None,
    }
}

/// Structured pre-run lines (for plain text or TTY styling); nothing is executed.
pub fn pre_run_lines(
    proposal: &CommandProposal,
    decision: &PolicyDecision,
    managed_script_path: Option<&str>,
) -> (r: Vec<PreRunLine>)
    ensures
        lines_view(r@) == pre_run_spec(
            *proposal,
            decision.blocked,
            decision.tier,
            decision.requires_confirmation,
            opt_str(decision.reason),
            match managed_script_path {
                Some(m) => Some(m@),
                None => None,
            },
        ),
{
    let ghost managed = match managed_script_path {
        Some(m) => Some(m@),
        None => None::<Seq<char>>,
    };
    let mut lines: Vec<PreRunLine> = Vec::new();
    let line = command_line_for_display(proposal);
    if decision.blocked {
        lines.push(PreRunLine::SectionBlocked);
        lines.push(PreRunLine::CommandLine { needs_shell: proposal.needs_shell, line, blocked: true });
        let ghost l0 = lines_view(lines@);
        if let Some(p) = managed_script_path {
            if p.unicode_len() > 0 {
                lines.push(PreRunLine::ManagedTempScript(to_owned_string(p)));
            }
        }
        assert(lines_view(lines@) =~= l0 + managed_lines(managed));
        let ghost l1 = lines_view(lines@);
        if proposal.needs_shell {
            lines.push(PreRunLine::ShellRequestNote);
        }
        let ghost l2 = lines_view(lines@);
        assert(l2 =~= l1 + (if proposal.needs_shell {
            seq![LineView::ShellRequestNote]
        } else {
            seq![]
        }));
        let why = match &decision.reason {
            Some(r) => r.clone(),
            None => to_owned_string("blocked by policy (no reason given)."),
        };
        lines.push(PreRunLine::Blocked { reason: why });
        lines.push(PreRunLine::WontRun);
        assert(lines_view(lines@) =~= pre_run_spec(
            *proposal,
            decision.blocked,
            decision.tier,
            decision.requires_confirmation,
            opt_str(decision.reason),
            managed,
        ));
        return lines;
    }
    lines.push(PreRunLine::SectionProposal);
    lines.push(PreRunLine::CommandLine { needs_shell: proposal.needs_shell, line, blocked: false });
    let ghost l0 = lines_view(lines@);
    if let Some(p) = managed_script_path {
        if p.unicode_len() > 0 {
            lines.push(PreRunLine::ManagedTempScript(to_owned_string(p)));
        }
    }
    assert(lines_view(lines@) =~= l0 + managed_lines(managed));
    let ghost l1 = lines_view(lines@);
    if let Some(c) = &proposal.cwd {
        lines.push(PreRunLine::WorkingDir(c.clone()));
    }
    let ghost l2 = lines_view(lines@);
    assert(l2 =~= l1 + (match proposal.cwd {
        Some(c) => seq![LineView::WorkingDir(c@)],
        None => seq![],
    }));
    let intent = match &proposal.reason {
        Some(r) => if trim(r.as_str()).unicode_len() > 0 {
            r.clone()
        } else {
            to_owned_string("(no rationale provided in model output)")
        },
        None => to_owned_string("(no rationale provided in model output)"),
    };
    lines.push(PreRunLine::Intent(intent));
    let ghost l3 = lines_view(lines@);
    if let Some(c) = &proposal.confidence {
        if trim(c.as_str()).unicode_len() > 0 {
            lines.push(PreRunLine::Confidence(c.clone()));
        }
    }
    let ghost l4 = lines_view(lines@);
    assert(l4 =~= l3 + (match proposal.confidence {
        Some(c) => if trim_spec(c@).len() > 0 {
            seq![LineView::Confidence(c@)]
        } else {
            seq![]
        },
        None => seq![],
    }));
    match decision.tier {
        RiskTier::ReadOnly | RiskTier::Standard => {},
        RiskTier::Sensitive | RiskTier::Destructive => {
            if decision.requires_confirmation {
                lines.push(PreRunLine::PolicyConfirm);
            }
        },
    }
    assert(lines_view(lines@) =~= pre_run_spec(
        *proposal,
        decision.blocked,
        decision.tier,
        decision.requires_confirmation,
        opt_str(decision.reason),
        managed,
    ));
    lines
}

/// The plain text of one pre-run line.
pub open spec fn render_line(l: LineView) -> Seq<char> {
    match l {
        LineView::SectionProposal => "── Proposal ──"@,
        LineView::SectionBlocked => "── Proposal (blocked) ──"@,
        LineView::CommandLine { needs_shell, line, blocked } => if blocked {
            "Command line: "@ + line
        } else if needs_shell {
            "Shell line (needs_shell): "@ + line
        } else {
            "Executable + args: "@ + line
        },
        LineView::ShellRequestNote => "Shell: this proposal requests shell execution (`needs_shell: true`)."@,
        LineView::WorkingDir(c) => "Working directory: "@ + c,
        LineView::Intent(s) => "What / intent: "@ + s,
        LineView::Confidence(c) => "Confidence: "@ + c,
        LineView::PolicyConfirm => "Policy: this command requires extra confirmation before it may run."@,
        LineView::Blocked { reason } => "Blocked: "@ + reason,
        LineView::WontRun => "This command will not be run."@,
        LineView::ManagedTempScript(p) => "Managed temp script: interpreter runs this ephemeral file (removed after exit): "@
            + p,
    }
}

/// Rendered lines joined by newlines.
pub open spec fn render_lines(v: Seq<LineView>) -> Seq<char>
    decreases v.len(),
{
    if v.len() == 0 {
        seq![]
    } else if v.len() == 1 {
        render_line(v[0])
    } else {
        render_lines(v.drop_last()) + seq!['\n'] + render_line(v.last())
    }
}

fn render_line_exec(out: &mut String, l: &PreRunLine)
    ensures
        final(out)@ == old(out)@ + render_line(line_view(*l)),
{
    match l {
        PreRunLine::SectionProposal => out.append("── Proposal ──"),
        PreRunLine::SectionBlocked => out.append("── Proposal (blocked) ──"),
        PreRunLine::CommandLine { needs_shell, line, blocked } => {
            if *blocked {
                out.append("Command line: ");
            } else if *needs_shell {
                out.append("Shell line (needs_shell): ");
            } else {
                out.append("Executable + args: ");
            }
            out.append(line.as_str());
        },
        PreRunLine::ShellRequestNote => out.append(
            "Shell: this proposal requests shell execution (`needs_shell: true`).",
        ),
        PreRunLine::WorkingDir(c) => {
            out.append("Working directory: ");
            out.append(c.as_str());
        },
        PreRunLine::Intent(s) => {
            out.append("What / intent: ");
            out.append(s.as_str());
        },
        PreRunLine::Confidence(c) => {
            out.append("Confidence: ");
            out.append(c.as_str());
        },
        PreRunLine::PolicyConfirm => out.append(
            "Policy: this command requires extra confirmation before it may run.",
        ),
        PreRunLine::Blocked { reason } => {
            out.append("Blocked: ");
            out.append(reason.as_str());
        },
        PreRunLine::WontRun => out.append("This command will not be run."),
        PreRunLine::ManagedTempScript(p) => {
            out.append(
                "Managed temp script: interpreter runs this ephemeral file (removed after exit): ",
            );
            out.append(p.as_str());
        },
    }
}

/// Rich pre-run block: argv/shell, intent, rationale, policy hints; nothing is executed.
pub fn format_pre_run_presentation(
    proposal: &CommandProposal,
    decision: &PolicyDecision,
    managed_script_path: Option<&str>,
) -> (r: String)
    ensures
        r@ == render_lines(
            pre_run_spec(
                *proposal,
                decision.blocked,
                decision.tier,
                decision.requires_confirmation,
                opt_str(decision.reason),
                match managed_script_path {
                    Some(m) => Some(m@),
                    None => None,
                },
            ),
        ),
{
    let parts = pre_run_lines(proposal, decision, managed_script_path);
    let mut out = String::new();
    let mut i: usize = 0;
    while i < parts.len()
        invariant
            i <= parts.len(),
            out@ == render_lines(lines_view(parts@.subrange(0, i as int))),
        decreases parts.len() - i,
    {
        if i > 0 {
            push_char(&mut out, '\n');
        }
        render_line_exec(&mut out, &parts[i]);
        proof {
            let next = lines_view(parts@.subrange(0, i + 1));
            assert(next.drop_last() =~= lines_view(parts@.subrange(0, i as int)));
            assert(next.last() == line_view(parts@[i as int]));
            if i == 0 {
                assert(next.len() == 1);
            }
        }
        i = i + 1;
        assert(out@ =~= render_lines(lines_view(parts@.subrange(0, i as int))));
    }
    assert(parts@.subrange(0, i as int) =~= parts@);
    out
}

} // verus!

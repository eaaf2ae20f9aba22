//! What `clai` prints around a proposal, as rows of styled text. Each row is a list of spans;
//! a terminal front end applies the styles (or not) and prints one row per line.

use vstd::prelude::*;

use crate::interactive_mode::{mode_name, InteractiveExecutionMode};
use crate::presentation::{line_view, lines_view, LineView, PreRunLine};
use crate::text::to_owned_string;

verus! {

/// Foreground color of a span.
#[derive(Debug, Clone, Copy, PartialEq, Eq, Structural)]
pub enum Color {
    Default,
    Cyan,
    Green,
    Yellow,
    Red,
    Magenta,
    White,
}

/// How a span is drawn on a color terminal.
#[derive(Debug, Clone, Copy, PartialEq, Eq, Structural)]
pub struct TextStyle {
    pub color: Color,
    pub bold: bool,
    pub dim: bool,
    pub italic: bool,
}

/// A piece of text with its style.
#[derive(Debug, Clone)]
pub struct Span {
    pub text: String,
    pub style: TextStyle,
}

/// A span as a plain value.
pub open spec fn span_view(s: Span) -> (Seq<char>, TextStyle) {
    (s.text@, s.style)
}

/// A row as a plain value.
pub open spec fn row_view(r: Seq<Span>) -> Seq<(Seq<char>, TextStyle)> {
    r.map_values(|s: Span| span_view(s))
}

/// Rows as plain values.
pub open spec fn rows_view(v: Seq<Vec<Span>>) -> Seq<Seq<(Seq<char>, TextStyle)>> {
    v.map_values(|r: Vec<Span>| row_view(r@))
}

/// The style with the given color and attributes.
pub open spec fn sty(color: Color, bold: bool, dim: bool, italic: bool) -> TextStyle {
    TextStyle { color, bold, dim, italic }
}

/// Unstyled text.
pub open spec fn plain() -> TextStyle {
    sty(Color::Default, false, false, false)
}

fn style(color: Color, bold: bool, dim: bool, italic: bool) -> (r: TextStyle)
    ensures
        r == sty(color, bold, dim, italic),
{
    TextStyle { color, bold, dim, italic }
}

fn empty_row() -> (r: Vec<Span>)
    ensures
        row_view(r@) == Seq::<(Seq<char>, TextStyle)>::empty(),
{
    let r: Vec<Span> = Vec::new();
    assert(row_view(r@) =~= Seq::<(Seq<char>, TextStyle)>::empty());
    r
}

fn span(text: &str, st: TextStyle) -> (r: Span)
    ensures
        span_view(r) == (text@, st),
{
    Span { text: to_owned_string(text), style: st }
}

fn owned_span(text: String, st: TextStyle) -> (r: Span)
    ensures
        span_view(r) == (text@, st),
{
    Span { text, style: st }
}

/// `  key: value` with a dim key and a white value.
pub open spec fn key_value_row(key: Seq<char>, value: Seq<char>) -> Seq<(Seq<char>, TextStyle)> {
    seq![
        ("  "@, plain()),
        (key + ":"@, sty(Color::Default, false, true, false)),
        (" "@, plain()),
        (value, sty(Color::White, false, false, false)),
    ]
}

fn key_value(key: &str, value: &str) -> (r: Vec<Span>)
    ensures
        row_view(r@) == key_value_row(key@, value@),
{
    let mut k = to_owned_string(key);
    k.append(":");
    let r = vec![
        span("  ", style(Color::Default, false, false, false)),
        owned_span(k, style(Color::Default, false, true, false)),
        span(" ", style(Color::Default, false, false, false)),
        span(value, style(Color::White, false, false, false)),
    ];
    assert(row_view(r@) =~= key_value_row(key@, value@));
    r
}

/// `  ▸ title` in bold `c`.
pub open spec fn banner_row(title: Seq<char>, c: Color) -> Seq<(Seq<char>, TextStyle)> {
    seq![("  "@, plain()), ("▸"@, sty(c, true, false, false)), (" "@, plain()), (title, sty(c, true, false, false))]
}

fn banner(title: &str, c: Color) -> (r: Vec<Span>)
    ensures
        row_view(r@) == banner_row(title@, c),
{
    let r = vec![
        span("  ", style(Color::Default, false, false, false)),
        span("▸", style(c, true, false, false)),
        span(" ", style(Color::Default, false, false, false)),
        span(title, style(c, true, false, false)),
    ];
    assert(row_view(r@) =~= banner_row(title@, c));
    r
}

/// The styled rows for one pre-run line.
pub open spec fn styled_line_rows(l: LineView) -> Seq<Seq<(Seq<char>, TextStyle)>> {
    match l {
        LineView::SectionProposal => seq![seq![], banner_row("Proposal"@, Color::Cyan)],
        LineView::SectionBlocked => seq![seq![], banner_row("Proposal (blocked)"@, Color::Red)],
        LineView::CommandLine { needs_shell, line, blocked } => seq![
            key_value_row(
                if blocked {
                    "Command"@
                } else if needs_shell {
                    "Shell (needs_shell)"@
                } else {
                    "Run"@
                },
                line,
            ),
        ],
        LineView::ShellRequestNote => seq![
            seq![
                (
                    "  Note: shell execution requested (`needs_shell`)"@,
                    sty(Color::Yellow, false, true, false),
                ),
            ],
        ],
        LineView::WorkingDir(p) => seq![key_value_row("Cwd"@, p)],
        LineView::Intent(s) => seq![key_value_row("Why"@, s)],
        LineView::Confidence(c) => seq![key_value_row("Confidence"@, c)],
        LineView::PolicyConfirm => seq![
            seq![
                (
                    "  Policy: extra confirmation required before this can run"@,
                    sty(Color::Yellow, false, false, false),
                ),
            ],
        ],
        LineView::Blocked { reason } => seq![
            seq![
                ("  "@, plain()),
                ("Blocked:"@, sty(Color::Red, false, false, false)),
                (" "@, plain()),
                (reason, plain()),
            ],
        ],
        LineView::WontRun => seq![
            seq![("  This command will not be run"@, sty(Color::Default, false, true, false))],
        ],
        LineView::ManagedTempScript(p) => seq![key_value_row("Script"@, p)],
    }
}

/// The styled rows for pre-run lines, in order.
pub open spec fn styled_rows_of(v: Seq<LineView>) -> Seq<Seq<(Seq<char>, TextStyle)>>
    decreases v.len(),
{
    if v.len() == 0 {
        seq![]
    } else {
        styled_rows_of(v.drop_last()) + styled_line_rows(v.last())
    }
}

fn styled_line(l: &PreRunLine) -> (r: Vec<Vec<Span>>)
    ensures
        rows_view(r@) == styled_line_rows(line_view(*l)),
{
    let r = match l {
        PreRunLine::SectionProposal => vec![empty_row(), banner("Proposal", Color::Cyan)],
        PreRunLine::SectionBlocked => vec![empty_row(), banner("Proposal (blocked)", Color::Red)],
        PreRunLine::CommandLine { needs_shell, line, blocked } => {
            let key = if *blocked {
                "Command"
            } else if *needs_shell {
                "Shell (needs_shell)"
            } else {
                "Run"
            };
            vec![key_value(key, line.as_str())]
        },
        PreRunLine::ShellRequestNote => vec![
            vec![
                span(
                    "  Note: shell execution requested (`needs_shell`)",
                    style(Color::Yellow, false, true, false),
                ),
            ],
        ],
        PreRunLine::WorkingDir(p) => vec![key_value("Cwd", p.as_str())],
        PreRunLine::Intent(s) => vec![key_value("Why", s.as_str())],
        PreRunLine::Confidence(c) => vec![key_value("Confidence", c.as_str())],
        PreRunLine::PolicyConfirm => vec![
            vec![
                span(
                    "  Policy: extra confirmation required before this can run",
                    style(Color::Yellow, false, false, false),
                ),
            ],
        ],
        PreRunLine::Blocked { reason } => vec![
            vec![
                span("  ", style(Color::Default, false, false, false)),
                span("Blocked:", style(Color::Red, false, false, false)),
                span(" ", style(Color::Default, false, false, false)),
                span(reason.as_str(), style(Color::Default, false, false, false)),
            ],
        ],
        PreRunLine::WontRun => vec![
            vec![span("  This command will not be run", style(Color::Default, false, true, false))],
        ],
        PreRunLine::ManagedTempScript(p) => vec![key_value("Script", p.as_str())],
    };
    proof {
        let lv = line_view(*l);
        assert forall|i: int| 0 <= i < r@.len() implies #[trigger] row_view(r@[i]@) =~= styled_line_rows(lv)[i] by {}
        assert(rows_view(r@) =~= styled_line_rows(lv));
    }
    r
}

/// The styled pre-run block: the rows of each line, then a blank row.
pub fn styled_pre_run_rows(lines: &Vec<PreRunLine>) -> (r: Vec<Vec<Span>>)
    ensures
        rows_view(r@) == styled_rows_of(lines_view(lines@)) + seq![seq![]],
{
    let mut out: Vec<Vec<Span>> = Vec::new();
    let mut i: usize = 0;
    while i < lines.len()
        invariant
            i <= lines@.len(),
            rows_view(out@) == styled_rows_of(lines_view(lines@.take(i as int))),
        decreases lines@.len() - i,
    {
        let mut part = styled_line(&lines[i]);
        let ghost before = out@;
        out.append(&mut part);
        proof {
            let t = lines_view(lines@.take(i as int + 1));
            assert(t.drop_last() =~= lines_view(lines@.take(i as int)));
            assert(t.last() == line_view(lines@[i as int]));
            assert(rows_view(out@) =~= rows_view(before) + styled_line_rows(line_view(lines@[i as int])));
        }
        i = i + 1;
    }
    assert(lines@.take(lines@.len() as int) =~= lines@);
    let ghost before = out@;
    out.push(empty_row());
    proof {
        assert(rows_view(out@) =~= rows_view(before) + seq![seq![]]);
    }
    out
}

/// One row holding `text` unstyled.
pub open spec fn text_row(text: Seq<char>) -> Seq<(Seq<char>, TextStyle)> {
    seq![(text, plain())]
}

fn text_row_exec(text: String) -> (r: Vec<Span>)
    ensures
        row_view(r@) == text_row(text@),
{
    let r = vec![owned_span(text, style(Color::Default, false, false, false))];
    assert(row_view(r@) =~= text_row(text@));
    r
}

/// The hint between the session banner's mode and model lines.
pub const SESSION_KEYS_HINT: &'static str = "EOF or `exit` to quit · `help` for built-ins · Ctrl+C cancels the current request";

/// The interactive session header. Styled: blank row, banner with source and mode, key hint,
/// model line (`(not set)` when empty), blank row. Plain: the labeled summary line and the model
/// line.
pub open spec fn session_start_spec(
    mode: InteractiveExecutionMode,
    source: Seq<char>,
    model_line: Seq<char>,
    styled: bool,
) -> Seq<Seq<(Seq<char>, TextStyle)>> {
    if styled {
        seq![
            seq![],
            seq![
                ("  "@, plain()),
                ("▸"@, sty(Color::Magenta, true, false, false)),
                (" "@, plain()),
                (
                    "clai · interactive · "@ + source + " · "@ + mode_name(mode),
                    sty(Color::White, true, false, false),
                ),
            ],
            seq![("  "@, plain()), (SESSION_KEYS_HINT@, sty(Color::Default, false, true, false))],
            seq![
                ("  "@, plain()),
                ("model:"@, sty(Color::Default, false, true, true)),
                (" "@, plain()),
                (
                    if model_line.len() == 0 {
                        "(not set)"@
                    } else {
                        model_line
                    },
                    sty(Color::Green, false, false, false),
                ),
            ],
            seq![],
        ]
    } else {
        seq![
            text_row(
                "clai: interactive session — source="@ + source + "  mode="@ + mode_name(mode)
                    + "  (EOF or `exit` to quit; `help` for built-ins; Ctrl+C cancels the current request)"@,
            ),
            text_row(model_line),
        ]
    }
}

/// Rows of the interactive session header.
pub fn session_start_rows(
    mode: InteractiveExecutionMode,
    source: &str,
    model_line: &str,
    styled: bool,
) -> (r: Vec<Vec<Span>>)
    ensures
        rows_view(r@) == session_start_spec(mode, source@, model_line@, styled),
{
    let m = mode.as_str();
    let r = if styled {
        let mut title = to_owned_string("clai · interactive · ");
        title.append(source);
        title.append(" · ");
        title.append(m);
        let ml = if model_line.unicode_len() == 0 {
            "(not set)"
        } else {
            model_line
        };
        vec![
            empty_row(),
            vec![
                span("  ", style(Color::Default, false, false, false)),
                span("▸", style(Color::Magenta, true, false, false)),
                span(" ", style(Color::Default, false, false, false)),
                owned_span(title, style(Color::White, true, false, false)),
            ],
            vec![
                span("  ", style(Color::Default, false, false, false)),
                span(SESSION_KEYS_HINT, style(Color::Default, false, true, false)),
            ],
            vec![
                span("  ", style(Color::Default, false, false, false)),
                span("model:", style(Color::Default, false, true, true)),
                span(" ", style(Color::Default, false, false, false)),
                span(ml, style(Color::Green, false, false, false)),
            ],
            empty_row(),
        ]
    } else {
        let mut first = to_owned_string("clai: interactive session — source=");
        first.append(source);
        first.append("  mode=");
        first.append(m);
        first.append(
            "  (EOF or `exit` to quit; `help` for built-ins; Ctrl+C cancels the current request)",
        );
        vec![text_row_exec(first), text_row_exec(to_owned_string(model_line))]
    };
    proof {
        let want = session_start_spec(mode, source@, model_line@, styled);
        assert forall|i: int| 0 <= i < r@.len() implies #[trigger] row_view(r@[i]@) =~= want[i] by {}
        assert(rows_view(r@) =~= want);
    }
    r
}

/// The plain help text printed by the `help` built-in, for the session's mode.
pub open spec fn session_help_plain_text(mode: InteractiveExecutionMode) -> Seq<char> {
    "Built-ins:\n  help          Show this help\n  exit, quit    End the session\n  reload        Reload local GGUF from disk (local sessions only; `llama` feature)\n\nExecution modes (effective this session: "@
        + mode_name(mode)
        + "):\n  dry-run       Ask before run; default is not to execute (config/CLI/env; see README)\n  confirm       Prompt before each run (default when not legacy dry-run mapped)\n  auto          Run after presentation (still honors sensitive policy confirm unless --yes)\n\nOverrides: CLI > env > config > built-in default. Env: CLAI_INTERACTIVE__EXECUTION=dry-run|confirm|auto\nGlobal flags: --interactive-mode, --yes (forces auto + policy auto-confirm), --cloud\n\nCtrl+C: cancels the current request; use exit/quit or EOF to leave the session.\n"@
}

/// `  name  description`: a yellow (or dim) name and a dim description.
pub open spec fn help_entry_row(name: Seq<char>, desc: Seq<char>, name_style: TextStyle) -> Seq<(Seq<char>, TextStyle)> {
    seq![
        ("  "@, plain()),
        (name, name_style),
        ("  "@, plain()),
        (desc, sty(Color::Default, false, true, false)),
    ]
}

fn help_entry(name: &str, desc: &str, name_style: TextStyle) -> (r: Vec<Span>)
    ensures
        row_view(r@) == help_entry_row(name@, desc@, name_style),
{
    let r = vec![
        span("  ", style(Color::Default, false, false, false)),
        span(name, name_style),
        span("  ", style(Color::Default, false, false, false)),
        span(desc, style(Color::Default, false, true, false)),
    ];
    assert(row_view(r@) =~= help_entry_row(name@, desc@, name_style));
    r
}

/// The `help` built-in's rows: styled, the built-ins and the execution modes with the
/// session's mode marked; plain, the help text as one row.
pub open spec fn session_help_spec(mode: InteractiveExecutionMode, styled: bool) -> Seq<Seq<(Seq<char>, TextStyle)>> {
    let title = sty(Color::Cyan, true, false, false);
    let yellow = sty(Color::Yellow, false, false, false);
    let dim = sty(Color::Default, false, true, false);
    if styled {
        seq![
            seq![],
            seq![("── Built-ins"@, title)],
            help_entry_row("help"@, "Show this help"@, yellow),
            help_entry_row("exit, quit"@, "End the session"@, yellow),
            help_entry_row("reload"@, "Reload local GGUF (local + `llama` feature)"@, yellow),
            seq![],
            seq![("── Execution mode (this session)"@, title)],
            seq![("  "@, plain()), ("● "@, sty(Color::Green, false, false, false)), (mode_name(mode), plain())],
            help_entry_row("dry-run"@, "Ask before run (default: skip)"@, dim),
            help_entry_row("confirm"@, "Prompt before each run (default)"@, dim),
            help_entry_row(
                "auto"@,
                "Run after presentation (sensitive still confirms unless --yes)"@,
                dim,
            ),
            seq![],
            seq![
                ("  "@, plain()),
                (
                    "Config: CLAI_INTERACTIVE__EXECUTION · Global: --interactive-mode, --yes, --cloud"@,
                    dim,
                ),
            ],
            seq![],
        ]
    } else {
        seq![text_row(session_help_plain_text(mode))]
    }
}

/// Rows printed by the `help` built-in.
pub fn session_help_rows(mode: InteractiveExecutionMode, styled: bool) -> (r: Vec<Vec<Span>>)
    ensures
        rows_view(r@) == session_help_spec(mode, styled),
{
    let m = mode.as_str();
    let r = if styled {
        let title = style(Color::Cyan, true, false, false);
        let yellow = style(Color::Yellow, false, false, false);
        let dim = style(Color::Default, false, true, false);
        vec![
            empty_row(),
            vec![span("── Built-ins", title)],
            help_entry("help", "Show this help", yellow),
            help_entry("exit, quit", "End the session", yellow),
            help_entry("reload", "Reload local GGUF (local + `llama` feature)", yellow),
            empty_row(),
            vec![span("── Execution mode (this session)", title)],
            vec![
                span("  ", style(Color::Default, false, false, false)),
                span("● ", style(Color::Green, false, false, false)),
                span(m, style(Color::Default, false, false, false)),
            ],
            help_entry("dry-run", "Ask before run (default: skip)", dim),
            help_entry("confirm", "Prompt before each run (default)", dim),
            help_entry("auto", "Run after presentation (sensitive still confirms unless --yes)", dim),
            empty_row(),
            vec![
                span("  ", style(Color::Default, false, false, false)),
                span(
                    "Config: CLAI_INTERACTIVE__EXECUTION · Global: --interactive-mode, --yes, --cloud",
                    dim,
                ),
            ],
            empty_row(),
        ]
    } else {
        let mut t = to_owned_string(
            "Built-ins:\n  help          Show this help\n  exit, quit    End the session\n  reload        Reload local GGUF from disk (local sessions only; `llama` feature)\n\nExecution modes (effective this session: ",
        );
        t.append(m);
        t.append(
            "):\n  dry-run       Ask before run; default is not to execute (config/CLI/env; see README)\n  confirm       Prompt before each run (default when not legacy dry-run mapped)\n  auto          Run after presentation (still honors sensitive policy confirm unless --yes)\n\nOverrides: CLI > env > config > built-in default. Env: CLAI_INTERACTIVE__EXECUTION=dry-run|confirm|auto\nGlobal flags: --interactive-mode, --yes (forces auto + policy auto-confirm), --cloud\n\nCtrl+C: cancels the current request; use exit/quit or EOF to leave the session.\n",
        );
        vec![text_row_exec(t)]
    };
    proof {
        let want = session_help_spec(mode, styled);
        assert forall|i: int| 0 <= i < r@.len() implies #[trigger] row_view(r@[i]@) =~= want[i] by {}
        assert(rows_view(r@) =~= want);
    }
    r
}

/// The note after a dry-run line was not executed.
pub open spec fn dry_run_skip_spec(styled: bool) -> Seq<(Seq<char>, TextStyle)> {
    if styled {
        seq![
            ("  "@, plain()),
            ("○"@, sty(Color::Cyan, false, false, false)),
            (" "@, plain()),
            ("dry-run: not executed (preview only)"@, sty(Color::Default, false, true, true)),
        ]
    } else {
        text_row("(dry-run interactive mode; not executed)"@)
    }
}

/// Row of the note shown when a dry-run line is not executed.
pub fn dry_run_skip_note(styled: bool) -> (r: Vec<Span>)
    ensures
        row_view(r@) == dry_run_skip_spec(styled),
{
    let r = if styled {
        vec![
            span("  ", style(Color::Default, false, false, false)),
            span("○", style(Color::Cyan, false, false, false)),
            span(" ", style(Color::Default, false, false, false)),
            span("dry-run: not executed (preview only)", style(Color::Default, false, true, true)),
        ]
    } else {
        text_row_exec(to_owned_string("(dry-run interactive mode; not executed)"))
    };
    assert(row_view(r@) =~= dry_run_skip_spec(styled));
    r
}

/// The one-line preview before a run: `  ▶ line` styled, the line itself plain.
pub open spec fn run_hint_spec(line: Seq<char>, styled: bool) -> Seq<(Seq<char>, TextStyle)> {
    if styled {
        seq![("  "@, plain()), ("▶"@, sty(Color::Green, true, false, false)), (" "@, plain()), (line, plain())]
    } else {
        text_row(line)
    }
}

/// Row of the preview shown before a run.
pub fn run_hint(line: &str, styled: bool) -> (r: Vec<Span>)
    ensures
        row_view(r@) == run_hint_spec(line@, styled),
{
    let r = if styled {
        vec![
            span("  ", style(Color::Default, false, false, false)),
            span("▶", style(Color::Green, true, false, false)),
            span(" ", style(Color::Default, false, false, false)),
            span(line, style(Color::Default, false, false, false)),
        ]
    } else {
        text_row_exec(to_owned_string(line))
    };
    assert(row_view(r@) =~= run_hint_spec(line@, styled));
    r
}

/// A progress note on standard error: nothing when it is not a terminal; `[plain]` without
/// color; `  ··· note` (dim cyan dots, dim italic note) with color.
pub open spec fn progress_note_spec(note: Seq<char>, plain_text: Seq<char>, stderr_tty: bool, color: bool) -> Option<Seq<(Seq<char>, TextStyle)>> {
    if !stderr_tty {
        None
    } else if color {
        Some(
            seq![
                ("  "@, plain()),
                ("···"@, sty(Color::Cyan, false, true, false)),
                (" "@, plain()),
                (note, sty(Color::Default, false, true, true)),
            ],
        )
    } else {
        Some(text_row(plain_text))
    }
}

fn progress_note(note: &str, plain_text: &str, stderr_tty: bool, color: bool) -> (r: Option<Vec<Span>>)
    ensures
        match r {
            Some(v) => progress_note_spec(note@, plain_text@, stderr_tty, color) == Some(row_view(v@)),
            None => progress_note_spec(note@, plain_text@, stderr_tty, color) is None,
        },
{
    if !stderr_tty {
        return None;
    }
    let r = if color {
        vec![
            span("  ", style(Color::Default, false, false, false)),
            span("···", style(Color::Cyan, false, true, false)),
            span(" ", style(Color::Default, false, false, false)),
            span(note, style(Color::Default, false, true, true)),
        ]
    } else {
        text_row_exec(to_owned_string(plain_text))
    };
    assert(row_view(r@) =~= progress_note_spec(note@, plain_text@, stderr_tty, color)->0);
    Some(r)
}

/// The "waiting for cloud" note.
pub fn cloud_request_prelude(stderr_tty: bool, color: bool) -> (r: Option<Vec<Span>>)
    ensures
        match r {
            Some(v) => progress_note_spec(
                "requesting from cloud…"@,
                "[requesting from cloud...]"@,
                stderr_tty,
                color,
            ) == Some(row_view(v@)),
            None => !stderr_tty,
        },
{
    progress_note("requesting from cloud…", "[requesting from cloud...]", stderr_tty, color)
}

/// The note shown while a local model streams its answer.
pub fn model_stream_prelude(stderr_tty: bool, color: bool) -> (r: Option<Vec<Span>>)
    ensures
        match r {
            Some(v) => progress_note_spec("composing (stream)"@, "[composing...]"@, stderr_tty, color)
                == Some(row_view(v@)),
            None => !stderr_tty,
        },
{
    progress_note("composing (stream)", "[composing...]", stderr_tty, color)
}

} // verus!

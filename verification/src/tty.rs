//! Labeled status lines (`clai: …`, `error: …`) and their colors.

use vstd::prelude::*;

use crate::cli_output::{plain, row_view, sty, Color, Span, TextStyle};
use crate::text::to_owned_string;

verus! {

/// How a labeled line is colored.
#[derive(Debug, Clone, Copy, PartialEq, Eq, Structural)]
pub enum Severity {
    Info,
    Success,
    Warn,
    Error,
}

/// The label color for a severity: cyan, green, yellow, red.
pub open spec fn severity_color(sev: Severity) -> Color {
    match sev {
        Severity::Info => Color::Cyan,
        Severity::Success => Color::Green,
        Severity::Warn => Color::Yellow,
        Severity::Error => Color::Red,
    }
}

/// A labeled line: `label: message` without color; with color, the label in its severity's
/// color followed by a space and the message.
pub open spec fn labeled_line_spec(label: Seq<char>, message: Seq<char>, sev: Severity, color: bool) -> Seq<(Seq<char>, TextStyle)> {
    if color {
        seq![(label, sty(severity_color(sev), false, false, false)), (" "@ + message, plain())]
    } else {
        seq![(label + ": "@ + message, plain())]
    }
}

/// The row for a labeled status line.
pub fn format_labeled_line(label: &str, message: &str, sev: Severity, color: bool) -> (r: Vec<Span>)
    ensures
        row_view(r@) == labeled_line_spec(label@, message@, sev, color),
{
    let r = if color {
        let c = match sev {
            Severity::Info => Color::Cyan,
            Severity::Success => Color::Green,
            Severity::Warn => Color::Yellow,
            Severity::Error => Color::Red,
        };
        let mut rest = to_owned_string(" ");
        rest.append(message);
        vec![
            Span { text: to_owned_string(label), style: TextStyle { color: c, bold: false, dim: false, italic: false } },
            Span { text: rest, style: TextStyle { color: Color::Default, bold: false, dim: false, italic: false } },
        ]
    } else {
        let mut t = to_owned_string(label);
        t.append(": ");
        t.append(message);
        vec![Span { text: t, style: TextStyle { color: Color::Default, bold: false, dim: false, italic: false } }]
    };
    assert(row_view(r@) =~= labeled_line_spec(label@, message@, sev, color));
    r
}

} // verus!

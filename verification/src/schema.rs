//! Structured command proposal from the model (argv-first), and the framing of raw model text
//! into the JSON candidates that are tried in turn.

use vstd::prelude::*;
use vstd::string::*;

use crate::error::{msg_error, AppError};
use crate::text::{push_char, str_eq, trim, trim_spec};

verus! {

/// A command the model proposes to run.
#[derive(Debug, Clone, PartialEq, Eq)]
pub struct CommandProposal {
    /// Executable name or path (resolved later).
    pub program: String,
    pub args: Vec<String>,
    pub cwd: Option<String>,
    pub reason: Option<String>,
    /// When true, the executor may use a shell wrapper (policy-gated).
    pub needs_shell: bool,
    pub confidence: Option<String>,
    /// Written to a private temp file when ephemeral scripts are enabled; its path is appended to `args`.
    pub script_body: Option<String>,
    /// Optional suffix for the temp file (e.g. `py`, `js`).
    pub script_extension: Option<String>,
}

/// The characters of each string in `v`.
pub open spec fn strs(v: Seq<String>) -> Seq<Seq<char>> {
    v.map_values(|s: String| s@)
}

/// The characters of an optional string.
pub open spec fn opt_str(o: Option<String>) -> Option<Seq<char>> {
    match o {
        Some(s) => Some(s@),
        None => None,
    }
}

/// JSON schema of a proposal, given to the model.
pub const COMMAND_PROPOSAL_SCHEMA: &'static str = r##"{
  "type": "object",
  "required": ["program"],
    "properties": {
    "program": { "type": "string" },
    "args": { "type": "array", "items": { "type": "string" } },
    "cwd": { "type": "string" },
    "reason": { "type": "string" },
    "needs_shell": { "type": "boolean" },
    "confidence": { "type": "string" },
    "script_body": { "type": "string" },
    "script_extension": { "type": "string" }
  }
}"##;

impl CommandProposal {
    /// The JSON schema text for a proposal.
    pub fn schema_json() -> (r: &'static str)
        ensures
            r@ == COMMAND_PROPOSAL_SCHEMA@,
    {
        COMMAND_PROPOSAL_SCHEMA
    }
}

/// Lowercase hexadecimal digit for `d < 16`.
pub open spec fn hex_digit(d: u32) -> char {
    if d < 10 {
        (0x30 + d) as char
    } else {
        (0x61 + d - 10) as char
    }
}

/// `\u00XX` escape of a control character.
pub open spec fn hex_escape(c: char) -> Seq<char> {
    seq!['\\', 'u', '0', '0', hex_digit((c as u32) / 16), hex_digit((c as u32) % 16)]
}

/// Output of the control-character escaper for `s` from position `i`, with `in_string` telling
/// whether position `i` lies inside a JSON string literal.
pub open spec fn escape_from(s: Seq<char>, i: int, in_string: bool) -> Seq<char>
    decreases s.len() - i,
{
    if i < 0 || i >= s.len() {
        seq![]
    } else {
        let c = s[i];
        if !in_string {
            seq![c] + escape_from(s, i + 1, c == '"')
        } else if c == '\\' {
            if i + 1 < s.len() && s[i + 1] == 'u' {
                let end = if i + 6 <= s.len() {
                    i + 6
                } else {
                    s.len() as int
                };
                s.subrange(i, end) + escape_from(s, end, true)
            } else if i + 1 < s.len() {
                seq![c, s[i + 1]] + escape_from(s, i + 2, true)
            } else {
                seq![c]
            }
        } else if c == '"' {
            seq![c] + escape_from(s, i + 1, false)
        } else if (c as u32) < 0x20 {
            hex_escape(c) + escape_from(s, i + 1, true)
        } else {
            seq![c] + escape_from(s, i + 1, true)
        }
    }
}

/// Every raw U+0000..=U+001F inside a JSON string literal of `s` replaced by `\u00XX`;
/// escape sequences already present are copied unchanged.
pub open spec fn escape_controls_spec(s: Seq<char>) -> Seq<char> {
    escape_from(s, 0, false)
}

fn ascii_char(v: u32) -> (r: char)
    requires
        v < 128,
    ensures
        r == v as char,
{
    let b: u8 = v as u8;
    b as char
}

fn hex_digit_char(d: u32) -> (r: char)
    requires
        d < 16,
    ensures
        r == hex_digit(d),
{
    if d < 10 {
        ascii_char(0x30 + d)
    } else {
        ascii_char(0x61 + d - 10)
    }
}

/// Replace raw U+0000..=U+001F inside JSON string literals with `\u00XX` escapes, so that model
/// output with unescaped newlines, ESC or other controls becomes valid JSON.
pub fn escape_unescaped_control_chars_in_json_strings(input: &str) -> (r: String)
    ensures
        r@ == escape_controls_spec(input@),
{
    let ghost s = input@;
    let n = input.unicode_len();
    let mut out = String::new();
    let mut in_string = false;
    let mut i: usize = 0;
    while i < n
        invariant
            s == input@,
            n == s.len(),
            i <= n,
            out@ + escape_from(s, i as int, in_string) == escape_from(s, 0, false),
        decreases n - i,
    {
        let ghost old_out = out@;
        let ghost old_i = i as int;
        let ghost old_in = in_string;
        let c = input.get_char(i);
        if !in_string {
            if c == '"' {
                in_string = true;
            }
            push_char(&mut out, c);
            i = i + 1;
            assert(old_out + escape_from(s, old_i, old_in) =~= out@ + escape_from(
                s,
                i as int,
                in_string,
            ));
        } else if c == '\\' {
            if i + 1 < n && input.get_char(i + 1) == 'u' {
                let end: usize = if n - i >= 6 {
                    i + 6
                } else {
                    n
                };
                out.append(input.substring_char(i, end));
                i = end;
                assert(old_out + escape_from(s, old_i, old_in) =~= out@ + escape_from(
                    s,
                    i as int,
                    in_string,
                ));
            } else if i + 1 < n {
                push_char(&mut out, c);
                push_char(&mut out, input.get_char(i + 1));
                i = i + 2;
                assert(old_out + escape_from(s, old_i, old_in) =~= out@ + escape_from(
                    s,
                    i as int,
                    in_string,
                ));
            } else {
                push_char(&mut out, c);
                i = i + 1;
                assert(old_out + escape_from(s, old_i, old_in) =~= out@ + escape_from(
                    s,
                    i as int,
                    in_string,
                ));
            }
        } else if c == '"' {
            in_string = false;
            push_char(&mut out, c);
            i = i + 1;
            assert(old_out + escape_from(s, old_i, old_in) =~= out@ + escape_from(
                s,
                i as int,
                in_string,
            ));
        } else if (c as u32) < 0x20 {
            let v = c as u32;
            push_char(&mut out, '\\');
            push_char(&mut out, 'u');
            push_char(&mut out, '0');
            push_char(&mut out, '0');
            push_char(&mut out, hex_digit_char(v / 16));
            push_char(&mut out, hex_digit_char(v % 16));
            i = i + 1;
            assert(old_out + escape_from(s, old_i, old_in) =~= out@ + escape_from(
                s,
                i as int,
                in_string,
            ));
        } else {
            push_char(&mut out, c);
            i = i + 1;
            assert(old_out + escape_from(s, old_i, old_in) =~= out@ + escape_from(
                s,
                i as int,
                in_string,
            ));
        }
    }
    assert(out@ + escape_from(s, i as int, in_string) =~= out@);
    out
}

/// No character of `s` is an ASCII control character below U+0020.
pub open spec fn no_controls(s: Seq<char>) -> bool {
    forall|k: int| 0 <= k < s.len() ==> (#[trigger] s[k] as u32) >= 0x20
}

proof fn lemma_escape_from_identity(s: Seq<char>, i: int, in_string: bool)
    requires
        no_controls(s),
        0 <= i <= s.len(),
    ensures
        escape_from(s, i, in_string) == s.subrange(i, s.len() as int),
    decreases s.len() - i,
{
    if i < s.len() {
        let c = s[i];
        assert((s[i] as u32) >= 0x20);
        if !in_string {
            lemma_escape_from_identity(s, i + 1, c == '"');
        } else if c == '\\' {
            if i + 1 < s.len() && s[i + 1] == 'u' {
                let end = if i + 6 <= s.len() {
                    i + 6
                } else {
                    s.len() as int
                };
                lemma_escape_from_identity(s, end, true);
                assert(s.subrange(i, end) + s.subrange(end, s.len() as int) =~= s.subrange(
                    i,
                    s.len() as int,
                ));
            } else if i + 1 < s.len() {
                lemma_escape_from_identity(s, i + 2, true);
                assert(seq![c, s[i + 1]] + s.subrange(i + 2, s.len() as int) =~= s.subrange(
                    i,
                    s.len() as int,
                ));
            } else {
                assert(seq![c] =~= s.subrange(i, s.len() as int));
            }
        } else if c == '"' {
            lemma_escape_from_identity(s, i + 1, false);
        } else {
            lemma_escape_from_identity(s, i + 1, true);
        }
        if !(c == '\\' && in_string) {
            assert(seq![c] + s.subrange(i + 1, s.len() as int) =~= s.subrange(
                i,
                s.len() as int,
            ));
        }
    } else {
        assert(s.subrange(i, s.len() as int) =~= seq![]);
    }
}

/// Text with no control characters below U+0020 passes through the escaper unchanged.
pub proof fn lemma_escape_is_identity_without_controls(s: Seq<char>)
    requires
        no_controls(s),
    ensures
        escape_controls_spec(s) == s,
{
    lemma_escape_from_identity(s, 0, false);
    assert(s.subrange(0, s.len() as int) =~= s);
}

proof fn lemma_escape_from_shift(a: Seq<char>, b: Seq<char>, k: int, st: bool)
    requires
        0 <= k,
    ensures
        escape_from(a + b, a.len() + k, st) == escape_from(b, k, st),
    decreases b.len() - k,
{
    let s = a + b;
    let i = a.len() + k;
    if k < b.len() {
        assert(s[i] == b[k]);
        let c = b[k];
        if !st {
            lemma_escape_from_shift(a, b, k + 1, c == '"');
        } else if c == '\\' {
            if k + 1 < b.len() && b[k + 1] == 'u' {
                assert(s[i + 1] == b[k + 1]);
                let end = if k + 6 <= b.len() {
                    k + 6
                } else {
                    b.len() as int
                };
                lemma_escape_from_shift(a, b, end, true);
                assert(s.subrange(i, a.len() + end) =~= b.subrange(k, end));
            } else if k + 1 < b.len() {
                assert(s[i + 1] == b[k + 1]);
                lemma_escape_from_shift(a, b, k + 2, true);
            }
        } else if c == '"' {
            lemma_escape_from_shift(a, b, k + 1, false);
        } else {
            lemma_escape_from_shift(a, b, k + 1, true);
        }
    }
}

proof fn lemma_hex_digit_plain(d: u32)
    requires
        d < 16,
    ensures
        hex_digit(d) as u32 >= 0x30,
        hex_digit(d) != '"',
        hex_digit(d) != '\\',
{
}

proof fn lemma_escape_from_idem(s: Seq<char>, i: int, st: bool)
    requires
        0 <= i <= s.len(),
    ensures
        escape_from(escape_from(s, i, st), 0, st) == escape_from(s, i, st),
        escape_from(s, i, st).len() >= s.len() - i,
    decreases s.len() - i,
{
    if i < s.len() {
        let c = s[i];
        let out = escape_from(s, i, st);
        if !st {
            let rest = escape_from(s, i + 1, c == '"');
            lemma_escape_from_idem(s, i + 1, c == '"');
            assert(out == seq![c] + rest);
            lemma_escape_from_shift(seq![c], rest, 0, c == '"');
            assert(out[0] == c);
        } else if c == '\\' {
            if i + 1 < s.len() && s[i + 1] == 'u' {
                let end = if i + 6 <= s.len() {
                    i + 6
                } else {
                    s.len() as int
                };
                let piece = s.subrange(i, end);
                let rest = escape_from(s, end, true);
                lemma_escape_from_idem(s, end, true);
                assert(out == piece + rest);
                assert(out[0] == '\\' && out[1] == 'u');
                if end == i + 6 {
                    lemma_escape_from_shift(piece, rest, 0, true);
                    assert(out.subrange(0, 6) =~= piece);
                } else {
                    assert(rest =~= seq![]);
                    assert(out =~= piece);
                    assert(out.subrange(0, out.len() as int) =~= piece);
                    assert(escape_from(out, out.len() as int, true) =~= seq![]);
                }
            } else if i + 1 < s.len() {
                let rest = escape_from(s, i + 2, true);
                lemma_escape_from_idem(s, i + 2, true);
                assert(out == seq![c, s[i + 1]] + rest);
                assert(out[0] == c && out[1] == s[i + 1]);
                lemma_escape_from_shift(seq![c, s[i + 1]], rest, 0, true);
            } else {
                assert(out == seq![c]);
            }
        } else if c == '"' {
            let rest = escape_from(s, i + 1, false);
            lemma_escape_from_idem(s, i + 1, false);
            assert(out == seq![c] + rest);
            lemma_escape_from_shift(seq![c], rest, 0, false);
            assert(out[0] == c);
        } else if (c as u32) < 0x20 {
            let piece = hex_escape(c);
            let rest = escape_from(s, i + 1, true);
            lemma_escape_from_idem(s, i + 1, true);
            assert(out == piece + rest);
            lemma_hex_digit_plain((c as u32) / 16);
            lemma_hex_digit_plain((c as u32) % 16);
            assert(out[0] == '\\' && out[1] == 'u');
            lemma_escape_from_shift(piece, rest, 0, true);
            assert(out.subrange(0, 6) =~= piece);
        } else {
            let rest = escape_from(s, i + 1, true);
            lemma_escape_from_idem(s, i + 1, true);
            assert(out == seq![c] + rest);
            lemma_escape_from_shift(seq![c], rest, 0, true);
            assert(out[0] == c);
        }
    }
}

/// The laws of the control-character escaper (what
/// `escape_unescaped_control_chars_in_json_strings` computes): escaping is idempotent, text
/// without control characters comes back unchanged, and escaping never shortens the text.
pub proof fn lemma_escape_laws(s: Seq<char>)
    ensures
        escape_controls_spec(escape_controls_spec(s)) == escape_controls_spec(s),
        no_controls(s) ==> escape_controls_spec(s) == s,
        escape_controls_spec(s).len() >= s.len(),
{
    lemma_escape_from_idem(s, 0, false);
    if no_controls(s) {
        lemma_escape_is_identity_without_controls(s);
    }
}

/// `k` is the first position of `c` in `t`.
pub open spec fn is_first_of(t: Seq<char>, c: char, k: int) -> bool {
    &&& 0 <= k < t.len()
    &&& t[k] == c
    &&& forall|j: int| 0 <= j < k ==> t[j] != c
}

/// `k` is the last position of `c` in `t`, at or after `from`.
pub open spec fn is_last_of_from(t: Seq<char>, c: char, from: int, k: int) -> bool {
    &&& from <= k < t.len()
    &&& t[k] == c
    &&& forall|j: int| k < j < t.len() ==> t[j] != c
}

/// Message when model output holds no `{`.
pub const NO_JSON_OBJECT_MSG: &'static str = "no JSON object in model output";

/// Message when model output has a `{` but no `}` after it.
pub const UNCLOSED_JSON_MSG: &'static str =
    "unclosed JSON in model output (likely truncated; raise CLAI_MAX_NEW_TOKENS or shorten the command)";

/// The JSON candidates found in raw model text, to be parsed in this order.
pub struct ModelTextFrames {
    /// The whole text, trimmed.
    pub trimmed: String,
    /// The trimmed text with control characters escaped, when that changes it.
    pub escaped: Option<String>,
    /// The span from the first `{` to the last `}` after it, escaped; or why there is none.
    pub object: Result<String, AppError>,
}

/// Find the JSON candidates in raw model output: the trimmed text, its control-escaped form
/// when different, and the escaped slice from the first `{` to the last `}`.
pub fn frame_model_text(text: &str) -> (r: ModelTextFrames)
    ensures
        r.trimmed@ == trim_spec(text@),
        r.escaped is Some <==> escape_controls_spec(trim_spec(text@)) != trim_spec(text@),
        r.escaped matches Some(e) ==> e@ == escape_controls_spec(trim_spec(text@)),
        ({
            let t = trim_spec(text@);
            match r.object {
                Ok(o) => exists|a: int, b: int|
                    is_first_of(t, '{', a) && is_last_of_from(t, '}', a, b) && o@
                        == escape_controls_spec(#[trigger] t.subrange(a, b + 1)),
                Err(e) => {
                    ||| (forall|k: int| 0 <= k < t.len() ==> t[k] != '{') && msg_error(
                        e,
                        NO_JSON_OBJECT_MSG@,
                    )
                    ||| (exists|a: int|
                        is_first_of(t, '{', a) && forall|k: int|
                            a <= k < t.len() ==> #[trigger] t[k] != '}') && msg_error(
                        e,
                        UNCLOSED_JSON_MSG@,
                    )
                },
            }
        }),
{
    let t = trim(text);
    let trimmed = t.to_owned();
    let esc = escape_unescaped_control_chars_in_json_strings(t);
    let escaped = if str_eq(esc.as_str(), t) {
        None
    } else {
        Some(esc)
    };
    let n = t.unicode_len();
    let mut a: usize = 0;
    while a < n && t.get_char(a) != '{'
        invariant
            n == t@.len(),
            a <= n,
            forall|j: int| 0 <= j < a ==> t@[j] != '{',
        decreases n - a,
    {
        a = a + 1;
    }
    if a == n {
        return ModelTextFrames {
            trimmed,
            escaped,
            object: Err(AppError::Msg(NO_JSON_OBJECT_MSG.to_owned())),
        };
    }
    let mut b: usize = n;
    while b > a && t.get_char(b - 1) != '}'
        invariant
            n == t@.len(),
            a < n,
            a <= b <= n,
            forall|j: int| b <= j < n ==> t@[j] != '}',
        decreases b,
    {
        b = b - 1;
    }
    if b == a {
        assert(is_first_of(t@, '{', a as int));
        assert(forall|k: int| a <= k < t@.len() ==> #[trigger] t@[k] != '}');
        return ModelTextFrames {
            trimmed,
            escaped,
            object: Err(AppError::Msg(UNCLOSED_JSON_MSG.to_owned())),
        };
    }
    let slice = t.substring_char(a, b);
    let obj = escape_unescaped_control_chars_in_json_strings(slice);
    assert(is_first_of(t@, '{', a as int));
    assert(is_last_of_from(t@, '}', a as int, b - 1));
    assert(obj@ == escape_controls_spec(t@.subrange(a as int, (b - 1) + 1)));
    ModelTextFrames { trimmed, escaped, object: Ok(obj) }
}

} // verus!

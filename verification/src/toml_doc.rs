//! TOML configuration documents as the library sees them, and the edit that appends an
//! executable's base name to a list in one table.

use vstd::prelude::*;

use crate::error::{msg_error, AppError};
use crate::text::{eq_ignore_ascii_case, eq_ignore_ascii_case_spec, str_eq, to_owned_string};

verus! {

#[verifier::external_type_specification]
#[verifier::external_body]
pub struct ExTomlValue(toml::Value);

/// A TOML value: strings, integers, booleans, arrays and tables are seen; other values (floats,
/// datetimes) are carried through unchanged.
#[derive(Debug)]
pub enum TomlNode {
    Str(String),
    Int(i64),
    Bool(bool),
    Array(Vec<TomlNode>),
    Table(Vec<(String, TomlNode)>),
    Other(toml::Value),
}

/// A TOML value as a plain value.
pub enum TomlView {
    Str(Seq<char>),
    Int(int),
    Bool(bool),
    Array(Seq<TomlView>),
    Table(Seq<(Seq<char>, TomlView)>),
    Other(toml::Value),
}

pub open spec fn node_view(n: TomlNode) -> TomlView
    decreases n,
{
    match n {
        TomlNode::Str(s) => TomlView::Str(s@),
        TomlNode::Int(i) => TomlView::Int(i as int),
        TomlNode::Bool(b) => TomlView::Bool(b),
        TomlNode::Array(v) => TomlView::Array(
            Seq::new(
                v@.len(),
                |i: int|
                    if 0 <= i < v@.len() {
                        node_view(v@[i])
                    } else {
                        TomlView::Bool(false)
                    },
            ),
        ),
        TomlNode::Table(e) => TomlView::Table(
            Seq::new(
                e@.len(),
                |i: int|
                    if 0 <= i < e@.len() {
                        (e@[i].0@, node_view(e@[i].1))
                    } else {
                        (seq![], TomlView::Bool(false))
                    },
            ),
        ),
        TomlNode::Other(x) => TomlView::Other(x),
    }
}

/// The entries of a table as plain values.
pub open spec fn entries_view(e: Seq<(String, TomlNode)>) -> Seq<(Seq<char>, TomlView)> {
    Seq::new(e.len(), |i: int| (e[i].0@, node_view(e[i].1)))
}

/// The items of an array as plain values.
pub open spec fn items_view(v: Seq<TomlNode>) -> Seq<TomlView> {
    Seq::new(v.len(), |i: int| node_view(v[i]))
}

proof fn lemma_table_view(e: Vec<(String, TomlNode)>)
    ensures
        node_view(TomlNode::Table(e)) == TomlView::Table(entries_view(e@)),
{
    let t = node_view(TomlNode::Table(e))->Table_0;
    assert(node_view(TomlNode::Table(e)) is Table);
    assert forall|i: int| 0 <= i < e@.len() implies t[i] == entries_view(e@)[i] by {}
    assert(t =~= entries_view(e@));
}

proof fn lemma_array_view(v: Vec<TomlNode>)
    ensures
        node_view(TomlNode::Array(v)) == TomlView::Array(items_view(v@)),
{
    let t = node_view(TomlNode::Array(v))->Array_0;
    assert(node_view(TomlNode::Array(v)) is Array);
    assert forall|i: int| 0 <= i < v@.len() implies t[i] == items_view(v@)[i] by {}
    assert(t =~= items_view(v@));
}

/// Converts a `toml::Value` into a `TomlNode`, variant for variant (floats and datetimes are
/// carried as `Other`).
#[verifier::external_body]
fn node_from_value(v: toml::Value) -> TomlNode {
    match v {
        toml::Value::String(s) => TomlNode::Str(s),
        toml::Value::Integer(i) => TomlNode::Int(i),
        toml::Value::Boolean(b) => TomlNode::Bool(b),
        toml::Value::Array(a) => TomlNode::Array(a.into_iter().map(node_from_value).collect()),
        toml::Value::Table(t) => TomlNode::Table(
            t.into_iter().map(|(k, x)| (k, node_from_value(x))).collect(),
        ),
        other => TomlNode::Other(other),
    }
}

/// Converts a `TomlNode` back into a `toml::Value`, variant for variant.
#[verifier::external_body]
fn value_from_node(n: TomlNode) -> toml::Value {
    match n {
        TomlNode::Str(s) => toml::Value::String(s),
        TomlNode::Int(i) => toml::Value::Integer(i),
        TomlNode::Bool(b) => toml::Value::Boolean(b),
        TomlNode::Array(a) => toml::Value::Array(a.into_iter().map(value_from_node).collect()),
        TomlNode::Table(e) => toml::Value::Table(
            e.into_iter().map(|(k, x)| (k, value_from_node(x))).collect(),
        ),
        TomlNode::Other(v) => v,
    }
}

/// What toml's document parser (`str::parse::<toml::Value>`, i.e. `toml::from_str`) gives for a
/// text: the document, or the parser's error message.
pub uninterp spec fn toml_parse_document(raw: Seq<char>) -> Result<TomlView, Seq<char>>;

/// Parses a TOML document with `toml::Value`'s `FromStr`. The contract claims only that the
/// outcome is the named function of the text; the message is the error's `Display`.
#[verifier::external_body]
fn parse_document(raw: &str) -> (r: Result<TomlNode, String>)
    ensures
        toml_parse_document(raw@) == match r {
            Ok(n) => Ok::<TomlView, Seq<char>>(node_view(n)),
            Err(m) => Err::<TomlView, Seq<char>>(m@),
        },
{
    match raw.parse::<toml::Value>() {
        Ok(v) => Ok(node_from_value(v)),
        Err(e) => Err(e.to_string()),
    }
}

/// What `toml::to_string_pretty` gives for a document: its text, or the serializer's message.
pub uninterp spec fn toml_render_pretty(doc: TomlView) -> Result<Seq<char>, Seq<char>>;

/// Writes a document out with `toml::to_string_pretty`. The contract claims only that the
/// outcome is the named function of the document; the message is the error's `Display`.
#[verifier::external_body]
fn render_document(doc: TomlNode) -> (r: Result<String, String>)
    ensures
        toml_render_pretty(node_view(doc)) == match r {
            Ok(t) => Ok::<Seq<char>, Seq<char>>(t@),
            Err(m) => Err::<Seq<char>, Seq<char>>(m@),
        },
{
    toml::to_string_pretty(&value_from_node(doc)).map_err(|e| e.to_string())
}

/// Position of the first entry with key `k`.
pub open spec fn key_index(e: Seq<(Seq<char>, TomlView)>, k: Seq<char>) -> Option<int>
    decreases e.len(),
{
    if e.len() == 0 {
        None
    } else {
        match key_index(e.drop_last(), k) {
            Some(i) => Some(i),
            None => if e.last().0 == k {
                Some(e.len() - 1)
            } else {
                None
            },
        }
    }
}

proof fn lemma_key_index(e: Seq<(Seq<char>, TomlView)>, k: Seq<char>, t: int)
    requires
        0 <= t <= e.len(),
        forall|j: int| 0 <= j < t ==> #[trigger] e[j].0 != k,
        t == e.len() || e[t].0 == k,
    ensures
        key_index(e, k) == if t == e.len() {
            None::<int>
        } else {
            Some(t)
        },
    decreases e.len(),
{
    if e.len() > 0 {
        if t == e.len() {
            lemma_key_index(e.drop_last(), k, t - 1);
        } else {
            assert forall|j: int| 0 <= j < t implies #[trigger] e.drop_last()[j].0 != k by {
                assert(e.drop_last()[j] == e[j]);
            }
            if t < e.len() - 1 {
                assert(e.drop_last()[t] == e[t]);
                lemma_key_index(e.drop_last(), k, t);
            } else {
                lemma_key_index(e.drop_last(), k, t);
            }
        }
    }
}

proof fn lemma_key_index_found(e: Seq<(Seq<char>, TomlView)>, k: Seq<char>)
    ensures
        key_index(e, k) matches Some(t) ==> 0 <= t < e.len() && e[t].0 == k && forall|j: int|
            0 <= j < t ==> #[trigger] e[j].0 != k,
        key_index(e, k) is None ==> forall|j: int| 0 <= j < e.len() ==> #[trigger] e[j].0 != k,
    decreases e.len(),
{
    if e.len() > 0 {
        lemma_key_index_found(e.drop_last(), k);
        assert forall|j: int| 0 <= j < e.len() - 1 implies e.drop_last()[j] == #[trigger] e[j] by {}
    }
}

/// Replacing the value of an entry keeps every key's position.
proof fn lemma_key_index_update(
    e: Seq<(Seq<char>, TomlView)>,
    i: int,
    v: TomlView,
    k: Seq<char>,
)
    requires
        0 <= i < e.len(),
    ensures
        key_index(e.update(i, (e[i].0, v)), k) == key_index(e, k),
{
    let u = e.update(i, (e[i].0, v));
    lemma_key_index_found(e, k);
    assert forall|j: int| 0 <= j < e.len() implies #[trigger] u[j].0 == e[j].0 by {}
    match key_index(e, k) {
        Some(t) => {
            assert forall|j: int| 0 <= j < t implies #[trigger] u[j].0 != k by {
                assert(u[j].0 == e[j].0);
            }
            lemma_key_index(u, k, t);
        },
        None => {
            assert forall|j: int| 0 <= j < u.len() implies #[trigger] u[j].0 != k by {
                assert(u[j].0 == e[j].0);
            }
            lemma_key_index(u, k, u.len() as int);
        },
    }
}

/// After `ensure_key`, the key is found at the position it reports.
proof fn lemma_ensure_key_found(e: Seq<(Seq<char>, TomlView)>, k: Seq<char>, d: TomlView)
    ensures
        key_index(ensure_key(e, k, d).0, k) == Some(ensure_key(e, k, d).1),
        0 <= ensure_key(e, k, d).1 < ensure_key(e, k, d).0.len(),
        ensure_key(e, k, d).0[ensure_key(e, k, d).1].0 == k,
{
    lemma_key_index_found(e, k);
    if key_index(e, k) is None {
        let p = e.push((k, d));
        assert forall|j: int| 0 <= j < e.len() implies #[trigger] p[j].0 != k by {
            assert(p[j] == e[j]);
        }
        lemma_key_index(p, k, e.len() as int);
    }
}

/// The entries with key `k` present (a `default` entry appended when missing), and its position.
pub open spec fn ensure_key(e: Seq<(Seq<char>, TomlView)>, k: Seq<char>, default: TomlView) -> (
    Seq<(Seq<char>, TomlView)>,
    int,
) {
    match key_index(e, k) {
        Some(i) => (e, i),
        None => (e.push((k, default)), e.len() as int),
    }
}

/// Some item of the array is a string equal to `name` up to ASCII case.
pub open spec fn contains_name(items: Seq<TomlView>, name: Seq<char>) -> bool {
    exists|i: int|
        0 <= i < items.len() && (#[trigger] items[i] matches TomlView::Str(s)
            && eq_ignore_ascii_case_spec(s, name))
}

/// Message when the document root is not a table.
pub const ROOT_NOT_TABLE_MSG: &'static str = "config root must be a table";

/// Append `name` to the string array `key` of table `section` in a config document (`None`
/// for a file that does not exist yet, which starts with `config_version = 1`). Missing tables
/// and arrays are created; `Ok(None)` when the name is already listed (ASCII case ignored);
/// an error text when the root, the section or the key has the wrong type.
pub open spec fn append_name_spec(
    doc: Option<TomlView>,
    section: Seq<char>,
    key: Seq<char>,
    name: Seq<char>,
) -> Result<Option<TomlView>, Seq<char>> {
    let root = match doc {
        Some(d) => d,
        None => TomlView::Table(seq![]),
    };
    match root {
        TomlView::Table(e0) => {
            let e1 = if doc is None {
                e0.push(("config_version"@, TomlView::Int(1)))
            } else {
                e0
            };
            let (e2, si) = ensure_key(e1, section, TomlView::Table(seq![]));
            match e2[si].1 {
                TomlView::Table(s0) => {
                    let (s1, ki) = ensure_key(s0, key, TomlView::Array(seq![]));
                    match s1[ki].1 {
                        TomlView::Array(items) => if contains_name(items, name) {
                            Ok(None)
                        } else {
                            Ok(
                                Some(
                                    TomlView::Table(
                                        e2.update(
                                            si,
                                            (
                                                e2[si].0,
                                                TomlView::Table(
                                                    s1.update(
                                                        ki,
                                                        (
                                                            s1[ki].0,
                                                            TomlView::Array(
                                                                items.push(TomlView::Str(name)),
                                                            ),
                                                        ),
                                                    ),
                                                ),
                                            ),
                                        ),
                                    ),
                                ),
                            )
                        },
                        _ => Err(key + " must be an array"@),
                    }
                },
                _ => Err("["@ + section + "] must be a table"@),
            }
        },
        _ => Err(ROOT_NOT_TABLE_MSG@),
    }
}

fn find_key(e: &Vec<(String, TomlNode)>, k: &str) -> (r: Option<usize>)
    ensures
        match r {
            Some(i) => key_index(entries_view(e@), k@) == Some(i as int) && (i as int) < e@.len(),
            None => key_index(entries_view(e@), k@) is None,
        },
{
    let ghost ev = entries_view(e@);
    let mut i: usize = 0;
    while i < e.len()
        invariant
            i <= e@.len(),
            ev == entries_view(e@),
            forall|j: int| 0 <= j < i ==> #[trigger] ev[j].0 != k@,
        decreases e@.len() - i,
    {
        if str_eq(e[i].0.as_str(), k) {
            proof {
                lemma_key_index(ev, k@, i as int);
            }
            return Some(i);
        }
        i = i + 1;
    }
    proof {
        lemma_key_index(ev, k@, i as int);
    }
    None
}

fn ensure_key_exec(e: &mut Vec<(String, TomlNode)>, k: &str, default: TomlNode) -> (r: usize)
    ensures
        (entries_view(final(e)@), r as int) == ensure_key(
            entries_view(old(e)@),
            k@,
            node_view(default),
        ),
        (r as int) < final(e)@.len(),
{
    match find_key(e, k) {
        Some(i) => {
            assert(key_index(entries_view(e@), k@) == Some(i as int));
            i
        },
        None => {
            let ghost before = e@;
            assert(key_index(entries_view(before), k@) is None);
            e.push((to_owned_string(k), default));
            assert(entries_view(e@) =~= entries_view(before).push((k@, node_view(default))));
            e.len() - 1
        },
    }
}

fn items_contain_name(items: &Vec<TomlNode>, name: &str) -> (r: bool)
    ensures
        r == contains_name(items_view(items@), name@),
{
    let ghost iv = items_view(items@);
    let mut i: usize = 0;
    while i < items.len()
        invariant
            i <= items@.len(),
            iv == items_view(items@),
            forall|j: int|
                0 <= j < i ==> !(#[trigger] iv[j] matches TomlView::Str(s)
                    && eq_ignore_ascii_case_spec(s, name@)),
        decreases items@.len() - i,
    {
        match &items[i] {
            TomlNode::Str(s) => {
                if eq_ignore_ascii_case(s.as_str(), name) {
                    assert(iv[i as int] == TomlView::Str(s@));
                    return true;
                }
            },
            _ => {},
        }
        i = i + 1;
    }
    false
}

fn msg(s: String) -> (r: AppError)
    ensures
        msg_error(r, s@),
{
    AppError::Msg(s)
}

/// Append `name` to `[section].key` in a parsed config document (see [`append_name_spec`]).
pub fn add_name_to_document(doc: Option<TomlNode>, section: &str, key: &str, name: &str) -> (r:
    Result<Option<TomlNode>, AppError>)
    ensures
        ({
            let spec = append_name_spec(
                match doc {
                    Some(d) => Some(node_view(d)),
                    None => None,
                },
                section@,
                key@,
                name@,
            );
            match r {
                Ok(None) => spec == Ok::<Option<TomlView>, Seq<char>>(None),
                Ok(Some(n)) => spec == Ok::<Option<TomlView>, Seq<char>>(Some(node_view(n))),
                Err(e) => spec is Err && msg_error(e, spec->Err_0),
            }
        }),
{
    let fresh = doc.is_none();
    let root = match doc {
        Some(d) => d,
        None => {
            let ev: Vec<(String, TomlNode)> = Vec::new();
            proof {
                lemma_table_view(ev);
                assert(entries_view(ev@) =~= seq![]);
            }
            TomlNode::Table(ev)
        },
    };
    let mut entries = match root {
        TomlNode::Table(e) => {
            proof {
                lemma_table_view(e);
            }
            e
        },
        _ => return Err(msg(to_owned_string(ROOT_NOT_TABLE_MSG))),
    };
    let ghost e0 = entries_view(entries@);
    if fresh {
        entries.push((to_owned_string("config_version"), TomlNode::Int(1)));
        assert(entries_view(entries@) =~= e0.push(("config_version"@, TomlView::Int(1))));
    }
    let ghost e1 = entries_view(entries@);
    let ghost empty_table = TomlView::Table(seq![]);
    let new_table: Vec<(String, TomlNode)> = Vec::new();
    proof {
        lemma_table_view(new_table);
        assert(entries_view(new_table@) =~= seq![]);
    }
    let si = ensure_key_exec(&mut entries, section, TomlNode::Table(new_table));
    let ghost e2 = entries_view(entries@);
    let ghost raw_entries = entries@;
    let mut slot = (String::new(), TomlNode::Bool(false));
    entries.set_and_swap(si, &mut slot);
    let (sec_name, sec_val) = slot;
    assert(e2[si as int].1 == node_view(sec_val));
    let mut sec = match sec_val {
        TomlNode::Table(v) => {
            proof {
                lemma_table_view(v);
            }
            v
        },
        _ => {
            let mut m = to_owned_string("[");
            m.append(section);
            m.append("] must be a table");
            return Err(msg(m));
        },
    };
    let ghost s0 = entries_view(sec@);
    let new_array: Vec<TomlNode> = Vec::new();
    proof {
        lemma_array_view(new_array);
        assert(items_view(new_array@) =~= seq![]);
    }
    let ki = ensure_key_exec(&mut sec, key, TomlNode::Array(new_array));
    let ghost s1 = entries_view(sec@);
    let mut slot2 = (String::new(), TomlNode::Bool(false));
    sec.set_and_swap(ki, &mut slot2);
    let (key_name, key_val) = slot2;
    assert(s1[ki as int].1 == node_view(key_val));
    let mut items = match key_val {
        TomlNode::Array(v) => {
            proof {
                lemma_array_view(v);
            }
            v
        },
        _ => {
            let mut m = to_owned_string(key);
            m.append(" must be an array");
            return Err(msg(m));
        },
    };
    let ghost iv = items_view(items@);
    if items_contain_name(&items, name) {
        return Ok(None);
    }
    items.push(TomlNode::Str(to_owned_string(name)));
    assert(items_view(items@) =~= iv.push(TomlView::Str(name@)));
    let new_key_val = TomlNode::Array(items);
    proof {
        lemma_array_view(items);
    }
    sec.set(ki, (key_name, new_key_val));
    assert(entries_view(sec@) =~= s1.update(ki as int, (s1[ki as int].0, TomlView::Array(iv.push(TomlView::Str(name@))))));
    let new_sec = TomlNode::Table(sec);
    proof {
        lemma_table_view(sec);
    }
    entries.set(si, (sec_name, new_sec));
    assert(entries_view(entries@) =~= e2.update(si as int, (e2[si as int].0, node_view(new_sec))));
    let out = TomlNode::Table(entries);
    proof {
        lemma_table_view(entries);
    }
    Ok(Some(out))
}

/// The outcome of appending `name` to `[section].key` in a config file whose current text is
/// `existing` (`None`: no file yet), shown as `path` in messages: the new text to write,
/// `Ok(None)` when nothing changes, or the error.
pub open spec fn append_text_outcome(
    existing: Option<Seq<char>>,
    path: Seq<char>,
    section: Seq<char>,
    key: Seq<char>,
    name: Seq<char>,
    r: Result<Option<String>, AppError>,
) -> bool {
    let parsed = match existing {
        Some(raw) => match toml_parse_document(raw) {
            Ok(d) => Ok(Some(d)),
            Err(m) => Err(m),
        },
        None => Ok(None),
    };
    match parsed {
        Err(m) => r is Err && msg_error(r->Err_0, path + ": "@ + m),
        Ok(dv) => match append_name_spec(dv, section, key, name) {
            Err(m) => r is Err && msg_error(r->Err_0, m),
            Ok(None) => r == Ok::<Option<String>, AppError>(None),
            Ok(Some(d1)) => match toml_render_pretty(d1) {
                Ok(t) => r matches Ok(Some(out)) && out@ == t,
                Err(m) => r matches Err(AppError::TomlSer(e)) && e@ == m,
            },
        },
    }
}

/// Append `name` to `[section].key` in a config file's text (`None` when the file does not
/// exist). Returns the text to write, or `None` when the name is already listed.
pub fn append_name_to_config_text(
    existing: Option<&str>,
    path: &str,
    section: &str,
    key: &str,
    name: &str,
) -> (r: Result<Option<String>, AppError>)
    ensures
        append_text_outcome(
            match existing {
                Some(t) => Some(t@),
                None => None,
            },
            path@,
            section@,
            key@,
            name@,
            r,
        ),
{
    let doc = match existing {
        Some(raw) => match parse_document(raw) {
            Ok(n) => Some(n),
            Err(m) => {
                let mut out = to_owned_string(path);
                out.append(": ");
                out.append(m.as_str());
                return Err(msg(out));
            },
        },
        None => None,
    };
    match add_name_to_document(doc, section, key, name) {
        Err(e) => Err(e),
        Ok(None) => Ok(None),
        Ok(Some(d1)) => match render_document(d1) {
            Ok(t) => Ok(Some(t)),
            Err(m) => Err(AppError::TomlSer(m)),
        },
    }
}

/// Appending a name is idempotent: once an append has produced a new document, appending the
/// same name to that document again changes nothing.
pub proof fn lemma_append_idempotent(
    doc: Option<TomlView>,
    section: Seq<char>,
    key: Seq<char>,
    name: Seq<char>,
    d1: TomlView,
)
    requires
        append_name_spec(doc, section, key, name) == Ok::<Option<TomlView>, Seq<char>>(Some(d1)),
    ensures
        append_name_spec(Some(d1), section, key, name) == Ok::<Option<TomlView>, Seq<char>>(None),
{
    let root = match doc {
        Some(d) => d,
        None => TomlView::Table(seq![]),
    };
    let e0 = root->Table_0;
    let e1 = if doc is None {
        e0.push(("config_version"@, TomlView::Int(1)))
    } else {
        e0
    };
    let (e2, si) = ensure_key(e1, section, TomlView::Table(seq![]));
    lemma_ensure_key_found(e1, section, TomlView::Table(seq![]));
    let s0 = e2[si].1->Table_0;
    let (s1, ki) = ensure_key(s0, key, TomlView::Array(seq![]));
    lemma_ensure_key_found(s0, key, TomlView::Array(seq![]));
    let items = s1[ki].1->Array_0;
    let items2 = items.push(TomlView::Str(name));
    let s2 = s1.update(ki, (s1[ki].0, TomlView::Array(items2)));
    let e3 = e2.update(si, (e2[si].0, TomlView::Table(s2)));
    assert(d1 == TomlView::Table(e3));
    lemma_key_index_update(e2, si, TomlView::Table(s2), section);
    assert(ensure_key(e3, section, TomlView::Table(seq![])) == (e3, si));
    lemma_key_index_update(s1, ki, TomlView::Array(items2), key);
    assert(ensure_key(s2, key, TomlView::Array(seq![])) == (s2, ki));
    assert(crate::text::ascii_lower_seq(name) =~= crate::text::ascii_lower_seq(name));
    assert(items2[items.len() as int] == TomlView::Str(name));
    assert(contains_name(items2, name));
}

/// At the level of the file's text: once an append has written `text` (the rendering of the new
/// document `d1`), appending the same name to that text again writes nothing, provided toml's
/// parser reads `d1` back from `text`. That read-back is not something the `toml` crate
/// documents, so it stands here as a hypothesis rather than a fact.
pub proof fn lemma_append_text_idempotent(
    doc: Option<TomlView>,
    path: Seq<char>,
    section: Seq<char>,
    key: Seq<char>,
    name: Seq<char>,
    d1: TomlView,
    text: Seq<char>,
    r2: Result<Option<String>, AppError>,
)
    requires
        append_name_spec(doc, section, key, name) == Ok::<Option<TomlView>, Seq<char>>(Some(d1)),
        toml_render_pretty(d1) == Ok::<Seq<char>, Seq<char>>(text),
        toml_parse_document(text) == Ok::<TomlView, Seq<char>>(d1),
        append_text_outcome(Some(text), path, section, key, name, r2),
    ensures
        r2 == Ok::<Option<String>, AppError>(None),
{
    lemma_append_idempotent(doc, section, key, name, d1);
}

} // verus!

//! Interpreters found on the host, as shown to the model and by `clai doctor`.

use vstd::prelude::*;

use crate::schema::opt_str;
use crate::text::to_owned_string;

verus! {

/// Resolved tooling on the host: each field is the usable path when the interpreter was found.
#[derive(Debug, Clone, PartialEq, Eq)]
pub struct RuntimeTooling {
    pub python3: Option<String>,
    pub python: Option<String>,
    pub node: Option<String>,
    pub ruby: Option<String>,
    pub perl: Option<String>,
    pub php: Option<String>,
}

/// A snapshot in which nothing was found.
pub open spec fn is_empty_tooling(t: RuntimeTooling) -> bool {
    &&& t.python3 is None
    &&& t.python is None
    &&& t.node is None
    &&& t.ruby is None
    &&& t.perl is None
    &&& t.php is None
}

/// A snapshot with nothing found.
pub fn empty_tooling() -> (r: RuntimeTooling)
    ensures
        is_empty_tooling(r),
{
    RuntimeTooling { python3: None, python: None, node: None, ruby: None, perl: None, php: None }
}

/// Doctor status text for one interpreter.
pub open spec fn status_spec(path: Option<Seq<char>>) -> Seq<char> {
    match path {
        Some(p) => "yes — "@ + p,
        None => "not found on PATH"@,
    }
}

/// Doctor status text for one interpreter: its path when found.
pub fn status(path: &Option<String>) -> (r: String)
    ensures
        r@ == status_spec(opt_str(*path)),
{
    match path {
        Some(p) => {
            let mut s = to_owned_string("yes — ");
            s.append(p.as_str());
            s
        },
        None => to_owned_string("not found on PATH"),
    }
}

/// The doctor rows: label and status, in a fixed order.
pub open spec fn doctor_rows_spec(t: RuntimeTooling) -> Seq<(Seq<char>, Seq<char>)> {
    seq![
        ("python3"@, status_spec(opt_str(t.python3))),
        ("python"@, status_spec(opt_str(t.python))),
        ("node"@, status_spec(opt_str(t.node))),
        ("ruby"@, status_spec(opt_str(t.ruby))),
        ("perl"@, status_spec(opt_str(t.perl))),
        ("php"@, status_spec(opt_str(t.php))),
    ]
}

impl RuntimeTooling {
    /// Human rows for `clai doctor`: `(label, status)`.
    pub fn doctor_rows(&self) -> (r: Vec<(&'static str, String)>)
        ensures
            r@.map_values(|p: (&'static str, String)| (p.0@, p.1@)) == doctor_rows_spec(*self),
    {
        let mut v: Vec<(&'static str, String)> = Vec::new();
        v.push(("python3", status(&self.python3)));
        v.push(("python", status(&self.python)));
        v.push(("node", status(&self.node)));
        v.push(("ruby", status(&self.ruby)));
        v.push(("perl", status(&self.perl)));
        v.push(("php", status(&self.php)));
        assert(v@.map_values(|p: (&'static str, String)| (p.0@, p.1@)) =~= doctor_rows_spec(*self));
        v
    }
}

/// Tooling for prompts and doctor: the empty snapshot when `detect` is false (without probing),
/// otherwise what `probe` finds.
pub fn runtime_tooling_snapshot<F: FnOnce() -> RuntimeTooling>(detect: bool, probe: F) -> (r:
    RuntimeTooling)
    requires
        detect ==> call_requires(probe, ()),
    ensures
        !detect ==> is_empty_tooling(r),
        detect ==> call_ensures(probe, (), r),
{
    if !detect {
        return empty_tooling();
    }
    probe()
}

} // verus!

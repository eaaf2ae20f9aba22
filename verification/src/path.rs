//! Filesystem paths as sequences of components, and the few `std::path` queries the library
//! makes.

use vstd::prelude::*;

use crate::text::str_eq;

verus! {

/// One component of a path, as `std::path::Component` splits it.
#[derive(Debug)]
pub enum PathPart {
    /// A Windows drive or UNC prefix.
    Prefix(String),
    /// The root separator.
    Root,
    /// `.`
    Cur,
    /// `..`
    Parent,
    /// A file or directory name.
    Normal(String),
}

/// Component kinds, as numbers.
pub open spec fn PREFIX() -> u8 {
    0
}

pub open spec fn ROOT() -> u8 {
    1
}

pub open spec fn CUR() -> u8 {
    2
}

pub open spec fn PARENT() -> u8 {
    3
}

pub open spec fn NORMAL() -> u8 {
    4
}

/// A component as a plain value: its kind and, for a prefix or a name, its text.
pub open spec fn part_view(p: PathPart) -> (u8, Seq<char>) {
    match p {
        PathPart::Prefix(s) => (PREFIX(), s@),
        PathPart::Root => (ROOT(), seq![]),
        PathPart::Cur => (CUR(), seq![]),
        PathPart::Parent => (PARENT(), seq![]),
        PathPart::Normal(s) => (NORMAL(), s@),
    }
}

pub open spec fn parts_view(v: Seq<PathPart>) -> Seq<(u8, Seq<char>)> {
    v.map_values(|p: PathPart| part_view(p))
}

/// Name for the components that `Path::new(p).components()` yields for `p`.
pub uninterp spec fn spec_path_components(p: Seq<char>) -> Seq<(u8, Seq<char>)>;

/// Calls `Path::components`; the contract says only that the parts are the named components of
/// the argument (names converted lossily to UTF-8, which is exact for a path given as `&str`).
#[verifier::external_body]
pub(crate) fn path_components(p: &str) -> (r: Vec<PathPart>)
    ensures
        parts_view(r@) == spec_path_components(p@),
{
    std::path::Path::new(p).components().map(|c| match c {
        std::path::Component::Prefix(x) => PathPart::Prefix(
            x.as_os_str().to_string_lossy().into_owned(),
        ),
        std::path::Component::RootDir => PathPart::Root,
        std::path::Component::CurDir => PathPart::Cur,
        std::path::Component::ParentDir => PathPart::Parent,
        std::path::Component::Normal(x) => PathPart::Normal(x.to_string_lossy().into_owned()),
    }).collect()
}

/// Name for the path `Path::new(base).join(rel)` as a string.
pub uninterp spec fn spec_path_join(base: Seq<char>, rel: Seq<char>) -> Seq<char>;

/// Calls `Path::join`; the contract says only that the result is the named join of the two
/// arguments.
#[verifier::external_body]
pub(crate) fn path_join(base: &str, rel: &str) -> (r: String)
    ensures
        r@ == spec_path_join(base@, rel@),
{
    std::path::Path::new(base).join(rel).to_string_lossy().into_owned()
}

/// Calls `Path::is_file`. What it returns depends on the filesystem at the time of the call, so
/// nothing is stated of it.
#[verifier::external_body]
pub(crate) fn path_is_file(p: &str) -> bool {
    std::path::Path::new(p).is_file()
}

/// `answer` is what `Path::is_file` returned when asked about the path `p`. The filesystem
/// decides it, so nothing more is known of it.
pub closed spec fn is_file_answer(p: Seq<char>, answer: bool) -> bool {
    exists|s: &str| s@ == p && #[trigger] call_ensures(path_is_file, (s,), answer)
}

/// Asks `Path::is_file` about `p`.
pub(crate) fn probe_file(p: &str) -> (r: bool)
    ensures
        is_file_answer(p@, r),
{
    let r = path_is_file(p);
    assert(call_ensures(path_is_file, (p,), r));
    r
}

/// `answer` is what `Path::exists` returned when asked about the path `p`. The filesystem
/// decides it, so nothing more is known of it.
pub closed spec fn exists_answer(p: Seq<char>, answer: bool) -> bool {
    exists|s: &str| s@ == p && #[trigger] call_ensures(path_exists, (s,), answer)
}

/// Asks `Path::exists` about `p`.
pub(crate) fn probe_exists(p: &str) -> (r: bool)
    ensures
        exists_answer(p@, r),
{
    let r = path_exists(p);
    assert(call_ensures(path_exists, (p,), r));
    r
}

/// Asks `Path::is_file` about each of `paths`, in order.
pub(crate) fn probe_files(paths: &Vec<String>) -> (r: Vec<bool>)
    ensures
        r@.len() == paths@.len(),
        forall|k: int| 0 <= k < r@.len() ==> is_file_answer(paths@[k]@, #[trigger] r@[k]),
{
    let mut out: Vec<bool> = Vec::new();
    let mut i: usize = 0;
    while i < paths.len()
        invariant
            i <= paths@.len(),
            out@.len() == i,
            forall|k: int| 0 <= k < i ==> is_file_answer(paths@[k]@, #[trigger] out@[k]),
        decreases paths@.len() - i,
    {
        let s = paths[i].as_str();
        let b = path_is_file(s);
        assert(call_ensures(path_is_file, (s,), b));
        out.push(b);
        i = i + 1;
    }
    out
}

/// Calls `Path::exists`. What it returns depends on the filesystem, so nothing is stated of it.
#[verifier::external_body]
pub(crate) fn path_exists(p: &str) -> bool {
    std::path::Path::new(p).exists()
}

/// One step of lexical normalization: how `PathBuf::push` / `PathBuf::pop` change the parts
/// collected so far when the next component is `p`.
pub open spec fn normalize_step(acc: Seq<(u8, Seq<char>)>, p: (u8, Seq<char>)) -> Seq<
    (u8, Seq<char>),
> {
    if p.0 == PREFIX() {
        seq![p]
    } else if p.0 == ROOT() {
        if acc.len() > 0 && acc[0].0 == PREFIX() {
            seq![acc[0], p]
        } else {
            seq![p]
        }
    } else if p.0 == CUR() {
        acc
    } else if p.0 == PARENT() {
        if acc.len() > 0 && acc.last().0 == NORMAL() {
            acc.drop_last()
        } else {
            acc
        }
    } else {
        acc.push(p)
    }
}

/// Lexical normalization of a component list: `.` dropped, `..` removes the previous name,
/// a root or prefix restarts the path.
pub open spec fn normalize_parts(parts: Seq<(u8, Seq<char>)>) -> Seq<(u8, Seq<char>)>
    decreases parts.len(),
{
    if parts.len() == 0 {
        seq![]
    } else {
        normalize_step(normalize_parts(parts.drop_last()), parts.last())
    }
}

fn clone_part(p: &PathPart) -> (r: PathPart)
    ensures
        part_view(r) == part_view(*p),
{
    match p {
        PathPart::Prefix(s) => PathPart::Prefix(s.clone()),
        PathPart::Root => PathPart::Root,
        PathPart::Cur => PathPart::Cur,
        PathPart::Parent => PathPart::Parent,
        PathPart::Normal(s) => PathPart::Normal(s.clone()),
    }
}

fn is_prefix_part(p: &PathPart) -> (r: bool)
    ensures
        r == (part_view(*p).0 == PREFIX()),
{
    match p {
        PathPart::Prefix(_) => true,
        _ => false,
    }
}

fn is_normal_part(p: &PathPart) -> (r: bool)
    ensures
        r == (part_view(*p).0 == NORMAL()),
{
    match p {
        PathPart::Normal(_) => true,
        _ => false,
    }
}

/// Lexically normalize a list of path components (no filesystem access).
pub fn normalize_parts_exec(parts: &Vec<PathPart>) -> (r: Vec<PathPart>)
    ensures
        parts_view(r@) == normalize_parts(parts_view(parts@)),
{
    let mut out: Vec<PathPart> = Vec::new();
    let mut i: usize = 0;
    while i < parts.len()
        invariant
            i <= parts.len(),
            parts_view(out@) == normalize_parts(parts_view(parts@.subrange(0, i as int))),
        decreases parts.len() - i,
    {
        let ghost acc = parts_view(out@);
        let ghost pv = part_view(parts@[i as int]);
        proof {
            let pre = parts_view(parts@.subrange(0, i + 1));
            assert(pre.drop_last() =~= parts_view(parts@.subrange(0, i as int)));
            assert(pre.last() == pv);
        }
        match &parts[i] {
            PathPart::Prefix(s) => {
                out = Vec::new();
                out.push(PathPart::Prefix(s.clone()));
                assert(parts_view(out@) =~= seq![pv]);
            },
            PathPart::Root => {
                if out.len() > 0 && is_prefix_part(&out[0]) {
                    let first = clone_part(&out[0]);
                    out = Vec::new();
                    out.push(first);
                    out.push(PathPart::Root);
                    assert(parts_view(out@) =~= seq![acc[0], pv]);
                } else {
                    out = Vec::new();
                    out.push(PathPart::Root);
                    assert(parts_view(out@) =~= seq![pv]);
                }
            },
            PathPart::Cur => {},
            PathPart::Parent => {
                let len = out.len();
                if len > 0 && is_normal_part(&out[len - 1]) {
                    out.pop();
                    assert(parts_view(out@) =~= acc.drop_last());
                }
            },
            PathPart::Normal(s) => {
                out.push(PathPart::Normal(s.clone()));
                assert(parts_view(out@) =~= acc.push(pv));
            },
        }
        i = i + 1;
    }
    assert(parts@.subrange(0, i as int) =~= parts@);
    out
}

fn part_eq(a: &PathPart, b: &PathPart) -> (r: bool)
    ensures
        r == (part_view(*a) == part_view(*b)),
{
    match (a, b) {
        (PathPart::Prefix(x), PathPart::Prefix(y)) => str_eq(x.as_str(), y.as_str()),
        (PathPart::Root, PathPart::Root) => true,
        (PathPart::Cur, PathPart::Cur) => true,
        (PathPart::Parent, PathPart::Parent) => true,
        (PathPart::Normal(x), PathPart::Normal(y)) => str_eq(x.as_str(), y.as_str()),
        _ => false,
    }
}

/// `base` is a component-wise prefix of `full` (what `Path::starts_with` tests).
pub open spec fn parts_start_with(full: Seq<(u8, Seq<char>)>, base: Seq<(u8, Seq<char>)>) -> bool {
    base.len() <= full.len() && full.subrange(0, base.len() as int) == base
}

/// Whether the components `base` begin the components `full`.
pub fn parts_starts_with(full: &Vec<PathPart>, base: &Vec<PathPart>) -> (r: bool)
    ensures
        r == parts_start_with(parts_view(full@), parts_view(base@)),
{
    if base.len() > full.len() {
        return false;
    }
    let mut k: usize = 0;
    while k < base.len()
        invariant
            base.len() <= full.len(),
            k <= base.len(),
            forall|t: int| 0 <= t < k ==> part_view(full@[t]) == part_view(base@[t]),
        decreases base.len() - k,
    {
        if !part_eq(&full[k], &base[k]) {
            assert(parts_view(full@).subrange(0, base.len() as int)[k as int] != parts_view(
                base@,
            )[k as int]);
            return false;
        }
        k = k + 1;
    }
    assert(parts_view(full@).subrange(0, base.len() as int) =~= parts_view(base@));
    true
}

/// The final name of a path (what `Path::file_name` returns): the last component when it is a name.
pub open spec fn file_name_spec(p: Seq<char>) -> Option<Seq<char>> {
    let parts = spec_path_components(p);
    if parts.len() > 0 && parts.last().0 == NORMAL() {
        Some(parts.last().1)
    } else {
        None
    }
}

/// The final name of `p`, when the path ends in one.
pub fn file_name(p: &str) -> (r: Option<String>)
    ensures
        crate::schema::opt_str(r) == file_name_spec(p@),
{
    let parts = path_components(p);
    let n = parts.len();
    if n == 0 {
        return None;
    }
    assert(parts_view(parts@).last() == part_view(parts@[n - 1]));
    match &parts[n - 1] {
        PathPart::Normal(s) => Some(s.clone()),
        _ => None,
    }
}

} // verus!

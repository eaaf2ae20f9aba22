//! In-memory session history: which request lines are kept for recall, within a count cap and a
//! character budget.

use std::collections::VecDeque;

use vstd::prelude::*;
use vstd::string::*;

use crate::text::{str_eq, to_owned_string, trim, trim_spec};

verus! {

/// Default cap for retained lines when config does not override.
pub const DEFAULT_HISTORY_MAX_ENTRIES: usize = 1000;

/// Minimum configurable cap; smaller values are raised to it.
pub const MIN_HISTORY_MAX_ENTRIES: usize = 100;

/// Upper bound on total retained character data.
pub const MAX_HISTORY_CHARS_BUDGET: usize = 4194304;

/// The configured history cap, raised to the minimum.
pub fn sanitize_history_max_entries(n: usize) -> (r: usize)
    ensures
        r == if n < MIN_HISTORY_MAX_ENTRIES {
            MIN_HISTORY_MAX_ENTRIES
        } else {
            n
        },
{
    if n < MIN_HISTORY_MAX_ENTRIES {
        MIN_HISTORY_MAX_ENTRIES
    } else {
        n
    }
}

/// Total number of characters in a list of lines.
pub open spec fn char_total(l: Seq<Seq<char>>) -> int
    decreases l.len(),
{
    if l.len() == 0 {
        0
    } else {
        l[0].len() + char_total(l.drop_first())
    }
}

/// Drop the oldest lines until at most `max_entries` remain.
pub open spec fn keep_newest(l: Seq<Seq<char>>, max_entries: int) -> Seq<Seq<char>> {
    if l.len() > max_entries {
        l.subrange(l.len() - max_entries, l.len() as int)
    } else {
        l
    }
}

/// Drop the oldest lines until their characters fit in `max_chars` (or none are left).
pub open spec fn fit_chars(l: Seq<Seq<char>>, max_chars: int) -> Seq<Seq<char>>
    decreases l.len(),
{
    if l.len() > 0 && char_total(l) > max_chars {
        fit_chars(l.drop_first(), max_chars)
    } else {
        l
    }
}

/// The history after a new line `t` is appended and the oldest lines are evicted to the limits.
pub open spec fn after_push(
    l: Seq<Seq<char>>,
    t: Seq<char>,
    max_entries: int,
    max_chars: int,
) -> Seq<Seq<char>> {
    fit_chars(keep_newest(l.push(t), max_entries), max_chars)
}

/// Whether a request line is stored: its trimmed text is non-empty and differs from the newest
/// stored line.
pub open spec fn qualifies(l: Seq<Seq<char>>, line: Seq<char>) -> bool {
    let t = trim_spec(line);
    t.len() > 0 && !(l.len() > 0 && l.last() == t)
}

/// Retained session history lines.
#[derive(Debug)]
pub struct InteractiveHistoryStore {
    entries: VecDeque<String>,
    total_chars: usize,
    max_entries: usize,
    max_chars: usize,
}

pub open spec fn lines_of(v: Seq<String>) -> Seq<Seq<char>> {
    v.map_values(|s: String| s@)
}

impl View for InteractiveHistoryStore {
    type V = Seq<Seq<char>>;

    closed spec fn view(&self) -> Seq<Seq<char>> {
        lines_of(self.entries@)
    }
}

proof fn lemma_char_total_push(l: Seq<Seq<char>>, x: Seq<char>)
    ensures
        char_total(l.push(x)) == char_total(l) + x.len(),
    decreases l.len(),
{
    assert(l.push(x)[0] == if l.len() > 0 { l[0] } else { x });
    let p = l.push(x);
    assert(char_total(p) == p[0].len() + char_total(p.drop_first()));
    if l.len() > 0 {
        assert(p.drop_first() =~= l.drop_first().push(x));
        lemma_char_total_push(l.drop_first(), x);
        assert(char_total(l) == l[0].len() + char_total(l.drop_first()));
    } else {
        assert(p.drop_first() =~= seq![]);
        assert(char_total(p.drop_first()) == 0);
        assert(char_total(l) == 0);
    }
}

proof fn lemma_char_total_nonneg(l: Seq<Seq<char>>)
    ensures
        char_total(l) >= 0,
        l.len() > 0 ==> char_total(l) >= l[0].len(),
    decreases l.len(),
{
    if l.len() > 0 {
        lemma_char_total_nonneg(l.drop_first());
    }
}

proof fn lemma_fit_chars_shrinks(l: Seq<Seq<char>>, max_chars: int)
    ensures
        fit_chars(l, max_chars).len() <= l.len(),
        fit_chars(l, max_chars) == l.subrange(l.len() - fit_chars(l, max_chars).len(), l.len() as int),
        fit_chars(l, max_chars).len() == 0 || char_total(fit_chars(l, max_chars)) <= max_chars,
    decreases l.len(),
{
    if l.len() > 0 && char_total(l) > max_chars {
        lemma_fit_chars_shrinks(l.drop_first(), max_chars);
        let f = fit_chars(l.drop_first(), max_chars);
        assert(l.drop_first().subrange(l.drop_first().len() - f.len(), l.drop_first().len() as int)
            =~= l.subrange(l.len() - f.len(), l.len() as int));
    } else {
        assert(l.subrange(0, l.len() as int) =~= l);
    }
}

/// Adjacent stored lines differ.
pub open spec fn no_adjacent_duplicates(l: Seq<Seq<char>>) -> bool {
    forall|i: int| 0 <= i < l.len() - 1 ==> #[trigger] l[i] != l[i + 1]
}

/// Every stored line is non-empty and already trimmed.
pub open spec fn all_trimmed(l: Seq<Seq<char>>) -> bool {
    forall|i: int| 0 <= i < l.len() ==> #[trigger] l[i].len() > 0 && trim_spec(l[i]) == l[i]
}

proof fn lemma_trim_idempotent(s: Seq<char>)
    ensures
        trim_spec(trim_spec(s)) == trim_spec(s),
{
    lemma_trim_start_fixed(s);
    lemma_trim_start_first(s);
    lemma_trim_end_fixed(crate::text::trim_start_spec(s));
    lemma_trim_start_of_end(crate::text::trim_start_spec(s));
}

proof fn lemma_trim_start_first(s: Seq<char>)
    ensures
        crate::text::trim_start_spec(s).len() == 0 || !crate::text::is_ws(
            crate::text::trim_start_spec(s)[0],
        ),
    decreases s.len(),
{
    if s.len() > 0 && crate::text::is_ws(s[0]) {
        lemma_trim_start_first(s.drop_first());
    }
}

proof fn lemma_trim_start_fixed(s: Seq<char>)
    ensures
        crate::text::trim_start_spec(crate::text::trim_start_spec(s))
            == crate::text::trim_start_spec(s),
    decreases s.len(),
{
    if s.len() > 0 && crate::text::is_ws(s[0]) {
        lemma_trim_start_fixed(s.drop_first());
    }
}

proof fn lemma_trim_end_fixed(s: Seq<char>)
    ensures
        crate::text::trim_end_spec(crate::text::trim_end_spec(s))
            == crate::text::trim_end_spec(s),
    decreases s.len(),
{
    if s.len() > 0 && crate::text::is_ws(s.last()) {
        lemma_trim_end_fixed(s.drop_last());
    }
}

/// Trimming the end of a string whose start is already trimmed leaves its start trimmed.
proof fn lemma_trim_start_of_end(s: Seq<char>)
    requires
        s.len() == 0 || !crate::text::is_ws(s[0]),
    ensures
        crate::text::trim_start_spec(crate::text::trim_end_spec(s)) == crate::text::trim_end_spec(
            s,
        ),
    decreases s.len(),
{
    if s.len() > 0 && crate::text::is_ws(s.last()) {
        if s.len() > 1 {
            assert(s.drop_last()[0] == s[0]);
        }
        lemma_trim_start_of_end(s.drop_last());
    }
}

impl InteractiveHistoryStore {
    /// Internal consistency: the running character count matches the stored lines, and both
    /// limits hold.
    pub closed spec fn wf(&self) -> bool {
        &&& self.total_chars == char_total(self@)
        &&& self@.len() <= self.max_entries
        &&& char_total(self@) <= self.max_chars
        &&& no_adjacent_duplicates(self@)
        &&& all_trimmed(self@)
    }

    pub closed spec fn max_entries_spec(&self) -> int {
        self.max_entries as int
    }

    pub closed spec fn max_chars_spec(&self) -> int {
        self.max_chars as int
    }

    /// An empty history keeping at most `max_entries` lines within the default character budget.
    pub fn new(max_entries: usize) -> (r: Self)
        ensures
            r.wf(),
            r@ == Seq::<Seq<char>>::empty(),
            r.max_entries_spec() == max_entries,
            r.max_chars_spec() == MAX_HISTORY_CHARS_BUDGET,
    {
        Self::with_limits(max_entries, MAX_HISTORY_CHARS_BUDGET)
    }

    /// An empty history with explicit count and character limits.
    pub fn with_limits(max_entries: usize, max_chars: usize) -> (r: Self)
        ensures
            r.wf(),
            r@ == Seq::<Seq<char>>::empty(),
            r.max_entries_spec() == max_entries,
            r.max_chars_spec() == max_chars,
    {
        let r = Self { entries: VecDeque::new(), total_chars: 0, max_entries, max_chars };
        assert(r@ =~= Seq::<Seq<char>>::empty());
        r
    }

    /// Append a qualifying trimmed request line; returns `true` exactly when it was stored, i.e.
    /// is now the newest entry. Empty lines and repeats of the newest line are not stored; the
    /// oldest lines are evicted to stay within the count cap and the character budget. A line
    /// that alone exceeds the budget (or any line when the cap is 0) is evicted with all the
    /// others, and `false` is returned.
    #[verifier::spinoff_prover]
    #[verifier::rlimit(40)]
    pub fn push_qualifying(&mut self, line: &str) -> (r: bool)
        requires
            old(self).wf(),
        ensures
            final(self).wf(),
            final(self).max_entries_spec() == old(self).max_entries_spec(),
            final(self).max_chars_spec() == old(self).max_chars_spec(),
            qualifies(old(self)@, line@) ==> final(self)@ == after_push(
                old(self)@,
                trim_spec(line@),
                old(self).max_entries_spec(),
                old(self).max_chars_spec(),
            ),
            !qualifies(old(self)@, line@) ==> final(self)@ == old(self)@,
            r == (qualifies(old(self)@, line@) && after_push(
                old(self)@,
                trim_spec(line@),
                old(self).max_entries_spec(),
                old(self).max_chars_spec(),
            ).len() > 0),
            r ==> final(self)@.len() > 0 && final(self)@.last() == trim_spec(line@),
    {
        let ghost l0 = self@;
        let ghost me = self.max_entries as int;
        let ghost mc = self.max_chars as int;
        let trimmed = trim(line);
        let ghost t = trimmed@;
        let n = trimmed.unicode_len();
        if n == 0 {
            return false;
        }
        let len = self.entries.len();
        if len > 0 {
            assert(self@.last() == self.entries@[len - 1]@);
            if str_eq(self.entries[len - 1].as_str(), trimmed) {
                return false;
            }
        }
        let ghost pushed = l0.push(t);
        proof {
            lemma_trim_idempotent(line@);
            lemma_char_total_push(l0, t);
        }
        if self.max_entries == 0 || n > self.max_chars {
            // Every line, the new one included, is evicted.
            proof {
                let k = keep_newest(pushed, me);
                if me == 0 {
                    assert(k =~= seq![]);
                } else {
                    if pushed.len() <= me {
                        assert(pushed.subrange(0, pushed.len() as int) =~= pushed);
                    }
                    self.lemma_all_out(pushed, k, t);
                }
            }
            self.entries = VecDeque::new();
            self.total_chars = 0;
            assert(self@ =~= seq![]);
            return false;
        }
        // Evict by count: keep at most `max_entries - 1` old lines.
        while self.entries.len() >= self.max_entries
            invariant
                self.max_entries == me,
                self.max_chars == mc,
                me >= 1,
                n == t.len(),
                0 < n <= mc,
                self.total_chars == char_total(self@),
                char_total(self@) <= mc,
                no_adjacent_duplicates(self@),
                all_trimmed(self@),
                self@.len() <= l0.len(),
                self@ == l0.subrange(l0.len() - self@.len(), l0.len() as int),
                self@.len() >= me - 1 || self@ == l0,
            decreases self.entries.len(),
        {
            let ghost before = self@;
            let front = self.entries.pop_front();
            let ghost f = front->0;
            proof {
                assert(self@ =~= before.drop_first());
                assert(before[0] == f@);
                lemma_char_total_nonneg(before);
            }
            let fl = front.unwrap().unicode_len();
            self.total_chars = self.total_chars - fl;
            proof {
                assert(l0.subrange(l0.len() - before.len(), l0.len() as int).drop_first()
                    =~= l0.subrange(l0.len() - self@.len(), l0.len() as int));
                assert forall|i: int| 0 <= i < self@.len() - 1 implies #[trigger] self@[i]
                    != self@[i + 1] by {
                    assert(self@[i] == before[i + 1]);
                    assert(self@[i + 1] == before[i + 2]);
                }
                assert forall|i: int| 0 <= i < self@.len() implies #[trigger] self@[i].len() > 0
                    && trim_spec(self@[i]) == self@[i] by {
                    assert(self@[i] == before[i + 1]);
                }
            }
        }
        let ghost after_count = self@;
        proof {
            if self@.len() == l0.len() {
                assert(l0.subrange(0, l0.len() as int) =~= l0);
            }
            if l0.len() >= me {
                assert(self@.len() == me - 1);
                assert(keep_newest(pushed, me) =~= self@.push(t));
            } else {
                assert(self@ == l0);
                assert(keep_newest(pushed, me) =~= self@.push(t));
            }
        }
        // Evict by characters: room for the new line.
        while self.total_chars > self.max_chars - n
            invariant
                self.max_entries == me,
                self.max_chars == mc,
                me >= 1,
                n == t.len(),
                0 < n <= mc,
                self.total_chars == char_total(self@),
                no_adjacent_duplicates(self@),
                all_trimmed(self@),
                self@.len() < me,
                self@.len() <= after_count.len(),
                self@ == after_count.subrange(
                    after_count.len() - self@.len(),
                    after_count.len() as int,
                ),
                fit_chars(keep_newest(pushed, me), mc) == fit_chars(self@.push(t), mc),
            decreases self.entries.len(),
        {
            let ghost before = self@;
            proof {
                lemma_char_total_nonneg(before);
                if before.len() == 0 {
                    assert(char_total(before) == 0);
                }
                lemma_char_total_push(before, t);
                assert(before.push(t).drop_first() =~= before.drop_first().push(t));
            }
            let front = self.entries.pop_front();
            let ghost f = front->0;
            proof {
                assert(self@ =~= before.drop_first());
                assert(before[0] == f@);
            }
            let fl = front.unwrap().unicode_len();
            self.total_chars = self.total_chars - fl;
            proof {
                assert(after_count.subrange(
                    after_count.len() - before.len(),
                    after_count.len() as int,
                ).drop_first() =~= after_count.subrange(
                    after_count.len() - self@.len(),
                    after_count.len() as int,
                ));
                assert forall|i: int| 0 <= i < self@.len() - 1 implies #[trigger] self@[i]
                    != self@[i + 1] by {
                    assert(self@[i] == before[i + 1]);
                    assert(self@[i + 1] == before[i + 2]);
                }
                assert forall|i: int| 0 <= i < self@.len() implies #[trigger] self@[i].len() > 0
                    && trim_spec(self@[i]) == self@[i] by {
                    assert(self@[i] == before[i + 1]);
                }
            }
        }
        let ghost kept = self@;
        proof {
            lemma_char_total_push(kept, t);
            lemma_char_total_nonneg(kept.push(t));
            assert(!(kept.push(t).len() > 0 && char_total(kept.push(t)) > mc));
            assert(fit_chars(kept.push(t), mc) == kept.push(t));
            // The newest kept line is the newest old line, which differs from the new line.
            if kept.len() > 0 {
                assert(kept.last() == l0.last());
            }
        }
        self.entries.push_back(to_owned_string(trimmed));
        self.total_chars = self.total_chars + n;
        proof {
            assert(self@ =~= kept.push(t));
            assert forall|i: int| 0 <= i < self@.len() - 1 implies #[trigger] self@[i]
                != self@[i + 1] by {
                if i + 1 < kept.len() {
                    assert(self@[i] == kept[i]);
                    assert(self@[i + 1] == kept[i + 1]);
                }
            }
        }
        true
    }

    proof fn lemma_all_out(&self, pushed: Seq<Seq<char>>, k: Seq<Seq<char>>, t: Seq<char>)
        requires
            pushed.len() > 0,
            pushed.last() == t,
            k.len() > 0,
            k.len() <= pushed.len(),
            k == pushed.subrange(pushed.len() - k.len(), pushed.len() as int),
            t.len() > self.max_chars,
        ensures
            fit_chars(k, self.max_chars as int) =~= seq![],
    {
        lemma_fit_chars_shrinks(k, self.max_chars as int);
        let f = fit_chars(k, self.max_chars as int);
        if f.len() > 0 {
            assert(f[f.len() - 1] == k[k.len() - 1]);
            assert(k[k.len() - 1] == pushed[pushed.len() - 1]);
            assert(f.last() == t);
            lemma_char_total_last(f);
        }
    }

    /// Every history respects both limits, never holds the same line twice in a row, and holds
    /// only non-empty trimmed lines. Well-formedness is what `new` and `with_limits` establish and
    /// `push_qualifying` keeps, so this holds of every store reached by those calls.
    pub proof fn lemma_limits_hold(&self)
        requires
            self.wf(),
        ensures
            self@.len() <= self.max_entries_spec(),
            char_total(self@) <= self.max_chars_spec(),
            no_adjacent_duplicates(self@),
            all_trimmed(self@),
    {
    }

    /// Number of retained lines.
    pub fn len_entries(&self) -> (r: usize)
        ensures
            r == self@.len(),
    {
        self.entries.len()
    }

    /// The retained lines, oldest first.
    pub fn entries(&self) -> (r: Vec<String>)
        ensures
            lines_of(r@) == self@,
    {
        let mut out: Vec<String> = Vec::new();
        let mut i: usize = 0;
        while i < self.entries.len()
            invariant
                i <= self.entries@.len(),
                out@.len() == i,
                forall|k: int| 0 <= k < i ==> #[trigger] out@[k]@ == self.entries@[k]@,
            decreases self.entries@.len() - i,
        {
            out.push(self.entries[i].clone());
            i = i + 1;
        }
        assert(lines_of(out@) =~= lines_of(self.entries@));
        out
    }
}

/// The newest line of the history after a push is the pushed line, unless everything was evicted.
proof fn lemma_after_push_last(l: Seq<Seq<char>>, t: Seq<char>, me: int, mc: int)
    requires
        me >= 0,
    ensures
        after_push(l, t, me, mc).len() > 0 ==> after_push(l, t, me, mc).last() == t,
{
    let p = l.push(t);
    let k = keep_newest(p, me);
    if p.len() <= me {
        assert(p.subrange(0, p.len() as int) =~= p);
    }
    lemma_fit_chars_shrinks(k, mc);
    let f = fit_chars(k, mc);
    if f.len() > 0 {
        assert(f[f.len() - 1] == k[k.len() - 1]);
        assert(k[k.len() - 1] == p[p.len() - 1]);
    }
}

/// Submitting the same request line twice in a row stores it once: right after a line has been
/// stored (and kept), the same line no longer qualifies.
pub proof fn lemma_repeat_line_not_stored_twice(
    l: Seq<Seq<char>>,
    line: Seq<char>,
    max_entries: int,
    max_chars: int,
)
    requires
        max_entries >= 0,
        qualifies(l, line),
        after_push(l, trim_spec(line), max_entries, max_chars).len() > 0,
    ensures
        !qualifies(after_push(l, trim_spec(line), max_entries, max_chars), line),
{
    lemma_after_push_last(l, trim_spec(line), max_entries, max_chars);
}

/// The characters of the newest line are counted in the total.
proof fn lemma_char_total_last(l: Seq<Seq<char>>)
    requires
        l.len() > 0,
    ensures
        char_total(l) >= l.last().len(),
{
    lemma_char_total_push(l.drop_last(), l.last());
    lemma_char_total_nonneg(l.drop_last());
    assert(l.drop_last().push(l.last()) =~= l);
}

/// Eviction only drops the oldest lines: the history after a push is a suffix of the previous
/// history followed by the new line.
pub proof fn lemma_after_push_is_suffix(l: Seq<Seq<char>>, t: Seq<char>, max_entries: int, max_chars: int)
    requires
        max_entries >= 0,
    ensures
        ({
            let p = l.push(t);
            let a = after_push(l, t, max_entries, max_chars);
            a.len() <= p.len() && a == p.subrange(p.len() - a.len(), p.len() as int)
        }),
{
    let p = l.push(t);
    let k = keep_newest(p, max_entries);
    lemma_fit_chars_shrinks(k, max_chars);
    let f = fit_chars(k, max_chars);
    if p.len() <= max_entries {
        assert(k == p);
    } else {
        assert(k.subrange(k.len() - f.len(), k.len() as int) =~= p.subrange(p.len() - f.len(), p.len() as int));
    }
}

/// Within the limits nothing is evicted: when the history has room for one more line and the
/// characters of all lines fit the budget, a push appends the line and keeps every older one.
pub proof fn lemma_push_within_limits_keeps_all(l: Seq<Seq<char>>, t: Seq<char>, max_entries: int, max_chars: int)
    requires
        l.len() < max_entries,
        char_total(l) + t.len() <= max_chars,
    ensures
        after_push(l, t, max_entries, max_chars) == l.push(t),
{
    let p = l.push(t);
    lemma_char_total_push(l, t);
    assert(keep_newest(p, max_entries) == p);
}

/// The history reached from `l` by pushing `lines` one after another, as the store does.
pub open spec fn push_lines(l: Seq<Seq<char>>, lines: Seq<Seq<char>>, max_entries: int, max_chars: int) -> Seq<Seq<char>>
    decreases lines.len(),
{
    if lines.len() == 0 {
        l
    } else {
        let prev = push_lines(l, lines.drop_last(), max_entries, max_chars);
        if qualifies(prev, lines.last()) {
            after_push(prev, trim_spec(lines.last()), max_entries, max_chars)
        } else {
            prev
        }
    }
}

/// Recent requests are all kept: pushing trimmed, non-empty lines with no two consecutive ones
/// equal into an empty history keeps every one of them, in order, as long as their number is
/// within the count cap and their characters within the budget.
pub proof fn lemma_recent_lines_all_kept(lines: Seq<Seq<char>>, max_entries: int, max_chars: int)
    requires
        lines.len() <= max_entries,
        char_total(lines) <= max_chars,
        all_trimmed(lines),
        no_adjacent_duplicates(lines),
    ensures
        push_lines(seq![], lines, max_entries, max_chars) == lines,
    decreases lines.len(),
{
    if lines.len() > 0 {
        let init = lines.drop_last();
        let t = lines.last();
        lemma_char_total_push(init, t);
        assert(init.push(t) =~= lines);
        lemma_char_total_nonneg(init);
        assert forall|i: int| 0 <= i < init.len() implies #[trigger] init[i].len() > 0 && trim_spec(init[i]) == init[i] by {
            assert(init[i] == lines[i]);
        }
        assert forall|i: int| 0 <= i < init.len() - 1 implies #[trigger] init[i] != init[i + 1] by {
            assert(init[i] == lines[i] && init[i + 1] == lines[i + 1]);
        }
        lemma_recent_lines_all_kept(init, max_entries, max_chars);
        assert(t.len() > 0 && trim_spec(t) == t) by {
            assert(lines[lines.len() - 1] == t);
        }
        if init.len() > 0 {
            assert(lines[init.len() - 1] != lines[init.len() as int]);
        }
        assert(qualifies(init, t));
        lemma_push_within_limits_keeps_all(init, t, max_entries, max_chars);
    }
}

proof fn lemma_char_total_bound(l: Seq<Seq<char>>, w: int)
    requires
        forall|i: int| 0 <= i < l.len() ==> (#[trigger] l[i]).len() <= w,
    ensures
        char_total(l) <= l.len() * w,
    decreases l.len(),
{
    if l.len() > 0 {
        assert forall|i: int| 0 <= i < l.drop_first().len() implies (#[trigger] l.drop_first()[i]).len() <= w by {
            assert(l.drop_first()[i] == l[i + 1]);
        }
        lemma_char_total_bound(l.drop_first(), w);
        assert(l.len() * w == w + (l.len() - 1) * w) by (nonlinear_arith);
    }
}

/// Whatever cap is configured, at least the last hundred requests are kept: with the cap
/// raised to the minimum and the default character budget, up to a hundred trimmed, non-empty
/// lines of fewer than a thousand characters, no two consecutive ones equal, are all kept.
pub proof fn lemma_hundred_recent_kept(configured: usize, lines: Seq<Seq<char>>)
    requires
        lines.len() <= MIN_HISTORY_MAX_ENTRIES,
        forall|i: int| 0 <= i < lines.len() ==> (#[trigger] lines[i]).len() < 1000,
        all_trimmed(lines),
        no_adjacent_duplicates(lines),
    ensures
        push_lines(
            seq![],
            lines,
            if configured < MIN_HISTORY_MAX_ENTRIES {
                MIN_HISTORY_MAX_ENTRIES as int
            } else {
                configured as int
            },
            MAX_HISTORY_CHARS_BUDGET as int,
        ) == lines,
{
    lemma_char_total_bound(lines, 1000);
    assert(lines.len() * 1000 <= 100 * 1000) by (nonlinear_arith)
        requires
            lines.len() <= 100,
    ;
    lemma_recent_lines_all_kept(
        lines,
        if configured < MIN_HISTORY_MAX_ENTRIES {
            MIN_HISTORY_MAX_ENTRIES as int
        } else {
            configured as int
        },
        MAX_HISTORY_CHARS_BUDGET as int,
    );
}

/// `a` is a suffix of `b`.
pub open spec fn is_suffix(a: Seq<Seq<char>>, b: Seq<Seq<char>>) -> bool {
    a.len() <= b.len() && a == b.subrange(b.len() - a.len(), b.len() as int)
}

/// The trimmed lines, in order, whose push into the history reached from `l` returned `true`
/// (the line qualified and was kept).
pub open spec fn stored_lines(l: Seq<Seq<char>>, lines: Seq<Seq<char>>, max_entries: int, max_chars: int) -> Seq<Seq<char>>
    decreases lines.len(),
{
    if lines.len() == 0 {
        seq![]
    } else {
        let prev = push_lines(l, lines.drop_last(), max_entries, max_chars);
        let earlier = stored_lines(l, lines.drop_last(), max_entries, max_chars);
        let t = trim_spec(lines.last());
        if qualifies(prev, lines.last()) && after_push(prev, t, max_entries, max_chars).len() > 0 {
            earlier.push(t)
        } else {
            earlier
        }
    }
}

proof fn lemma_suffix_push(a: Seq<Seq<char>>, b: Seq<Seq<char>>, c: Seq<Seq<char>>, t: Seq<char>)
    requires
        is_suffix(a, b),
        is_suffix(c, a.push(t)),
    ensures
        is_suffix(c, b.push(t)),
{
    let bp = b.push(t);
    let ap = a.push(t);
    assert(ap =~= bp.subrange(bp.len() - ap.len(), bp.len() as int));
    assert(c =~= bp.subrange(bp.len() - c.len(), bp.len() as int));
}

/// Over any sequence of pushes, the history is a suffix, in the same order, of its starting
/// lines followed by the lines whose push returned `true`: the entries are always the most
/// recent stored requests.
pub proof fn lemma_history_is_suffix_of_stored(
    l: Seq<Seq<char>>,
    lines: Seq<Seq<char>>,
    max_entries: int,
    max_chars: int,
)
    requires
        max_entries >= 0,
    ensures
        is_suffix(push_lines(l, lines, max_entries, max_chars), l + stored_lines(l, lines, max_entries, max_chars)),
    decreases lines.len(),
{
    if lines.len() == 0 {
        assert(l + seq![] =~= l);
        assert(l.subrange(0, l.len() as int) =~= l);
    } else {
        let init = lines.drop_last();
        lemma_history_is_suffix_of_stored(l, init, max_entries, max_chars);
        let prev = push_lines(l, init, max_entries, max_chars);
        let earlier = stored_lines(l, init, max_entries, max_chars);
        let t = trim_spec(lines.last());
        if qualifies(prev, lines.last()) {
            let a = after_push(prev, t, max_entries, max_chars);
            if a.len() > 0 {
                lemma_after_push_is_suffix(prev, t, max_entries, max_chars);
                lemma_suffix_push(prev, l + earlier, a, t);
                assert((l + earlier).push(t) =~= l + earlier.push(t));
            } else {
                let b = l + earlier;
                assert(a =~= b.subrange(b.len() as int, b.len() as int));
            }
        }
    }
}

} // verus!

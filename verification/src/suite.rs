//! The bookkeeping of a test run: how each test case ended, and the report
//! that gathers the passes and failures of a whole suite.
use crate::text::{bytes_of, decimal_digits, decimal_text, join_texts, join_with, texts_of};
use vstd::prelude::*;
use vstd::string::StringExecFns;

verus! {

/// A span of time: whole seconds and the nanoseconds past them.
#[derive(Debug, Clone, Copy, PartialEq, Eq, Structural)]
pub struct TestDuration {
    pub secs: u64,
    pub nanos: u32,
}

impl TestDuration {
    /// `self` is no longer than `other`: seconds are compared first, then
    /// nanoseconds.
    pub open spec fn no_longer_than(self, other: TestDuration) -> bool {
        self.secs < other.secs || (self.secs == other.secs && self.nanos <= other.nanos)
    }

    /// Whether `self` is no longer than `other`.
    pub fn at_most(&self, other: &TestDuration) -> (res: bool)
        ensures
            res == self.no_longer_than(*other),
    {
        self.secs < other.secs || (self.secs == other.secs && self.nanos <= other.nanos)
    }
}

/// A count of milliseconds written with at least three digits, zeros in
/// front.
pub open spec fn millis_digits(m: nat) -> Seq<char> {
    if m < 10 {
        "00"@ + decimal_digits(m)
    } else if m < 100 {
        "0"@ + decimal_digits(m)
    } else {
        decimal_digits(m)
    }
}

/// A duration written as seconds, a dot, and three digits of milliseconds.
pub open spec fn seconds_digits(d: TestDuration) -> Seq<char> {
    decimal_digits(d.secs as nat) + "."@ + millis_digits((d.nanos / 1_000_000) as nat)
}

impl TestDuration {
    /// The duration as seconds with three decimals of milliseconds, such as
    /// `2.045`.
    pub fn seconds_text(&self) -> (res: String)
        ensures
            res@ == seconds_digits(*self),
    {
        let mut res = decimal_text(self.secs);
        res.append(".");
        let millis: u32 = self.nanos / 1_000_000;
        if millis < 10 {
            res.append("00");
        } else if millis < 100 {
            res.append("0");
        }
        let digits = decimal_text(millis as u64);
        res.append(digits.as_str());
        proof {
            if millis < 10 {
                assert(res@ =~= seconds_digits(*self));
            } else if millis < 100 {
                assert(res@ =~= seconds_digits(*self));
            } else {
                assert(res@ =~= seconds_digits(*self));
            }
        }
        res
    }
}

/// The line that reports a passed test: its name, a check mark, and how long
/// it took.
pub open spec fn pass_line_text(name: Seq<char>, d: TestDuration) -> Seq<char> {
    name + " ✅ [in "@ + seconds_digits(d) + " seconds]"@
}

/// The line that reports a passed test.
pub fn pass_line(name: &str, duration: &TestDuration) -> (res: String)
    ensures
        res@ == pass_line_text(name@, *duration),
{
    let mut res = name.to_owned();
    res.append(" ✅ [in ");
    let secs = duration.seconds_text();
    res.append(secs.as_str());
    res.append(" seconds]");
    proof {
        assert(res@ =~= pass_line_text(name@, *duration));
    }
    res
}

/// The two lines that report a failed test: its name with a cross, then the
/// reason, indented.
pub fn failure_lines(name: &str, why: &str) -> (res: (String, String))
    ensures
        res.0@ == name@ + " ❌"@,
        res.1@ == "   reason: "@ + why@,
{
    let mut first = name.to_owned();
    first.append(" ❌");
    let mut second = "   reason: ".to_owned();
    second.append(why);
    (first, second)
}

/// `a` comes no later than `b` in lexicographic byte order: a prefix comes
/// before what extends it, and otherwise the first differing byte decides.
pub open spec fn bytes_no_later(a: Seq<u8>, b: Seq<u8>) -> bool
    decreases a.len(),
{
    if a.len() == 0 {
        true
    } else if b.len() == 0 {
        false
    } else if a[0] != b[0] {
        a[0] < b[0]
    } else {
        bytes_no_later(a.drop_first(), b.drop_first())
    }
}

/// Lexicographic byte order is total.
pub proof fn lemma_bytes_order_total(a: Seq<u8>, b: Seq<u8>)
    ensures
        bytes_no_later(a, b) || bytes_no_later(b, a),
    decreases a.len(),
{
    if a.len() > 0 && b.len() > 0 && a[0] == b[0] {
        lemma_bytes_order_total(a.drop_first(), b.drop_first());
    }
}

/// Lexicographic byte order is transitive.
pub proof fn lemma_bytes_order_transitive(a: Seq<u8>, b: Seq<u8>, c: Seq<u8>)
    requires
        bytes_no_later(a, b),
        bytes_no_later(b, c),
    ensures
        bytes_no_later(a, c),
    decreases a.len(),
{
    if a.len() > 0 && b.len() > 0 && c.len() > 0 && a[0] == b[0] && b[0] == c[0] {
        lemma_bytes_order_transitive(a.drop_first(), b.drop_first(), c.drop_first());
    }
}

/// Two byte strings that each come no later than the other are equal.
pub proof fn lemma_bytes_order_antisymmetric(a: Seq<u8>, b: Seq<u8>)
    requires
        bytes_no_later(a, b),
        bytes_no_later(b, a),
    ensures
        a == b,
    decreases a.len(),
{
    if a.len() > 0 && b.len() > 0 {
        lemma_bytes_order_antisymmetric(a.drop_first(), b.drop_first());
        assert(a =~= seq![a[0]] + a.drop_first());
        assert(b =~= seq![b[0]] + b.drop_first());
    }
}

/// Byte order is decided at the first byte where two byte strings differ:
/// the one whose byte there is numerically smaller comes first. Where one
/// is a prefix of the other, the shorter comes first.
pub proof fn law_bytes_order(a: Seq<u8>, b: Seq<u8>, i: int)
    requires
        0 <= i <= a.len(),
        i <= b.len(),
        a.subrange(0, i) == b.subrange(0, i),
    ensures
        i < a.len() && i < b.len() && a[i] != b[i] ==> (bytes_no_later(a, b) <==> a[i] < b[i]),
        i == a.len() ==> bytes_no_later(a, b),
        i == b.len() && i < a.len() ==> !bytes_no_later(a, b),
    decreases i,
{
    if i > 0 {
        assert(a[0] == a.subrange(0, i)[0]);
        assert(b[0] == b.subrange(0, i)[0]);
        let a1 = a.drop_first();
        let b1 = b.drop_first();
        assert(a1.subrange(0, i - 1) =~= a.subrange(1, i));
        assert(b1.subrange(0, i - 1) =~= b.subrange(1, i));
        assert(a.subrange(1, i) =~= a.subrange(0, i).subrange(1, i));
        assert(b.subrange(1, i) =~= b.subrange(0, i).subrange(1, i));
        law_bytes_order(a1, b1, i - 1);
        assert(i < a.len() ==> a[i] == a1[i - 1]);
        assert(i < b.len() ==> b[i] == b1[i - 1]);
    }
}

/// Whether `a` comes no later than `b` in the byte order of their UTF-8 text,
/// the order in which strings compare.
pub fn text_no_later(a: &str, b: &str) -> (res: bool)
    ensures
        res == bytes_no_later(bytes_of(a@), bytes_of(b@)),
{
    let x: &[u8] = a.as_bytes();
    let y: &[u8] = b.as_bytes();
    let ghost xs = bytes_of(a@);
    let ghost ys = bytes_of(b@);
    let mut i: usize = 0;
    proof {
        assert(xs.subrange(0, xs.len() as int) =~= xs);
        assert(ys.subrange(0, ys.len() as int) =~= ys);
    }
    while i < x.len() && i < y.len()
        invariant
            xs == bytes_of(a@),
            ys == bytes_of(b@),
            x@ == xs,
            y@ == ys,
            i <= xs.len(),
            i <= ys.len(),
            bytes_no_later(xs, ys) == bytes_no_later(
                xs.subrange(i as int, xs.len() as int),
                ys.subrange(i as int, ys.len() as int),
            ),
        decreases x.len() - i,
    {
        if x[i] != y[i] {
            proof {
                assert(xs.subrange(i as int, xs.len() as int)[0] == xs[i as int]);
                assert(ys.subrange(i as int, ys.len() as int)[0] == ys[i as int]);
            }
            return x[i] < y[i];
        }
        proof {
            assert(xs.subrange(i as int, xs.len() as int).drop_first() =~= xs.subrange(
                i + 1,
                xs.len() as int,
            ));
            assert(ys.subrange(i as int, ys.len() as int).drop_first() =~= ys.subrange(
                i + 1,
                ys.len() as int,
            ));
        }
        i = i + 1;
    }
    x.len() <= y.len()
}


/// How a test case ended: it passed, taking some time, or it failed, for a
/// reason.
#[derive(Debug)]
pub enum TestCaseResult {
    Pass(TestDuration),
    Fail(String),
}

/// What the passes of a report are sorted by.
#[derive(Debug, Clone, Copy, PartialEq, Eq, Structural)]
pub enum SortBy {
    Name,
    Duration,
}

impl Default for SortBy {
    /// Passes are sorted by name unless asked otherwise.
    fn default() -> (res: Self)
        ensures
            res == SortBy::Name,
    {
        SortBy::Name
    }
}

/// A pass as the contracts see it: the test's name and how long it took.
pub type PassView = (Seq<char>, TestDuration);

/// The view of one recorded pass.
pub open spec fn pass_view(p: (String, TestDuration)) -> PassView {
    (p.0@, p.1)
}

/// The views of recorded passes, in order.
pub open spec fn pass_views(s: Seq<(String, TestDuration)>) -> Seq<PassView> {
    s.map_values(|p: (String, TestDuration)| pass_view(p))
}

/// `a` comes no later than `b` when passes are sorted `by`: names in the byte
/// order of their text, durations shortest first.
pub open spec fn pass_no_later(by: SortBy, a: PassView, b: PassView) -> bool {
    match by {
        SortBy::Name => bytes_no_later(bytes_of(a.0), bytes_of(b.0)),
        SortBy::Duration => a.1.no_longer_than(b.1),
    }
}

/// `a` and `b` rank the same when sorted `by`: the same name, or the same
/// duration.
pub open spec fn same_rank(by: SortBy, a: PassView, b: PassView) -> bool {
    pass_no_later(by, a, b) && pass_no_later(by, b, a)
}

/// The passes that rank the same as `e`.
pub open spec fn rank_of(by: SortBy, e: PassView) -> spec_fn(PassView) -> bool {
    |y: PassView| same_rank(by, y, e)
}

/// The passes of `s` that rank the same as `e`, in their order in `s`.
pub open spec fn same_rank_run(by: SortBy, s: Seq<PassView>, e: PassView) -> Seq<PassView> {
    s.filter(rank_of(by, e))
}

/// Every pass of `s` comes no later than those after it.
pub open spec fn sorted_by(by: SortBy, s: Seq<PassView>) -> bool {
    forall|i: int, j: int| 0 <= i < j < s.len() ==> pass_no_later(by, #[trigger] s[i], #[trigger] s[j])
}

/// The order of passes is total.
pub proof fn lemma_pass_order_total(by: SortBy, a: PassView, b: PassView)
    ensures
        pass_no_later(by, a, b) || pass_no_later(by, b, a),
{
    lemma_bytes_order_total(bytes_of(a.0), bytes_of(b.0));
}

/// The order of passes is transitive.
pub proof fn lemma_pass_order_transitive(by: SortBy, a: PassView, b: PassView, c: PassView)
    requires
        pass_no_later(by, a, b),
        pass_no_later(by, b, c),
    ensures
        pass_no_later(by, a, c),
{
    if by == SortBy::Name {
        lemma_bytes_order_transitive(bytes_of(a.0), bytes_of(b.0), bytes_of(c.0));
    }
}

/// Two passes rank the same by name exactly when their names are equal, and
/// by duration exactly when their durations are equal: so a sort keeps in
/// recorded order the passes of one name, or of one duration.
pub proof fn law_same_rank(a: PassView, b: PassView)
    ensures
        same_rank(SortBy::Name, a, b) <==> a.0 == b.0,
        same_rank(SortBy::Duration, a, b) <==> a.1 == b.1,
{
    if same_rank(SortBy::Name, a, b) {
        lemma_bytes_order_antisymmetric(bytes_of(a.0), bytes_of(b.0));
        crate::text::lemma_bytes_of_injective(a.0, b.0);
    }
    if a.0 == b.0 {
        lemma_bytes_order_total(bytes_of(a.0), bytes_of(b.0));
    }
}

/// Putting `x` into the sorted `s` at `j`, after everything that comes no
/// later than it and before everything that comes after it, keeps `s` sorted
/// and puts `x` last among the passes that rank the same as it.
proof fn lemma_insert_in_order(by: SortBy, s: Seq<PassView>, done: Seq<PassView>, j: int, x: PassView)
    requires
        sorted_by(by, s),
        0 <= j <= s.len(),
        j > 0 ==> pass_no_later(by, s[j - 1], x),
        forall|k: int| j <= k < s.len() ==> !pass_no_later(by, #[trigger] s[k], x),
        forall|e: PassView| #[trigger] same_rank_run(by, s, e) == same_rank_run(by, done, e),
    ensures
        sorted_by(by, s.insert(j, x)),
        forall|e: PassView| #[trigger] same_rank_run(by, s.insert(j, x), e) == same_rank_run(by, done.push(x), e),
{
    let t = s.insert(j, x);
    assert forall|a: int, b: int| 0 <= a < b < t.len() implies pass_no_later(by, #[trigger] t[a], #[trigger] t[b]) by {
        if b < j {
            assert(pass_no_later(by, s[a], s[b]));
        } else if b == j {
            if a < j - 1 {
                assert(pass_no_later(by, s[a], s[j - 1]));
                lemma_pass_order_transitive(by, s[a], s[j - 1], x);
            }
        } else if a < j {
            assert(pass_no_later(by, s[a], s[b - 1]));
        } else if a == j {
            lemma_pass_order_total(by, s[b - 1], x);
        } else {
            assert(pass_no_later(by, s[a - 1], s[b - 1]));
        }
    }
    let head = s.subrange(0, j);
    let tail = s.subrange(j, s.len() as int);
    assert(s =~= head + tail);
    assert(t =~= head + seq![x] + tail);
    assert forall|e: PassView| #[trigger] same_rank_run(by, t, e) == same_rank_run(by, done.push(x), e) by {
        let pred = rank_of(by, e);
        Seq::filter_distributes_over_add(head, tail, pred);
        Seq::filter_distributes_over_add(head + seq![x], tail, pred);
        Seq::filter_distributes_over_add(head, seq![x], pred);
        done.lemma_filter_push(x, pred);
        assert(same_rank_run(by, s, e) == same_rank_run(by, done, e));
        assert(seq![x].filter(pred) == if pred(x) { seq![x] } else { Seq::<PassView>::empty() }) by {
            let none = Seq::<PassView>::empty();
            none.lemma_filter_push(x, pred);
            broadcast use vstd::seq_lib::group_filter_ensures;
            assert(none.push(x) =~= seq![x]);
            assert(none.filter(pred) =~= none);
        }
        if pred(x) {
            assert forall|k: int| 0 <= k < tail.len() implies !pred(#[trigger] tail[k]) by {
                assert(tail[k] == s[j + k]);
                if pred(tail[k]) {
                    lemma_pass_order_transitive(by, tail[k], e, x);
                }
            }
            tail.lemma_all_neg_filter_empty(pred);
            assert(tail.filter(pred) =~= Seq::<PassView>::empty());
            assert(head.filter(pred) + seq![x] + tail.filter(pred) =~= head.filter(pred).push(x));
            assert(head.filter(pred) + tail.filter(pred) =~= head.filter(pred));
        } else {
            assert(head.filter(pred) + Seq::<PassView>::empty() =~= head.filter(pred));
        }
    }
}


/// Passes that rank the same as one pass rank the same as each other.
proof fn lemma_same_rank_classes(by: SortBy, x: PassView, y: PassView)
    requires
        same_rank(by, x, y),
    ensures
        rank_of(by, x) == rank_of(by, y),
{
    assert forall|z: PassView| #[trigger] rank_of(by, x)(z) == rank_of(by, y)(z) by {
        if same_rank(by, z, x) {
            lemma_pass_order_transitive(by, z, x, y);
            lemma_pass_order_transitive(by, y, x, z);
        }
        if same_rank(by, z, y) {
            lemma_pass_order_transitive(by, z, y, x);
            lemma_pass_order_transitive(by, x, y, z);
        }
    }
    assert(rank_of(by, x) =~= rank_of(by, y));
}

/// A sorted sequence ends with a pass that comes no earlier than any of its
/// passes.
proof fn lemma_sorted_last(by: SortBy, s: Seq<PassView>, y: PassView)
    requires
        sorted_by(by, s),
        s.contains(y),
    ensures
        pass_no_later(by, y, s.last()),
{
    let i = choose|i: int| 0 <= i < s.len() && s[i] == y;
    if i < s.len() - 1 {
        assert(pass_no_later(by, s[i], s[s.len() - 1]));
    } else {
        lemma_pass_order_total(by, y, y);
    }
}

/// How sorted passes are ordered is fixed by which passes rank the same and
/// their order among themselves: two sorted sequences of passes with the
/// same passes of each rank, in the same order, are equal. So a sort leaves
/// passes that are already sorted the same way as they are, and sorting twice
/// is sorting once.
pub proof fn law_sorted_order_unique(by: SortBy, a: Seq<PassView>, b: Seq<PassView>)
    requires
        sorted_by(by, a),
        sorted_by(by, b),
        forall|e: PassView| #[trigger] same_rank_run(by, a, e) == same_rank_run(by, b, e),
    ensures
        a == b,
    decreases a.len() + b.len(),
{
    broadcast use vstd::seq_lib::group_filter_ensures;
    if a.len() == 0 || b.len() == 0 {
        if a.len() > 0 || b.len() > 0 {
            let s = if a.len() > 0 { a } else { b };
            let e = s[0];
            lemma_pass_order_total(by, e, e);
            s.lemma_filter_contains(rank_of(by, e), 0);
            assert(same_rank_run(by, a, e).contains(e));
            Seq::<PassView>::empty().lemma_filter_len(rank_of(by, e));
            assert(a =~= Seq::<PassView>::empty() || b =~= Seq::<PassView>::empty());
        }
        assert(a =~= b);
    } else {
        let x = a.last();
        let y = b.last();
        let a0 = a.drop_last();
        let b0 = b.drop_last();
        assert(a =~= a0.push(x));
        assert(b =~= b0.push(y));
        lemma_pass_order_total(by, x, x);
        lemma_pass_order_total(by, y, y);
        a0.lemma_filter_push(x, rank_of(by, x));
        b0.lemma_filter_push(y, rank_of(by, y));
        assert(same_rank_run(by, b, y).contains(y)) by {
            assert(same_rank_run(by, b, y).last() == y);
        }
        assert(same_rank_run(by, a, x).contains(x)) by {
            assert(same_rank_run(by, a, x).last() == x);
        }
        assert(same_rank_run(by, a, y) == same_rank_run(by, b, y));
        assert(same_rank_run(by, a, x) == same_rank_run(by, b, x));
        a.lemma_filter_contains_rev(rank_of(by, y), y);
        b.lemma_filter_contains_rev(rank_of(by, x), x);
        lemma_sorted_last(by, a, y);
        lemma_sorted_last(by, b, x);
        lemma_same_rank_classes(by, x, y);
        assert(x == y) by {
            assert(same_rank_run(by, b, x) == same_rank_run(by, b, y));
            assert(same_rank_run(by, a, x).last() == x);
            assert(same_rank_run(by, b, y).last() == y);
        }
        assert forall|i: int, j: int| 0 <= i < j < a0.len() implies pass_no_later(by, #[trigger] a0[i], #[trigger] a0[j]) by {
            assert(pass_no_later(by, a[i], a[j]));
        }
        assert forall|i: int, j: int| 0 <= i < j < b0.len() implies pass_no_later(by, #[trigger] b0[i], #[trigger] b0[j]) by {
            assert(pass_no_later(by, b[i], b[j]));
        }
        assert forall|e: PassView| #[trigger] same_rank_run(by, a0, e) == same_rank_run(by, b0, e) by {
            a0.lemma_filter_push(x, rank_of(by, e));
            b0.lemma_filter_push(x, rank_of(by, e));
            assert(same_rank_run(by, a, e) == same_rank_run(by, b, e));
            if rank_of(by, e)(x) {
                assert(same_rank_run(by, a0, e) =~= same_rank_run(by, a, e).drop_last());
                assert(same_rank_run(by, b0, e) =~= same_rank_run(by, b, e).drop_last());
            }
        }
        law_sorted_order_unique(by, a0, b0);
    }
}

/// Whether `a` comes no later than `b` when passes are sorted `by`.
fn pass_ranks_no_later(by: SortBy, a: &(String, TestDuration), b: &(String, TestDuration)) -> (res: bool)
    ensures
        res == pass_no_later(by, pass_view(*a), pass_view(*b)),
{
    match by {
        SortBy::Name => text_no_later(a.0.as_str(), b.0.as_str()),
        SortBy::Duration => a.1.at_most(&b.1),
    }
}

/// The failures recorded in `fails`, by test name; a later record of a name
/// replaces an earlier one.
pub open spec fn failure_map(fails: Seq<(String, String)>) -> Map<Seq<char>, Seq<char>>
    decreases fails.len(),
{
    if fails.len() == 0 {
        Map::empty()
    } else {
        failure_map(fails.drop_last()).insert(fails.last().0@, fails.last().1@)
    }
}

/// No test name is recorded twice in `fails`.
pub open spec fn names_distinct(fails: Seq<(String, String)>) -> bool {
    forall|i: int, j: int|
        0 <= i < j < fails.len() ==> (#[trigger] fails[i]).0@ != (#[trigger] fails[j]).0@
}

/// The names of the failures recorded in `fails` are the names of its records.
proof fn lemma_failure_names(fails: Seq<(String, String)>)
    ensures
        failure_map(fails).dom() =~= Set::new(|n: Seq<char>| exists|i: int| 0 <= i < fails.len() && (#[trigger] fails[i]).0@ == n),
        failure_map(fails).dom().finite(),
    decreases fails.len(),
{
    if fails.len() > 0 {
        let rest = fails.drop_last();
        lemma_failure_names(rest);
        assert forall|n: Seq<char>| (exists|i: int| 0 <= i < fails.len() && (#[trigger] fails[i]).0@ == n)
            <==> (failure_map(rest).dom().contains(n) || n == fails.last().0@) by {
            if exists|i: int| 0 <= i < fails.len() && (#[trigger] fails[i]).0@ == n {
                let i = choose|i: int| 0 <= i < fails.len() && (#[trigger] fails[i]).0@ == n;
                if i < fails.len() - 1 {
                    assert(rest[i] == fails[i]);
                }
            }
            if failure_map(rest).dom().contains(n) {
                let i = choose|i: int| 0 <= i < rest.len() && (#[trigger] rest[i]).0@ == n;
                assert(fails[i] == rest[i]);
            }
        }
    }
}

/// With no name recorded twice, there are as many failures as records.
proof fn lemma_failure_count(fails: Seq<(String, String)>)
    requires
        names_distinct(fails),
    ensures
        failure_map(fails).len() == fails.len(),
    decreases fails.len(),
{
    if fails.len() > 0 {
        let rest = fails.drop_last();
        assert(names_distinct(rest)) by {
            assert forall|i: int, j: int| 0 <= i < j < rest.len() implies (#[trigger] rest[i]).0@ != (#[trigger] rest[j]).0@ by {
                assert(rest[i] == fails[i] && rest[j] == fails[j]);
            }
        }
        lemma_failure_count(rest);
        lemma_failure_names(rest);
        if failure_map(rest).dom().contains(fails.last().0@) {
            let i = choose|i: int| 0 <= i < rest.len() && (#[trigger] rest[i]).0@ == fails.last().0@;
            assert(fails[i] == rest[i]);
            assert(fails[i].0@ != fails[fails.len() - 1].0@);
        }
    }
}

/// Replacing the reason of the record at `k` replaces the failure of its name.
proof fn lemma_failure_replace(fails: Seq<(String, String)>, k: int, entry: (String, String))
    requires
        0 <= k < fails.len(),
        names_distinct(fails),
        entry.0@ == fails[k].0@,
    ensures
        failure_map(fails.update(k, entry)) == failure_map(fails).insert(entry.0@, entry.1@),
    decreases fails.len(),
{
    let rest = fails.drop_last();
    if k == fails.len() - 1 {
        assert(fails.update(k, entry).drop_last() =~= rest);
        assert(failure_map(fails.update(k, entry)) =~= failure_map(fails).insert(entry.0@, entry.1@));
    } else {
        assert(names_distinct(rest)) by {
            assert forall|i: int, j: int| 0 <= i < j < rest.len() implies (#[trigger] rest[i]).0@ != (#[trigger] rest[j]).0@ by {
                assert(rest[i] == fails[i] && rest[j] == fails[j]);
            }
        }
        lemma_failure_replace(rest, k, entry);
        assert(fails.update(k, entry).drop_last() =~= rest.update(k, entry));
        assert(fails[k].0@ != fails[fails.len() - 1].0@);
        assert(failure_map(fails.update(k, entry)) =~= failure_map(fails).insert(entry.0@, entry.1@));
    }
}

/// The passes among `outcomes`, in order.
pub open spec fn outcome_passes(outcomes: Seq<(String, TestCaseResult)>) -> Seq<PassView>
    decreases outcomes.len(),
{
    if outcomes.len() == 0 {
        Seq::empty()
    } else {
        let earlier = outcome_passes(outcomes.drop_last());
        match outcomes.last().1 {
            TestCaseResult::Pass(d) => earlier.push((outcomes.last().0@, d)),
            TestCaseResult::Fail(_) => earlier,
        }
    }
}

/// The failures among `outcomes`, by test name; a later failure of a name
/// replaces an earlier one.
pub open spec fn outcome_failures(outcomes: Seq<(String, TestCaseResult)>) -> Map<Seq<char>, Seq<char>>
    decreases outcomes.len(),
{
    if outcomes.len() == 0 {
        Map::empty()
    } else {
        let earlier = outcome_failures(outcomes.drop_last());
        match outcomes.last().1 {
            TestCaseResult::Pass(_) => earlier,
            TestCaseResult::Fail(why) => earlier.insert(outcomes.last().0@, why@),
        }
    }
}

impl TestCaseResult {
    /// The failure of a test whose source could not be read, because of
    /// `error`.
    pub fn read_failure(error: &str) -> (res: TestCaseResult)
        ensures
            res matches TestCaseResult::Fail(why) && why@ == "I/O error: "@ + error@,
    {
        let mut why = "I/O error: ".to_owned();
        why.append(error);
        TestCaseResult::Fail(why)
    }

    /// The failure of a test that did not compile, with the compiler's
    /// `messages`, one to a line.
    pub fn compile_failure(messages: &Vec<String>) -> (res: TestCaseResult)
        ensures
            res matches TestCaseResult::Fail(why) && why@ == "compilation error: "@ + join_with(
                texts_of(messages@),
                "\n"@,
            ),
    {
        let mut why = "compilation error: ".to_owned();
        let joined = join_texts(messages, "\n");
        why.append(joined.as_str());
        TestCaseResult::Fail(why)
    }

    /// Whether a run stops after this outcome: it does when it stops at the
    /// first failure (`fail_fast`) and this test failed.
    pub fn ends_run(&self, fail_fast: bool) -> (res: bool)
        ensures
            res == (fail_fast && self is Fail),
    {
        fail_fast && match self {
            TestCaseResult::Fail(_) => true,
            TestCaseResult::Pass(_) => false,
        }
    }
}

/// A report that records each failing test once holds as many failures as
/// it has failure records, one for each failing test name.
pub proof fn law_failure_count(report: SuiteReport)
    requires
        report.wf(),
    ensures
        report.failures().dom().finite(),
        report.failures().len() == report.fails@.len(),
        forall|i: int| 0 <= i < report.fails@.len() ==> report.failures()[(#[trigger] report.fails@[i]).0@] == report.fails@[i].1@,
{
    lemma_failure_names(report.fails@);
    lemma_failure_count(report.fails@);
    assert forall|i: int| 0 <= i < report.fails@.len() implies report.failures()[(#[trigger] report.fails@[i]).0@] == report.fails@[i].1@ by {
        lemma_failure_lookup(report.fails@, i);
    }
}

/// In a failure record with no name recorded twice, each record gives the
/// failure of its name.
proof fn lemma_failure_lookup(fails: Seq<(String, String)>, i: int)
    requires
        names_distinct(fails),
        0 <= i < fails.len(),
    ensures
        failure_map(fails)[fails[i].0@] == fails[i].1@,
    decreases fails.len(),
{
    if i < fails.len() - 1 {
        let rest = fails.drop_last();
        assert(names_distinct(rest)) by {
            assert forall|a: int, b: int| 0 <= a < b < rest.len() implies (#[trigger] rest[a]).0@ != (#[trigger] rest[b]).0@ by {
                assert(rest[a] == fails[a] && rest[b] == fails[b]);
            }
        }
        lemma_failure_lookup(rest, i);
        assert(fails[i].0@ != fails[fails.len() - 1].0@);
        assert(rest[i] == fails[i]);
    }
}

/// How a run of tests ends: every test passed, or some failed.
#[derive(Debug, Clone, Copy, PartialEq, Eq, Structural)]
pub enum RunStatus {
    Success,
    Failure,
}

/// The report of a test suite: the passes in the order they were recorded,
/// the failures by test name, and how long the whole run took.
pub struct SuiteReport {
    pub passes: Vec<(String, TestDuration)>,
    pub fails: Vec<(String, String)>,
    pub duration: TestDuration,
}

impl Default for SuiteReport {
    /// An empty report of a run that took no time.
    fn default() -> (res: Self)
        ensures
            res.passes@.len() == 0,
            res.fails@.len() == 0,
            res.duration == (TestDuration { secs: 0, nanos: 0 }),
    {
        SuiteReport {
            passes: Vec::new(),
            fails: Vec::new(),
            duration: TestDuration { secs: 0, nanos: 0 },
        }
    }
}

impl SuiteReport {
    /// The passes, each as its name and duration.
    pub open spec fn pass_entries(&self) -> Seq<PassView> {
        pass_views(self.passes@)
    }

    /// The failures, by test name.
    pub open spec fn failures(&self) -> Map<Seq<char>, Seq<char>> {
        failure_map(self.fails@)
    }

    /// The failure records in the order the report keeps them, each as the
    /// test's name and the reason.
    pub open spec fn failure_records(&self) -> Seq<(Seq<char>, Seq<char>)> {
        self.fails@.map_values(|f: (String, String)| (f.0@, f.1@))
    }

    /// The report records each failing test once.
    pub open spec fn wf(&self) -> bool {
        names_distinct(self.fails@)
    }

    /// The number of failed tests.
    pub fn num_fails(&self) -> (res: usize)
        ensures
            res == self.fails@.len(),
    {
        self.fails.len()
    }

    /// The number of passed tests.
    pub fn num_passes(&self) -> (res: usize)
        ensures
            res == self.passes@.len(),
    {
        self.passes.len()
    }

    /// The number of tests in the report, passed or failed.
    pub fn len(&self) -> (res: usize)
        requires
            self.fails@.len() + self.passes@.len() <= usize::MAX,
        ensures
            res == self.fails@.len() + self.passes@.len(),
    {
        self.num_fails() + self.num_passes()
    }

    /// Records that the test `name` passed in `duration`.
    pub fn pass(&mut self, name: &str, duration: &TestDuration)
        ensures
            final(self).pass_entries() == old(self).pass_entries().push((name@, *duration)),
            final(self).fails == old(self).fails,
            final(self).duration == old(self).duration,
    {
        self.passes.push((name.to_owned(), *duration));
        proof {
            assert(self.pass_entries() =~= old(self).pass_entries().push((name@, *duration)));
        }
    }

    /// Records that the test `name` failed because of `why`, replacing what
    /// was recorded of an earlier failure of the same name.
    pub fn fail(&mut self, name: &str, why: String)
        requires
            old(self).wf(),
        ensures
            final(self).wf(),
            final(self).failures() == old(self).failures().insert(name@, why@),
            old(self).failures().contains_key(name@) ==> exists|k: int|
                0 <= k < old(self).fails@.len() && (#[trigger] old(self).fails@[k]).0@ == name@
                    && final(self).failure_records() == old(self).failure_records().update(
                    k,
                    (name@, why@),
                ),
            !old(self).failures().contains_key(name@) ==> final(self).failure_records()
                == old(self).failure_records().push((name@, why@)),
            final(self).passes == old(self).passes,
            final(self).duration == old(self).duration,
    {
        let key = name.to_owned();
        let ghost before = self.fails@;
        let mut k: usize = 0;
        while k < self.fails.len()
            invariant
                self.fails@ == before,
                before == old(self).fails@,
                names_distinct(before),
                self.passes == old(self).passes,
                self.duration == old(self).duration,
                key@ == name@,
                k <= before.len(),
                forall|i: int| 0 <= i < k ==> (#[trigger] before[i]).0@ != name@,
            decreases before.len() - k,
        {
            if self.fails[k].0 == key {
                let entry = (key, why);
                proof {
                    lemma_failure_replace(before, k as int, entry);
                    lemma_failure_names(before);
                    assert(before[k as int].0@ == name@);
                    assert(failure_map(before).contains_key(name@));
                }
                self.fails.set(k, entry);
                proof {
                    assert(self.failure_records() =~= old(self).failure_records().update(
                        k as int,
                        (name@, why@),
                    ));
                    assert forall|i: int, j: int| 0 <= i < j < self.fails@.len() implies (#[trigger] self.fails@[i]).0@ != (#[trigger] self.fails@[j]).0@ by {
                        assert(before[i].0@ != before[j].0@);
                    }
                }
                return;
            }
            k = k + 1;
        }
        proof {
            lemma_failure_names(before);
            assert(!failure_map(before).contains_key(name@));
        }
        self.fails.push((key, why));
        proof {
            assert(self.fails@.drop_last() =~= before);
            assert(self.failure_records() =~= old(self).failure_records().push((name@, why@)));
            assert forall|i: int, j: int| 0 <= i < j < self.fails@.len() implies (#[trigger] self.fails@[i]).0@ != (#[trigger] self.fails@[j]).0@ by {
                if j < before.len() {
                    assert(before[i].0@ != before[j].0@);
                } else {
                    assert(self.fails@[i] == before[i]);
                }
            }
        }
    }

    /// Sorts the passes `by` name or by duration. Passes that rank the same
    /// keep the order in which they were recorded.
    pub fn sort_passes(&mut self, by: SortBy)
        ensures
            sorted_by(by, final(self).pass_entries()),
            forall|e: PassView|
                #[trigger] same_rank_run(by, final(self).pass_entries(), e) == same_rank_run(
                    by,
                    old(self).pass_entries(),
                    e,
                ),
            final(self).pass_entries().to_multiset() == old(self).pass_entries().to_multiset(),
            final(self).fails == old(self).fails,
            final(self).duration == old(self).duration,
    {
        let mut pending: Vec<(String, TestDuration)> = Vec::new();
        std::mem::swap(&mut pending, &mut self.passes);
        let ghost orig = pending@;
        let ghost ov = pass_views(orig);
        let mut sorted: Vec<(String, TestDuration)> = Vec::new();
        proof {
            assert(orig.subrange(0, orig.len() as int) =~= orig);
            assert(ov.subrange(0, 0) =~= Seq::<PassView>::empty());
            assert(pass_views(sorted@) =~= Seq::<PassView>::empty());
        }
        while pending.len() > 0
            invariant
                ov == pass_views(orig),
                ov == old(self).pass_entries(),
                pending@.len() <= orig.len(),
                pending@ == orig.subrange(orig.len() - pending@.len(), orig.len() as int),
                sorted_by(by, pass_views(sorted@)),
                forall|e: PassView|
                    #[trigger] same_rank_run(by, pass_views(sorted@), e) == same_rank_run(
                        by,
                        ov.subrange(0, orig.len() - pending@.len()),
                        e,
                    ),
                pass_views(sorted@).to_multiset() == ov.subrange(
                    0,
                    orig.len() - pending@.len(),
                ).to_multiset(),
                self.fails == old(self).fails,
                self.duration == old(self).duration,
            decreases pending@.len(),
        {
            let ghost done_len = orig.len() - pending@.len();
            let ghost done = ov.subrange(0, done_len);
            let ghost before = pass_views(sorted@);
            let item = pending.remove(0);
            proof {
                assert(item == orig[done_len]);
            }
            let mut j: usize = sorted.len();
            while j > 0 && !pass_ranks_no_later(by, &sorted[j - 1], &item)
                invariant
                    j <= sorted@.len(),
                    before == pass_views(sorted@),
                    forall|k: int|
                        j <= k < before.len() ==> !pass_no_later(by, #[trigger] before[k], pass_view(item)),
                decreases j,
            {
                j = j - 1;
            }
            proof {
                lemma_insert_in_order(by, before, done, j as int, pass_view(item));
                vstd::seq_lib::to_multiset_build(done, pass_view(item));
                vstd::seq_lib::to_multiset_insert(before, j as int, pass_view(item));
            }
            sorted.insert(j, item);
            proof {
                assert(pass_views(sorted@) =~= before.insert(j as int, pass_view(item)));
                assert(ov.subrange(0, orig.len() - pending@.len()) =~= done.push(pass_view(item)));
            }
        }
        proof {
            assert(ov.subrange(0, orig.len() as int) =~= ov);
        }
        self.passes = sorted;
    }

    /// The report of a run that took `duration` and ended with `outcomes`,
    /// one for each test, in the order they were gathered.
    pub fn from_outcomes(outcomes: &Vec<(String, TestCaseResult)>, duration: TestDuration) -> (res: SuiteReport)
        ensures
            res.wf(),
            res.pass_entries() == outcome_passes(outcomes@),
            res.failures() == outcome_failures(outcomes@),
            res.duration == duration,
    {
        let mut results = SuiteReport::default();
        results.duration = duration;
        let mut i: usize = 0;
        proof {
            assert(outcomes@.subrange(0, 0) =~= Seq::<(String, TestCaseResult)>::empty());
            assert(results.pass_entries() =~= Seq::<PassView>::empty());
            assert(results.failures() =~= Map::<Seq<char>, Seq<char>>::empty());
        }
        while i < outcomes.len()
            invariant
                i <= outcomes@.len(),
                results.wf(),
                results.pass_entries() == outcome_passes(outcomes@.subrange(0, i as int)),
                results.failures() == outcome_failures(outcomes@.subrange(0, i as int)),
                results.duration == duration,
            decreases outcomes@.len() - i,
        {
            let ghost seen = outcomes@.subrange(0, i as int);
            proof {
                assert(outcomes@.subrange(0, i + 1).drop_last() =~= seen);
            }
            match &outcomes[i].1 {
                TestCaseResult::Pass(d) => results.pass(outcomes[i].0.as_str(), d),
                TestCaseResult::Fail(why) => results.fail(outcomes[i].0.as_str(), why.clone()),
            }
            i = i + 1;
        }
        proof {
            assert(outcomes@.subrange(0, outcomes@.len() as int) =~= outcomes@);
        }
        results
    }

    /// The closing line of the report: how many tests ran, passed and failed,
    /// and how long the run took.
    pub fn summary_line(&self) -> (res: String)
        requires
            self.fails@.len() + self.passes@.len() <= usize::MAX,
        ensures
            res@ == decimal_digits((self.fails@.len() + self.passes@.len()) as nat) + " test(s) total - "@
                + decimal_digits(self.passes@.len()) + " passed, "@ + decimal_digits(self.fails@.len())
                + " failed - in "@ + seconds_digits(self.duration) + " seconds"@,
    {
        let mut res = decimal_text(self.len() as u64);
        res.append(" test(s) total - ");
        let passed = decimal_text(self.num_passes() as u64);
        res.append(passed.as_str());
        res.append(" passed, ");
        let failed = decimal_text(self.num_fails() as u64);
        res.append(failed.as_str());
        res.append(" failed - in ");
        let secs = self.duration.seconds_text();
        res.append(secs.as_str());
        res.append(" seconds");
        proof {
            assert(res@ =~= decimal_digits((self.fails@.len() + self.passes@.len()) as nat)
                + " test(s) total - "@ + decimal_digits(self.passes@.len()) + " passed, "@
                + decimal_digits(self.fails@.len()) + " failed - in "@ + seconds_digits(self.duration)
                + " seconds"@);
        }
        res
    }

    /// Whether the full report is printed: when some test failed, or when
    /// asked to be `verbose`; otherwise a run only says that all tests passed.
    pub fn needs_full_report(&self, verbose: bool) -> (res: bool)
        ensures
            res == (self.fails@.len() > 0 || verbose),
    {
        self.num_fails() > 0 || verbose
    }

    /// How the run ends: in failure when any test failed.
    pub fn report(&self) -> (res: RunStatus)
        ensures
            res == if self.fails@.len() > 0 { RunStatus::Failure } else { RunStatus::Success },
    {
        if self.num_fails() > 0 {
            RunStatus::Failure
        } else {
            RunStatus::Success
        }
    }
}

} // verus!

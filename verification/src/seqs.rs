//! Facts about sequences.

use vstd::prelude::*;

verus! {

/// Where `x` stands first in `s`, and the length of `s` where it stands nowhere.
pub open spec fn first_index<T>(s: Seq<T>, x: T) -> int
    decreases s.len(),
{
    if s.len() == 0 || s[0] == x {
        0
    } else {
        1 + first_index(s.skip(1), x)
    }
}

/// The first index is the only one that holds `x` with no `x` before it.
pub proof fn lemma_first_index<T>(s: Seq<T>, x: T, k: int)
    requires
        0 <= k <= s.len(),
        forall|i: int| 0 <= i < k ==> s[i] != x,
        k < s.len() ==> s[k] == x,
    ensures
        first_index(s, x) == k,
    decreases s.len(),
{
    if s.len() > 0 && s[0] != x {
        let rest = s.skip(1);
        assert forall|i: int| 0 <= i < k - 1 implies rest[i] != x by {
            assert(rest[i] == s[i + 1]);
        }
        lemma_first_index(rest, x, k - 1);
    }
}

/// What the first index is: no `x` stands before it, and `x` stands at it
/// unless it is the length.
pub proof fn lemma_first_index_bounds<T>(s: Seq<T>, x: T)
    ensures
        0 <= first_index(s, x) <= s.len(),
        forall|i: int| 0 <= i < first_index(s, x) ==> s[i] != x,
        first_index(s, x) < s.len() ==> s[first_index(s, x)] == x,
    decreases s.len(),
{
    if s.len() > 0 && s[0] != x {
        lemma_first_index_bounds(s.skip(1), x);
        assert forall|i: int| 0 <= i < first_index(s, x) implies s[i] != x by {
            if i > 0 {
                assert(s.skip(1)[i - 1] == s[i]);
            }
        }
    }
}

/// A filter that drops the entry at `k` alone, or nothing where `k` is the length.
pub proof fn lemma_filter_out<T>(s: Seq<T>, keep: spec_fn(T) -> bool, k: int)
    requires
        0 <= k <= s.len(),
        forall|i: int| 0 <= i < s.len() && i != k ==> keep(#[trigger] s[i]),
        k < s.len() ==> !keep(s[k]),
    ensures
        s.filter(keep) == if k < s.len() {
            s.remove(k)
        } else {
            s
        },
    decreases s.len(),
{
    reveal(Seq::filter);
    if s.len() > 0 {
        let front = s.drop_last();
        if k >= front.len() {
            lemma_filter_out(front, keep, front.len() as int);
        } else {
            lemma_filter_out(front, keep, k);
        }
        if k == front.len() {
            assert(s.remove(k) =~= front);
        } else if k < front.len() {
            assert(s.remove(k) =~= front.remove(k).push(s.last()));
        } else {
            assert(front.push(s.last()) =~= s);
        }
    }
}

/// How often `x` stands in `s`.
pub open spec fn occurrences<T>(s: Seq<T>, x: T) -> nat
    decreases s.len(),
{
    if s.len() == 0 {
        0
    } else {
        occurrences(s.drop_last(), x) + if s.last() == x {
            1nat
        } else {
            0nat
        }
    }
}

/// What stands in two sequences, one behind the other, stands in both together
/// as often as in each.
pub proof fn lemma_occurrences_of_sum<T>(a: Seq<T>, b: Seq<T>, x: T)
    ensures
        occurrences(a + b, x) == occurrences(a, x) + occurrences(b, x),
    decreases b.len(),
{
    if b.len() == 0 {
        assert(a + b =~= a);
    } else {
        assert((a + b).drop_last() =~= a + b.drop_last());
        lemma_occurrences_of_sum(a, b.drop_last(), x);
    }
}

/// What is nowhere in a sequence stands in it not once.
pub proof fn lemma_no_occurrence<T>(s: Seq<T>, x: T)
    requires
        forall|i: int| 0 <= i < s.len() ==> s[i] != x,
    ensures
        occurrences(s, x) == 0,
    decreases s.len(),
{
    if s.len() > 0 {
        lemma_no_occurrence(s.drop_last(), x);
    }
}

/// Two tests that agree on every element of `s` keep the same elements.
pub proof fn lemma_filter_same<T>(s: Seq<T>, p: spec_fn(T) -> bool, q: spec_fn(T) -> bool)
    requires
        forall|i: int| 0 <= i < s.len() ==> p(#[trigger] s[i]) == q(s[i]),
    ensures
        s.filter(p) == s.filter(q),
    decreases s.len(),
{
    reveal(Seq::filter);
    if s.len() > 0 {
        lemma_filter_same(s.drop_last(), p, q);
        assert(p(s[s.len() - 1]) == q(s[s.len() - 1]));
    }
}

/// Keeping what passes `p` and of that what passes `q` keeps what passes both.
pub proof fn lemma_filter_twice<T>(
    s: Seq<T>,
    p: spec_fn(T) -> bool,
    q: spec_fn(T) -> bool,
    both: spec_fn(T) -> bool,
)
    requires
        forall|e: T| #[trigger] both(e) == (p(e) && q(e)),
    ensures
        s.filter(p).filter(q) == s.filter(both),
    decreases s.len(),
{
    reveal(Seq::filter);
    if s.len() > 0 {
        let front = s.drop_last();
        lemma_filter_twice(front, p, q, both);
        assert(both(s.last()) == (p(s.last()) && q(s.last())));
        if p(s.last()) {
            assert(front.filter(p).push(s.last()).drop_last() =~= front.filter(p));
        }
    }
}

/// It does not matter which of two tests is made first.
pub proof fn lemma_filter_commutes<T>(s: Seq<T>, p: spec_fn(T) -> bool, q: spec_fn(T) -> bool)
    ensures
        s.filter(p).filter(q) == s.filter(q).filter(p),
{
    let both = |e: T| p(e) && q(e);
    lemma_filter_twice(s, p, q, both);
    lemma_filter_twice(s, q, p, both);
}

/// What stands in all of a sequence but its last element stands in all of it,
/// and so does the last element.
pub proof fn lemma_contains_of_front<T>(s: Seq<T>)
    requires
        s.len() > 0,
    ensures
        s.contains(s.last()),
        forall|x: T| s.drop_last().contains(x) ==> #[trigger] s.contains(x),
{
    let front = s.drop_last();
    assert(s[s.len() - 1] == s.last());
    assert forall|x: T| front.contains(x) implies #[trigger] s.contains(x) by {
        let i = choose|i: int| 0 <= i < front.len() && front[i] == x;
        assert(s[i] == x);
    }
}

/// Whether `a` and `b` hold the same bytes.
pub fn same_bytes(a: &[u8], b: &[u8]) -> (same: bool)
    ensures
        same == (a@ == b@),
{
    if a.len() != b.len() {
        return false;
    }
    for i in 0..a.len()
        invariant
            a@.len() == b@.len(),
            forall|j: int| 0 <= j < i ==> a@[j] == b@[j],
    {
        if a[i] != b[i] {
            return false;
        }
    }
    assert(a@ =~= b@);
    true
}

} // verus!

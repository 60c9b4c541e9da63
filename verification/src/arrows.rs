//! Retiring arrows that have landed: the positions of the landed arrows are
//! collected in ascending order during a tick, then removed from the list of
//! arrows in flight, last position first.

use vstd::prelude::*;

verus! {

/// The elements of `s` at the positions where `dropped` does not hold, in
/// their order in `s`.
pub open spec fn keep_where<T>(s: Seq<T>, dropped: spec_fn(int) -> bool) -> Seq<T>
    decreases s.len(),
{
    if s.len() == 0 {
        Seq::empty()
    } else {
        let rest = keep_where(s.drop_last(), dropped);
        if dropped(s.len() - 1) {
            rest
        } else {
            rest.push(s.last())
        }
    }
}

/// `s` without the elements at the positions listed in `marked`.
pub open spec fn without_positions<T>(s: Seq<T>, marked: Seq<usize>) -> Seq<T> {
    keep_where(s, |i: int| marked.contains(i as usize))
}

/// Strictly ascending positions, each below `len`.
pub open spec fn ascending_positions(marked: Seq<usize>, len: nat) -> bool {
    &&& forall|i: int, j: int| 0 <= i < j < marked.len() ==> marked[i] < marked[j]
    &&& forall|i: int| 0 <= i < marked.len() ==> marked[i] < len
}

/// Two position predicates that agree on the positions of `s` keep the same
/// elements.
proof fn lemma_keep_where_congruent<T>(s: Seq<T>, p: spec_fn(int) -> bool, q: spec_fn(int) -> bool)
    requires
        forall|i: int| 0 <= i < s.len() ==> #[trigger] p(i) == q(i),
    ensures
        keep_where(s, p) == keep_where(s, q),
    decreases s.len(),
{
    if s.len() > 0 {
        lemma_keep_where_congruent(s.drop_last(), p, q);
    }
}

/// When the first `m` positions are all kept, they open the result unchanged.
proof fn lemma_keep_where_prefix<T>(s: Seq<T>, p: spec_fn(int) -> bool, m: nat)
    requires
        m <= s.len(),
        forall|i: int| 0 <= i < m ==> !#[trigger] p(i),
    ensures
        keep_where(s, p).len() >= m,
        forall|j: int| 0 <= j < m ==> keep_where(s, p)[j] == s[j],
    decreases s.len(),
{
    if s.len() > 0 {
        let s1 = s.drop_last();
        let rest = keep_where(s1, p);
        if m == s.len() {
            lemma_keep_where_prefix(s1, p, (m - 1) as nat);
            lemma_keep_where_len(s1, p);
            assert(!p(s.len() - 1));
            assert forall|j: int| 0 <= j < m implies keep_where(s, p)[j] == s[j] by {
                if j < m - 1 {
                    assert(s1[j] == s[j]);
                }
            }
        } else {
            lemma_keep_where_prefix(s1, p, m);
            assert forall|j: int| 0 <= j < m implies keep_where(s, p)[j] == s[j] by {
                assert(s1[j] == s[j]);
                assert(rest[j] == s1[j]);
            }
        }
    }
}

/// Dropping one more position `idx`, below every position dropped so far,
/// removes the element at `idx` from the result.
proof fn lemma_keep_where_drop_one<T>(s: Seq<T>, p: spec_fn(int) -> bool, q: spec_fn(int) -> bool, idx: int)
    requires
        0 <= idx < s.len(),
        forall|i: int| 0 <= i < s.len() && #[trigger] p(i) ==> i > idx,
        forall|i: int| 0 <= i < s.len() ==> #[trigger] q(i) == (p(i) || i == idx),
    ensures
        keep_where(s, p).len() > idx,
        keep_where(s, q) == keep_where(s, p).remove(idx),
    decreases s.len(),
{
    let n = s.len();
    let s1 = s.drop_last();
    lemma_keep_where_prefix(s, p, (idx + 1) as nat);
    if n - 1 == idx {
        // every position before `idx` is kept by both predicates
        lemma_keep_where_prefix(s1, p, s1.len());
        lemma_keep_where_prefix(s1, q, s1.len());
        lemma_keep_where_len(s1, p);
        lemma_keep_where_len(s1, q);
        assert(keep_where(s1, p) =~= s1);
        assert(keep_where(s1, q) =~= s1);
        assert(keep_where(s, p).remove(idx) =~= s1);
    } else {
        lemma_keep_where_drop_one(s1, p, q, idx);
        let rest = keep_where(s1, p);
        if !p(n - 1) {
            assert(rest.push(s.last()).remove(idx) =~= rest.remove(idx).push(s.last()));
        }
    }
}

/// The result is never longer than the input.
proof fn lemma_keep_where_len<T>(s: Seq<T>, p: spec_fn(int) -> bool)
    ensures
        keep_where(s, p).len() <= s.len(),
    decreases s.len(),
{
    if s.len() > 0 {
        lemma_keep_where_len(s.drop_last(), p);
    }
}

/// Removes from `items` the elements at the positions listed in `marked`
/// (strictly ascending), keeping the order of the rest, and empties `marked`.
pub fn remove_marked<T>(items: &mut Vec<T>, marked: &mut Vec<usize>)
    requires
        ascending_positions(old(marked)@, old(items)@.len()),
    ensures
        final(items)@ == without_positions(old(items)@, old(marked)@),
        final(items)@.len() == old(items)@.len() - old(marked)@.len(),
        final(marked)@ == Seq::<usize>::empty(),
{
    let len0 = items.len();
    let ghost s = items@;
    let ghost m = marked@;
    proof {
        assert(s.len() == len0);
        lemma_keep_where_congruent(s, |i: int| m.skip(m.len() as int).contains(i as usize), |i: int| false);
        assert(keep_where(s, |i: int| false) =~= s) by {
            lemma_keep_where_prefix(s, |i: int| false, s.len());
            lemma_keep_where_len(s, |i: int| false);
        }
    }
    while marked.len() > 0
        invariant
            ascending_positions(m, s.len()),
            s.len() <= usize::MAX,
            marked@ == m.take(marked@.len() as int),
            marked@.len() <= m.len(),
            items@ == keep_where(s, |i: int| m.skip(marked@.len() as int).contains(i as usize)),
            items@.len() == s.len() - (m.len() - marked@.len()),
        decreases marked@.len(),
    {
        let ghost k = marked@.len() as int;
        let ghost p = |i: int| m.skip(k).contains(i as usize);
        let ghost q = |i: int| m.skip(k - 1).contains(i as usize);
        let idx = marked.pop().unwrap();
        proof {
            assert(idx == m[k - 1]);
            assert forall|i: int| 0 <= i < s.len() && #[trigger] p(i) implies i > idx by {
                let t = choose|t: int| 0 <= t < m.skip(k).len() && #[trigger] m.skip(k)[t] == i as usize;
                assert(m[k + t] == i as usize);
            }
            assert forall|i: int| 0 <= i < s.len() implies #[trigger] q(i) == (p(i) || i == idx) by {
                if q(i) {
                    let t = choose|t: int| 0 <= t < m.skip(k - 1).len() && #[trigger] m.skip(k - 1)[t] == i as usize;
                    if t > 0 {
                        assert(m.skip(k)[t - 1] == i as usize);
                    }
                }
                if p(i) {
                    let t = choose|t: int| 0 <= t < m.skip(k).len() && #[trigger] m.skip(k)[t] == i as usize;
                    assert(m.skip(k - 1)[t + 1] == i as usize);
                }
                if i == idx {
                    assert(m.skip(k - 1)[0] == i as usize);
                }
                assert(i as usize == i);
            }
            lemma_keep_where_drop_one(s, p, q, idx as int);
        }
        items.remove(idx);
        assert(marked@ =~= m.take(marked@.len() as int));
    }
    proof {
        assert(m.skip(0) =~= m);
    }
}

} // verus!

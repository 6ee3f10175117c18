use vstd::prelude::*;

verus! {

/// The number of items of `s` that satisfy `p`.
pub open spec fn count_where<A>(s: Seq<A>, p: spec_fn(A) -> bool) -> nat
    decreases s.len(),
{
    if s.len() == 0 {
        0
    } else {
        count_where(s.drop_last(), p) + if p(s.last()) {
            1nat
        } else {
            0nat
        }
    }
}

/// Replacing one item changes the count by what the old and the new item add.
pub proof fn lemma_count_update<A>(s: Seq<A>, p: spec_fn(A) -> bool, j: int, x: A)
    requires
        0 <= j < s.len(),
    ensures
        count_where(s.update(j, x), p) + (if p(s[j]) { 1int } else { 0int }) == count_where(s, p) + (if p(
            x,
        ) {
            1int
        } else {
            0int
        }),
    decreases s.len(),
{
    let t = s.update(j, x);
    if j == s.len() - 1 {
        assert(t.drop_last() =~= s.drop_last());
    } else {
        lemma_count_update(s.drop_last(), p, j, x);
        assert(t.drop_last() =~= s.drop_last().update(j, x));
    }
}

/// A count of zero means no item satisfies `p`.
pub proof fn lemma_count_zero<A>(s: Seq<A>, p: spec_fn(A) -> bool)
    ensures
        count_where(s, p) == 0 <==> forall|k: int| 0 <= k < s.len() ==> !p(#[trigger] s[k]),
    decreases s.len(),
{
    if s.len() > 0 {
        lemma_count_zero(s.drop_last(), p);
        if count_where(s, p) == 0 {
            assert forall|k: int| 0 <= k < s.len() implies !p(#[trigger] s[k]) by {
                if k < s.len() - 1 {
                    assert(s[k] == s.drop_last()[k]);
                }
            }
        } else {
            if forall|k: int| 0 <= k < s.len() ==> !p(#[trigger] s[k]) {
                assert(!p(s[s.len() - 1]));
                assert forall|k: int| 0 <= k < s.drop_last().len() implies !p(#[trigger] s.drop_last()[k]) by {
                    assert(s.drop_last()[k] == s[k]);
                }
            }
        }
    }
}

/// A count is at most the length.
pub proof fn lemma_count_bound<A>(s: Seq<A>, p: spec_fn(A) -> bool)
    ensures
        count_where(s, p) <= s.len(),
    decreases s.len(),
{
    if s.len() > 0 {
        lemma_count_bound(s.drop_last(), p);
    }
}

/// A count equal to the length means every item satisfies `p`.
pub proof fn lemma_count_full<A>(s: Seq<A>, p: spec_fn(A) -> bool)
    ensures
        count_where(s, p) == s.len() <==> forall|k: int| 0 <= k < s.len() ==> p(#[trigger] s[k]),
    decreases s.len(),
{
    if s.len() > 0 {
        lemma_count_full(s.drop_last(), p);
        lemma_count_bound(s.drop_last(), p);
        if count_where(s, p) == s.len() {
            assert forall|k: int| 0 <= k < s.len() implies p(#[trigger] s[k]) by {
                if k < s.len() - 1 {
                    assert(s[k] == s.drop_last()[k]);
                }
            }
        } else {
            if forall|k: int| 0 <= k < s.len() ==> p(#[trigger] s[k]) {
                assert(p(s[s.len() - 1]));
                assert forall|k: int| 0 <= k < s.drop_last().len() implies p(#[trigger] s.drop_last()[k]) by {
                    assert(s.drop_last()[k] == s[k]);
                }
            }
        }
    }
}

/// The count of a non-empty sequence is its first item's share plus the
/// count of the rest.
pub proof fn lemma_count_first<A>(s: Seq<A>, p: spec_fn(A) -> bool)
    requires
        s.len() > 0,
    ensures
        count_where(s, p) == count_where(s.subrange(1, s.len() as int), p) + (if p(s[0]) { 1int } else { 0int }),
    decreases s.len(),
{
    if s.len() > 1 {
        let t = s.drop_last();
        lemma_count_first(t, p);
        assert(t.subrange(1, t.len() as int) =~= s.subrange(1, s.len() as int).drop_last());
        assert(s.subrange(1, s.len() as int).last() == s.last());
    } else {
        assert(s.subrange(1, s.len() as int) =~= Seq::<A>::empty());
        assert(s.drop_last() =~= Seq::<A>::empty());
    }
}

/// A predicate that holds less often counts no more.
pub proof fn lemma_count_mono<A>(s: Seq<A>, q: spec_fn(A) -> bool, p: spec_fn(A) -> bool)
    requires
        forall|k: int| 0 <= k < s.len() && #[trigger] q(s[k]) ==> p(s[k]),
    ensures
        count_where(s, q) <= count_where(s, p),
    decreases s.len(),
{
    if s.len() > 0 {
        let t = s.drop_last();
        assert forall|k: int| 0 <= k < t.len() && #[trigger] q(t[k]) implies p(t[k]) by {
            assert(t[k] == s[k]);
        }
        lemma_count_mono(t, q, p);
        if q(s.last()) {
            assert(q(s[s.len() - 1]));
        }
    }
}

} // verus!

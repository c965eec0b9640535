//! Small helpers over mathematical sequences used throughout the contracts.
use vstd::prelude::*;
use vstd::multiset::Multiset;

verus! {

/// How many elements of `s` satisfy `pred`.
pub open spec fn count_where<A>(s: Seq<A>, pred: spec_fn(A) -> bool) -> int {
    s.filter(pred).len() as int
}

/// The predicate "this element equals `v`".
pub open spec fn eq_to<A>(v: A) -> spec_fn(A) -> bool {
    |x: A| x == v
}

/// Counting occurrences of one value agrees with the multiset view.
pub proof fn lemma_count_eq_multiset<A>(s: Seq<A>, v: A)
    ensures
        count_where(s, eq_to(v)) == s.to_multiset().count(v),
    decreases s.len(),
{
    broadcast use vstd::seq_lib::group_to_multiset_ensures;
    broadcast use Seq::lemma_filter_push;

    let pred = eq_to(v);
    if s.len() == 0 {
        reveal(Seq::filter);
        assert(s.to_multiset() =~= Multiset::<A>::empty());
    } else {
        let t = s.drop_last();
        lemma_count_eq_multiset(t, v);
        assert(t.push(s.last()) =~= s);
        assert(t.push(s.last()).to_multiset() =~= t.to_multiset().insert(s.last()));
    }
}

/// Filtering keeps a sequence whose elements all pass.
pub proof fn lemma_filter_retains_all<A>(s: Seq<A>, pred: spec_fn(A) -> bool)
    requires
        forall|i: int| 0 <= i < s.len() ==> pred(#[trigger] s[i]),
    ensures
        s.filter(pred) == s,
    decreases s.len(),
{
    broadcast use Seq::lemma_filter_push;

    if s.len() == 0 {
        reveal(Seq::filter);
        assert(s.filter(pred) =~= s);
    } else {
        let t = s.drop_last();
        lemma_filter_retains_all(t, pred);
        assert(t.push(s.last()) =~= s);
        assert(s.last() == s[s.len() - 1]);
    }
}

/// Filtering empties a sequence none of whose elements pass.
pub proof fn lemma_filter_drops_all<A>(s: Seq<A>, pred: spec_fn(A) -> bool)
    requires
        forall|i: int| 0 <= i < s.len() ==> !pred(#[trigger] s[i]),
    ensures
        s.filter(pred) == Seq::<A>::empty(),
    decreases s.len(),
{
    broadcast use Seq::lemma_filter_push;

    if s.len() == 0 {
        reveal(Seq::filter);
        assert(s.filter(pred) =~= Seq::<A>::empty());
    } else {
        let t = s.drop_last();
        lemma_filter_drops_all(t, pred);
        assert(t.push(s.last()) =~= s);
        assert(s.last() == s[s.len() - 1]);
    }
}

/// Predicates that agree on every element of a sequence count alike.
pub proof fn lemma_count_equiv<A>(s: Seq<A>, p1: spec_fn(A) -> bool, p2: spec_fn(A) -> bool)
    requires
        forall|i: int| 0 <= i < s.len() ==> (p1(#[trigger] s[i]) <==> p2(s[i])),
    ensures
        count_where(s, p1) == count_where(s, p2),
    decreases s.len(),
{
    broadcast use Seq::lemma_filter_push;

    if s.len() == 0 {
        reveal(Seq::filter);
    } else {
        let t = s.drop_last();
        lemma_count_equiv(t, p1, p2);
        assert(t.push(s.last()) =~= s);
        assert(s.last() == s[s.len() - 1]);
    }
}

/// Two sequences with equal multisets have equal occurrence counts everywhere.
pub proof fn lemma_multiset_eq_count<A>(s1: Seq<A>, s2: Seq<A>, v: A)
    requires
        s1.to_multiset() == s2.to_multiset(),
    ensures
        count_where(s1, eq_to(v)) == count_where(s2, eq_to(v)),
{
    lemma_count_eq_multiset(s1, v);
    lemma_count_eq_multiset(s2, v);
}

} // verus!

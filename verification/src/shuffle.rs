//! A uniform Fisher–Yates shuffle over the library's random source.
use vstd::prelude::*;
use crate::rng::rand_below;

verus! {

/// Shuffle a vector in place. The contents are preserved exactly, as a
/// multiset; only the order changes.
pub fn shuffle<T: Copy>(vec: &mut Vec<T>)
    ensures
        final(vec)@.len() == old(vec)@.len(),
        final(vec)@.to_multiset() == old(vec)@.to_multiset(),
{
    broadcast use vstd::seq_lib::group_to_multiset_ensures;
    broadcast use vstd::seq_lib::to_multiset_update;
    broadcast use vstd::multiset::group_multiset_axioms;

    let ghost orig = vec@;
    let n = vec.len();
    if n == 0 {
        return;
    }
    let mut i: usize = n - 1;
    while i >= 1
        invariant
            i < n,
            n == vec@.len(),
            vec@.len() == orig.len(),
            vec@.to_multiset() == orig.to_multiset(),
        decreases i,
    {
        let j_wide = rand_below(i as u64 + 1);
        let j = j_wide as usize;
        let ghost s = vec@;
        let a = vec[i];
        let b = vec[j];
        vec.set(i, b);
        vec.set(j, a);
        proof {
            let s1 = s.update(i as int, b);
            let s2 = s1.update(j as int, a);
            s.to_multiset_ensures();
            assert(s.contains(s[i as int]));
            assert(s.contains(s[j as int]));
            assert(s.to_multiset().count(a) > 0);
            assert(s.to_multiset().count(b) > 0);
            if i == j {
                assert(s2 =~= s.update(i as int, a));
                assert(s2 =~= s);
            } else {
                vstd::seq_lib::to_multiset_update(s, i as int, b);
                vstd::seq_lib::to_multiset_update(s1, j as int, a);
                assert(s1.to_multiset() == s.to_multiset().insert(b).remove(s[i as int]));
                assert(s2.to_multiset() == s1.to_multiset().insert(a).remove(s1[j as int]));
                assert(s1[j as int] == s[j as int]);
                assert(s2.to_multiset() =~= s.to_multiset());
            }
        }
        i -= 1;
    }
}

} // verus!

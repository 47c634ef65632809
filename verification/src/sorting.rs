//! Ascending ordering of sample sets.
//!
//! Every reduction (maximum, median, jitter) is defined over the ascending
//! reordering of the samples a measurer collected, so this module gives that
//! reordering a canonical spec-level name, `ascending_of`, and a verified
//! executable sort that produces exactly it.

use vstd::prelude::*;
use vstd::relations::sorted_by;
use vstd::relations::total_ordering;
use vstd::seq_lib::group_to_multiset_ensures;
use vstd::seq_lib::lemma_sorted_unique;
use vstd::seq_lib::to_multiset_insert;

verus! {

/// The samples stand in ascending order.
pub open spec fn is_ascending(s: Seq<u64>) -> bool {
    forall|i: int, j: int| 0 <= i <= j < s.len() ==> s[i] <= s[j]
}

/// The ascending reordering of a sample sequence: the unique permutation of
/// `s` that is sorted in ascending order.
pub open spec fn ascending_of(s: Seq<u64>) -> Seq<u64> {
    s.sort_by(|x: u64, y: u64| x <= y)
}

/// `ascending_of` is a sorted permutation: same multiset of samples, same
/// length, ascending order.
pub proof fn lemma_ascending_of(s: Seq<u64>)
    ensures
        ascending_of(s).to_multiset() == s.to_multiset(),
        is_ascending(ascending_of(s)),
        ascending_of(s).len() == s.len(),
{
    broadcast use group_to_multiset_ensures;

    let leq = |x: u64, y: u64| x <= y;
    s.lemma_sort_by_ensures(leq);
    let a = ascending_of(s);
    assert forall|i: int, j: int| 0 <= i <= j < a.len() implies a[i] <= a[j] by {
        if i < j {
            assert(leq(a[i], a[j]));
        }
    }
    assert(s.len() == s.to_multiset().len());
    assert(a.len() == a.to_multiset().len());
}

/// Any ascending sequence with the same samples as `s` is `ascending_of(s)`:
/// the sorted reordering is unique.
pub proof fn lemma_ascending_unique(a: Seq<u64>, s: Seq<u64>)
    requires
        is_ascending(a),
        a.to_multiset() == s.to_multiset(),
    ensures
        a == ascending_of(s),
{
    let leq = |x: u64, y: u64| x <= y;
    lemma_ascending_of(s);
    assert forall|x: u64| #[trigger] leq(x, x) by {}
    assert forall|x: u64, y: u64| #[trigger] leq(x, y) && #[trigger] leq(y, x) implies x == y by {}
    assert forall|x: u64, y: u64, z: u64|
        #[trigger] leq(x, y) && #[trigger] leq(y, z) implies leq(x, z) by {}
    assert forall|x: u64, y: u64| !(#[trigger] leq(x, y)) implies leq(y, x) by {}
    assert(total_ordering(leq));
    assert(sorted_by(a, leq));
    assert(sorted_by(ascending_of(s), leq));
    lemma_sorted_unique(a, ascending_of(s), leq);
    assert(a =~= ascending_of(s));
}

/// Inserts `x` into an ascending vector, keeping it ascending.
fn insert_ascending(out: &mut Vec<u64>, x: u64)
    requires
        is_ascending(old(out)@),
    ensures
        is_ascending(final(out)@),
        final(out)@.to_multiset() == old(out)@.to_multiset().insert(x),
        final(out)@.len() == old(out)@.len() + 1,
{
    let mut j: usize = 0;
    while j < out.len() && out[j] < x
        invariant
            j <= out@.len(),
            forall|k: int| 0 <= k < j ==> out@[k] < x,
            out@ == old(out)@,
        decreases out@.len() - j,
    {
        j += 1;
    }
    let ghost pre = out@;
    out.insert(j, x);
    proof {
        broadcast use to_multiset_insert;

        pre.insert_ensures(j as int, x);
        assert forall|p: int, q: int| 0 <= p <= q < out@.len() implies out@[p] <= out@[q] by {
            if q < j {
                assert(out@[p] == pre[p] && out@[q] == pre[q]);
            } else if p < j && q == j {
                assert(out@[p] == pre[p] && out@[q] == x);
            } else if p < j && q > j {
                assert(out@[p] == pre[p] && out@[q] == pre[q - 1]);
                assert(pre[p] < x);
                assert(pre[p] <= pre[q - 1]);
            } else if p == j && q > j {
                assert(out@[p] == x && out@[q] == pre[q - 1]);
                assert(j < pre.len());
                assert(x <= pre[j as int]);
                assert(pre[j as int] <= pre[q - 1]);
            } else if p > j {
                assert(out@[p] == pre[p - 1] && out@[q] == pre[q - 1]);
            }
        }
    }
}

/// Sorts the samples into ascending order; the result is exactly
/// `ascending_of` of the input.
pub fn into_ascending(v: Vec<u64>) -> (r: Vec<u64>)
    ensures
        r@ == ascending_of(v@),
        r@.len() == v@.len(),
{
    broadcast use group_to_multiset_ensures;

    let mut out: Vec<u64> = Vec::new();
    let mut i: usize = 0;
    while i < v.len()
        invariant
            i <= v@.len(),
            is_ascending(out@),
            out@.len() == i,
            out@.to_multiset() == v@.take(i as int).to_multiset(),
        decreases v@.len() - i,
    {
        let x = v[i];
        let ghost before = out@;
        insert_ascending(&mut out, x);
        proof {
            broadcast use group_to_multiset_ensures;

            assert(v@.take(i as int).push(x) =~= v@.take(i + 1 as int));
            assert(v@.take(i as int).push(x).to_multiset()
                == v@.take(i as int).to_multiset().insert(x));
        }
        i += 1;
    }
    proof {
        assert(v@.take(v@.len() as int) =~= v@);
        lemma_ascending_unique(out@, v@);
        lemma_ascending_of(v@);
    }
    out
}

/// The maximum of a non-empty sample set: the last element of its ascending
/// reordering.
pub open spec fn max_of_samples(s: Seq<u64>) -> u64
    recommends
        s.len() > 0,
{
    ascending_of(s).last()
}

/// The upper median of a non-empty sample set: the element at index `len / 2`
/// of its ascending reordering (the true median for odd counts, the
/// upper-middle element for even counts).
pub open spec fn upper_median_of(s: Seq<u64>) -> u64
    recommends
        s.len() > 0,
{
    ascending_of(s)[s.len() as int / 2]
}

/// The value reported for a non-empty sample set is one of its samples, and
/// no sample exceeds it: the reduction picks the maximum observed sample.
pub proof fn lemma_max_of_samples_is_maximum(s: Seq<u64>)
    requires
        s.len() > 0,
    ensures
        s.contains(max_of_samples(s)),
        forall|i: int| 0 <= i < s.len() ==> s[i] <= max_of_samples(s),
{
    broadcast use group_to_multiset_ensures;

    lemma_ascending_of(s);
    let a = ascending_of(s);
    let m = max_of_samples(s);
    assert(a.contains(m));
    assert(a.to_multiset().count(m) > 0);
    assert(s.to_multiset().count(m) > 0);
    assert forall|i: int| 0 <= i < s.len() implies s[i] <= m by {
        assert(s.contains(s[i]));
        assert(s.to_multiset().count(s[i]) > 0);
        assert(a.to_multiset().count(s[i]) > 0);
        assert(a.contains(s[i]));
        let j = choose|j: int| 0 <= j < a.len() && a[j] == s[i];
        assert(a[j] <= a[a.len() - 1]);
    }
}

/// The upper median of a non-empty sample set is one of its samples: the
/// reduction reports an observed value, never an interpolated one.
pub proof fn lemma_upper_median_is_sample(s: Seq<u64>)
    requires
        s.len() > 0,
    ensures
        s.contains(upper_median_of(s)),
{
    broadcast use group_to_multiset_ensures;

    lemma_ascending_of(s);
    let a = ascending_of(s);
    let m = upper_median_of(s);
    assert(a.contains(m));
    assert(a.to_multiset().count(m) > 0);
    assert(s.to_multiset().count(m) > 0);
}

/// Reduces a sample set to its maximum; `None` exactly when no sample was
/// collected.
pub fn reduce_maximum(samples: Vec<u64>) -> (r: Option<u64>)
    ensures
        (r is Some) <==> samples@.len() > 0,
        samples@.len() > 0 ==> r == Some(max_of_samples(samples@)),
{
    if samples.len() == 0 {
        return None;
    }
    let sorted = into_ascending(samples);
    Some(sorted[sorted.len() - 1])
}

/// Reduces a sample set to its upper median; `None` exactly when no sample
/// was collected.
pub fn reduce_upper_median(samples: Vec<u64>) -> (r: Option<u64>)
    ensures
        (r is Some) <==> samples@.len() > 0,
        samples@.len() > 0 ==> r == Some(upper_median_of(samples@)),
{
    if samples.len() == 0 {
        return None;
    }
    let n = samples.len();
    let sorted = into_ascending(samples);
    Some(sorted[n / 2])
}

} // verus!

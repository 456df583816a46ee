//! Per-ledger relayer buffers: duplicate detection, weight-based truncation
//! and the median that becomes the canonical price.

use vstd::prelude::*;
use vstd::relations::{sorted_by, total_ordering};
use vstd::seq_lib::{lemma_sorted_unique, group_to_multiset_ensures, to_multiset_update};
use vstd::multiset::Multiset;
use super::types::{PriceBuffer, PriceBufferEntry};

verus! {

/// Maximum number of entries kept in a buffer for the median calculation.
pub const MAX_MEDIAN_ENTRIES: u32 = 11;

/// The prices of a sequence as mathematical integers.
pub open spec fn int_seq(s: Seq<i128>) -> Seq<int> {
    s.map_values(|x: i128| x as int)
}

/// The median of an ascending sequence: the middle element, or the floor of
/// the mean of the two middle elements when the length is even.
pub open spec fn median_of_sorted(t: Seq<int>) -> int
    recommends
        t.len() > 0,
{
    if t.len() % 2 == 1 {
        t[(t.len() / 2) as int]
    } else {
        (t[t.len() / 2 - 1] + t[(t.len() / 2) as int]) / 2
    }
}

/// The median of a sequence of prices.
pub open spec fn median(s: Seq<int>) -> int {
    median_of_sorted(s.sort())
}

/// Floor of the mean of two `i128` values, without overflow.
fn floor_mean(a: i128, b: i128) -> (r: i128)
    requires
        a <= b,
    ensures
        r == (a + b) / 2,
{
    if (a >= 0) == (b >= 0) {
        let d: i128 = b - a;
        a + d / 2
    } else {
        let s: i128 = a + b;
        let q: i128 = s / 2;
        if s < 0 && q * 2 != s {
            q - 1
        } else {
            q
        }
    }
}

/// Sorts prices in ascending order.
fn sort_prices(v: &mut Vec<i128>)
    ensures
        int_seq(final(v)@).to_multiset() == int_seq(old(v)@).to_multiset(),
        forall|i: int, j: int| 0 <= i < j < final(v)@.len() ==> final(v)@[i] <= final(v)@[j],
        final(v)@.len() == old(v)@.len(),
{
    broadcast use group_to_multiset_ensures;

    let n = v.len();
    let mut i: usize = 1;
    while i < n
        invariant
            n == v@.len(),
            1 <= i || n == 0,
            i <= n || n == 0,
            int_seq(v@).to_multiset() == int_seq(old(v)@).to_multiset(),
            forall|a: int, b: int| 0 <= a < b < i && b < n ==> v@[a] <= v@[b],
        decreases n - i,
    {
        let mut j: usize = i;
        while j > 0 && v[j - 1] > v[j]
            invariant
                n == v@.len(),
                0 <= j <= i < n,
                int_seq(v@).to_multiset() == int_seq(old(v)@).to_multiset(),
                forall|a: int, b: int| 0 <= a < b < j ==> v@[a] <= v@[b],
                forall|a: int, b: int| j < a < b <= i ==> v@[a] <= v@[b],
                forall|a: int, b: int| 0 <= a < j && j < b <= i ==> v@[a] <= v@[b],
                forall|b: int| j < b <= i ==> v@[j as int] < v@[b],
            decreases j,
        {
            let x = v[j - 1];
            let y = v[j];
            let ghost before = v@;
            v.set(j - 1, y);
            v.set(j, x);
            proof {
                let s0 = int_seq(before);
                let s1 = s0.update(j - 1, y as int);
                assert(int_seq(before.update(j - 1, y)) =~= s1);
                assert(int_seq(v@) =~= s1.update(j as int, x as int));
                broadcast use vstd::multiset::group_multiset_axioms;
                to_multiset_update(s0, j - 1, y as int);
                to_multiset_update(s1, j as int, x as int);
                assert(s0[j - 1] == x as int && s0[j as int] == y as int);
                assert(s0.contains(x as int));
                assert(s0.contains(y as int));
                vstd::seq_lib::to_multiset_contains(s0, x as int);
                vstd::seq_lib::to_multiset_contains(s0, y as int);
                assert(s0.to_multiset().insert(y as int).remove(x as int).insert(x as int).remove(
                    y as int,
                ) =~= s0.to_multiset());
            }
            j = j - 1;
        }
        i = i + 1;
    }
}

/// The median of a non-empty price list (the middle value, or the floor of
/// the mean of the two middle values); `None` for an empty list.
pub fn calculate_median(prices: Vec<i128>) -> (r: Option<i128>)
    ensures
        r is None <==> prices@.len() == 0,
        r matches Some(m) ==> m as int == median(int_seq(prices@)),
{
    if prices.len() == 0 {
        return None;
    }
    let ghost orig = prices@;
    let mut sorted = prices;
    sort_prices(&mut sorted);
    proof {
        let s = int_seq(sorted@);
        let o = int_seq(orig);
        o.lemma_sort_ensures();
        assert(sorted_by(s, |x: int, y: int| x <= y));
        assert(total_ordering(|x: int, y: int| x <= y));
        lemma_sorted_unique(s, o.sort(), |x: int, y: int| x <= y);
    }
    let n = sorted.len();
    if n % 2 == 1 {
        Some(sorted[n / 2])
    } else {
        Some(floor_mean(sorted[n / 2 - 1], sorted[n / 2]))
    }
}

/// `a` ranks before `b`: a higher weight first, and on equal weights the
/// earlier submission first.
pub open spec fn rank_before(a: (int, int), b: (int, int)) -> bool {
    a.1 > b.1 || (a.1 == b.1 && a.0 <= b.0)
}

/// The ranking order on `(index, weight)` pairs.
pub open spec fn rank_order() -> spec_fn((int, int), (int, int)) -> bool {
    |a: (int, int), b: (int, int)| rank_before(a, b)
}

/// The `(index, weight)` pair of every submission.
pub open spec fn weighted_indices(weights: Seq<u32>) -> Seq<(int, int)> {
    Seq::new(weights.len(), |i: int| (i, weights[i] as int))
}

/// Submissions ranked by descending weight, ties in submission order.
pub open spec fn ranked(weights: Seq<u32>) -> Seq<(int, int)> {
    weighted_indices(weights).sort_by(rank_order())
}

/// The entries a buffer keeps: all of them when there are at most
/// `MAX_MEDIAN_ENTRIES`, otherwise the `MAX_MEDIAN_ENTRIES` best-ranked ones,
/// in rank order.
pub open spec fn kept_entries(entries: Seq<PriceBufferEntry>, weights: Seq<u32>) -> Seq<
    PriceBufferEntry,
> {
    if entries.len() <= MAX_MEDIAN_ENTRIES {
        entries
    } else {
        ranked(weights).take(MAX_MEDIAN_ENTRIES as int).map_values(
            |p: (int, int)| entries[p.0],
        )
    }
}

/// `(index, weight)` pairs as mathematical integers.
pub open spec fn pair_ints(s: Seq<(usize, u32)>) -> Seq<(int, int)> {
    s.map_values(|p: (usize, u32)| (p.0 as int, p.1 as int))
}

/// The ranking order is a total order.
pub proof fn lemma_rank_order_total()
    ensures
        total_ordering(rank_order()),
{
}

/// Sorts `(index, weight)` pairs into ranking order.
fn sort_by_rank(v: &mut Vec<(usize, u32)>)
    ensures
        pair_ints(final(v)@).to_multiset() == pair_ints(old(v)@).to_multiset(),
        forall|i: int, j: int|
            0 <= i < j < final(v)@.len() ==> rank_before(
                pair_ints(final(v)@)[i],
                pair_ints(final(v)@)[j],
            ),
        final(v)@.len() == old(v)@.len(),
{
    broadcast use group_to_multiset_ensures;

    let n = v.len();
    let mut i: usize = 1;
    while i < n
        invariant
            n == v@.len(),
            1 <= i || n == 0,
            i <= n || n == 0,
            pair_ints(v@).to_multiset() == pair_ints(old(v)@).to_multiset(),
            forall|a: int, b: int|
                0 <= a < b < i && b < n ==> rank_before(pair_ints(v@)[a], pair_ints(v@)[b]),
        decreases n - i,
    {
        let mut j: usize = i;
        while j > 0 && (v[j - 1].1 < v[j].1 || (v[j - 1].1 == v[j].1 && v[j - 1].0 > v[j].0))
            invariant
                n == v@.len(),
                0 <= j <= i < n,
                pair_ints(v@).to_multiset() == pair_ints(old(v)@).to_multiset(),
                forall|a: int, b: int|
                    0 <= a < b < j ==> rank_before(pair_ints(v@)[a], pair_ints(v@)[b]),
                forall|a: int, b: int|
                    j < a < b <= i ==> rank_before(pair_ints(v@)[a], pair_ints(v@)[b]),
                forall|a: int, b: int|
                    0 <= a < j && j < b <= i ==> rank_before(pair_ints(v@)[a], pair_ints(v@)[b]),
                forall|b: int| j < b <= i ==> rank_before(pair_ints(v@)[j as int], pair_ints(v@)[b]),
            decreases j,
        {
            let x = v[j - 1];
            let y = v[j];
            let ghost before = v@;
            v.set(j - 1, y);
            v.set(j, x);
            proof {
                broadcast use vstd::multiset::group_multiset_axioms;

                let xi = (x.0 as int, x.1 as int);
                let yi = (y.0 as int, y.1 as int);
                let s0 = pair_ints(before);
                let s1 = s0.update(j - 1, yi);
                assert(pair_ints(v@) =~= s1.update(j as int, xi));
                to_multiset_update(s0, j - 1, yi);
                to_multiset_update(s1, j as int, xi);
                assert(s0[j - 1] == xi && s0[j as int] == yi);
                assert(s0.contains(xi));
                assert(s0.contains(yi));
                vstd::seq_lib::to_multiset_contains(s0, xi);
                vstd::seq_lib::to_multiset_contains(s0, yi);
                assert(s0.to_multiset().insert(yi).remove(xi).insert(xi).remove(yi)
                    =~= s0.to_multiset());
            }
            j = j - 1;
        }
        proof {
            let p = pair_ints(v@);
            if j > 0 {
                assert(p[j - 1] == (v@[j - 1].0 as int, v@[j - 1].1 as int));
                assert(p[j as int] == (v@[j as int].0 as int, v@[j as int].1 as int));
                assert(rank_before(p[j - 1], p[j as int]));
            }
            assert forall|a: int, b: int| 0 <= a < b <= i implies rank_before(p[a], p[b]) by {
                if b == j && a < j - 1 {
                    assert(rank_before(p[a], p[j - 1]));
                }
            }
        }
        i = i + 1;
    }
}

/// The entries a buffer keeps when the submission at position `i` has
/// provider weight `weights[i]`: at most `MAX_MEDIAN_ENTRIES`, preferring
/// higher weights and, among equal weights, earlier submissions.
pub fn truncate_entries(entries: &Vec<PriceBufferEntry>, weights: &Vec<u32>) -> (r: Vec<
    PriceBufferEntry,
>)
    requires
        weights@.len() == entries@.len(),
    ensures
        r@ == kept_entries(entries@, weights@),
        r@.len() == if entries@.len() <= MAX_MEDIAN_ENTRIES {
            entries@.len() as int
        } else {
            MAX_MEDIAN_ENTRIES as int
        },
{
    let n = entries.len();
    if n <= MAX_MEDIAN_ENTRIES as usize {
        let r = entries.clone();
        assert(r@ =~= entries@);
        return r;
    }
    let mut order: Vec<(usize, u32)> = Vec::new();
    let mut i: usize = 0;
    while i < n
        invariant
            n == entries@.len(),
            n == weights@.len(),
            i <= n,
            order@.len() == i,
            forall|t: int| 0 <= t < i ==> order@[t] == (t as usize, weights@[t]),
        decreases n - i,
    {
        order.push((i, weights[i]));
        i = i + 1;
    }
    assert(pair_ints(order@) =~= weighted_indices(weights@));
    let ghost unsorted = pair_ints(order@);
    sort_by_rank(&mut order);
    proof {
        let s = pair_ints(order@);
        lemma_rank_order_total();
        unsorted.lemma_sort_by_ensures(rank_order());
        assert(sorted_by(s, rank_order()));
        lemma_sorted_unique(s, ranked(weights@), rank_order());
        assert forall|t: int| 0 <= t < n implies order@[t].0 < n by {
            let x = ranked(weights@)[t];
            assert(ranked(weights@).contains(x));
            assert(unsorted.contains(x));
            let u = choose|u: int| 0 <= u < unsorted.len() && unsorted[u] == x;
            assert(s[t] == x);
        }
    }
    let mut out: Vec<PriceBufferEntry> = Vec::new();
    let mut k: usize = 0;
    while k < MAX_MEDIAN_ENTRIES as usize
        invariant
            n == entries@.len(),
            n > MAX_MEDIAN_ENTRIES,
            order@.len() == n,
            pair_ints(order@) == ranked(weights@),
            forall|t: int| 0 <= t < n ==> order@[t].0 < n,
            k <= MAX_MEDIAN_ENTRIES,
            out@ =~= ranked(weights@).take(k as int).map_values(|p: (int, int)| entries@[p.0]),
            out@.len() == k,
        decreases MAX_MEDIAN_ENTRIES - k,
    {
        let idx = order[k].0;
        out.push(entries[idx].clone());
        proof {
            assert(ranked(weights@)[k as int].0 == idx as int);
            assert(out@ =~= ranked(weights@).take(k + 1).map_values(
                |p: (int, int)| entries@[p.0],
            ));
        }
        k = k + 1;
    }
    out
}

} // verus!

//! The catch-up worker: turning one gap request into backfill work.
//!
//! A gap request `(from, to)` covers the half-open range of heights
//! `from, from + 1, ..., to - 1`; the height `to` itself is fetched by the
//! live path that raised the request. The worker fetches the range in
//! ascending order and forwards each fetched block to the store queue; the
//! first height whose fetch fails (after its own retry budget) aborts the
//! rest of that request, and the request is not retried.

use vstd::prelude::*;

verus! {

/// The heights one gap request `(from, to)` covers, in ascending order:
/// exactly `from, from + 1, ..., to - 1`.
pub open spec fn gap_heights(from: u64, to: u64) -> Seq<u64> {
    Seq::new((to - from) as nat, |i: int| (from + i) as u64)
}

/// Enumerates the heights of one gap request, in ascending order.
#[verifier::loop_isolation(false)]
pub fn backfill_heights(from: u64, to: u64) -> (heights: Vec<u64>)
    requires
        from <= to,
    ensures
        heights@ == gap_heights(from, to),
        heights@.len() == to - from,
        forall|i: int| 0 <= i < heights@.len() ==> heights@[i] == from + i,
        forall|i: int, j: int| 0 <= i < j < heights@.len() ==> heights@[i] < heights@[j],
{
    let mut heights: Vec<u64> = Vec::new();
    let mut h: u64 = from;
    while h < to
        invariant
            from <= h <= to,
            heights@.len() == h - from,
            forall|i: int| 0 <= i < heights@.len() ==> heights@[i] == from + i,
        decreases to - h,
    {
        heights.push(h);
        h = h + 1;
    }
    proof {
        assert(heights@ =~= gap_heights(from, to));
    }
    heights
}

/// Replays one gap request against per-height fetch outcomes: `fetched[i]`
/// says whether height `from + i` was fetched within its retry budget. The
/// heights forwarded to the store queue are the ascending prefix up to the
/// first failed fetch; the request completed exactly when every height of
/// the gap was forwarded.
#[verifier::loop_isolation(false)]
pub fn catch_up_forward(from: u64, to: u64, fetched: &Vec<bool>) -> (r: (Vec<u64>, bool))
    requires
        from <= to,
        fetched@.len() == to - from,
    ensures
        forall|i: int| 0 <= i < r.0@.len() ==> r.0@[i] == from + i,
        forall|i: int| 0 <= i < r.0@.len() ==> fetched@[i],
        r.0@.len() < to - from ==> !fetched@[r.0@.len() as int],
        r.1 == (r.0@.len() == to - from),
{
    let mut forwarded: Vec<u64> = Vec::new();
    let mut i: usize = 0;
    while i < fetched.len()
        invariant
            i <= fetched@.len(),
            forwarded@.len() == i,
            forall|k: int| 0 <= k < i ==> forwarded@[k] == from + k,
            forall|k: int| 0 <= k < i ==> fetched@[k],
        decreases fetched@.len() - i,
    {
        if !fetched[i] {
            return (forwarded, false);
        }
        forwarded.push(from + i as u64);
        i = i + 1;
    }
    (forwarded, true)
}

} // verus!

//! A synchronous replay of the ingestion pipeline over a run of observed
//! heights.
//!
//! Each observed height is one tick of the poll loop: a gap raises one
//! catch-up request, the catch-up worker backfills the gap's heights in
//! ascending order onto the store queue, and the live path enqueues the
//! observed height itself. The replay assumes every fetch succeeds and
//! drains each catch-up request before the live job of its tick — one
//! admissible interleaving of the two queues, whose store jobs carry no
//! height-order guarantee.

use vstd::prelude::*;

use crate::catchup::backfill_heights;
use crate::catchup::gap_heights;
use crate::poll::PollState;
use crate::poll::gap_request;

verus! {

/// The catch-up requests a run of observed heights raises, in order,
/// starting from the previously seen height.
pub open spec fn run_catch_ups(previous: Option<u64>, heights: Seq<u64>) -> Seq<(u64, u64)>
    decreases heights.len(),
{
    if heights.len() == 0 {
        Seq::empty()
    } else {
        let head = match gap_request(previous, heights[0]) {
            Some(req) => seq![req],
            None => Seq::empty(),
        };
        head + run_catch_ups(Some(heights[0]), heights.drop_first())
    }
}

/// The heights enqueued for storage by a run of observed heights, with
/// each tick's backfill drained before its live job.
pub open spec fn run_store_heights(previous: Option<u64>, heights: Seq<u64>) -> Seq<u64>
    decreases heights.len(),
{
    if heights.len() == 0 {
        Seq::empty()
    } else {
        let backfill = match gap_request(previous, heights[0]) {
            Some(req) => gap_heights(req.0, req.1),
            None => Seq::empty(),
        };
        backfill + seq![heights[0]] + run_store_heights(Some(heights[0]), heights.drop_first())
    }
}

/// Everything a replayed run produced: the catch-up requests raised, the
/// heights enqueued for storage, and the poll state left behind.
pub struct PipelineTrace {
    /// Each gap's `(previous, current)` request, in tick order.
    pub catch_ups: Vec<(u64, u64)>,
    /// The store queue's heights: each tick's backfill, then its live
    /// height.
    pub store_heights: Vec<u64>,
    /// The poll state after the last tick.
    pub state: PollState,
}

/// Replays the pipeline over observed heights that never decrease (the
/// chain's height counter is monotonic), with every fetch succeeding.
#[verifier::loop_isolation(false)]
pub fn run_ticks(heights: &Vec<u64>) -> (trace: PipelineTrace)
    requires
        forall|i: int| 0 < i < heights@.len() ==> heights@[i - 1] <= #[trigger] heights@[i],
    ensures
        trace.catch_ups@ == run_catch_ups(None, heights@),
        trace.store_heights@ == run_store_heights(None, heights@),
        trace.state.previous_height == (if heights@.len() == 0 {
            None::<u64>
        } else {
            Some(heights@.last())
        }),
{
    let mut state = PollState::new();
    let mut catch_ups: Vec<(u64, u64)> = Vec::new();
    let mut store_heights: Vec<u64> = Vec::new();
    let mut i: usize = 0;

    proof {
        assert(heights@.skip(0) =~= heights@);
    }
    while i < heights.len()
        invariant
            i <= heights@.len(),
            state.previous_height == (if i == 0 {
                None::<u64>
            } else {
                Some(heights@[i - 1])
            }),
            catch_ups@ + run_catch_ups(state.previous_height, heights@.skip(i as int))
                == run_catch_ups(None, heights@),
            store_heights@ + run_store_heights(state.previous_height, heights@.skip(i as int))
                == run_store_heights(None, heights@),
        decreases heights@.len() - i,
    {
        let ghost rest = heights@.skip(i as int);
        let ghost previous = state.previous_height;
        let current = heights[i];
        proof {
            assert(rest[0] == heights@[i as int]);
            assert(rest.drop_first() =~= heights@.skip(i as int + 1));
        }

        let request = state.observe(current);
        match request {
            Some(gap) => {
                proof {
                    // A gap's bounds never run backward: its lower bound is
                    // the height of the previous tick.
                    assert(gap.0 <= gap.1);
                }
                let mut backfill = backfill_heights(gap.0, gap.1);
                catch_ups.push(gap);
                store_heights.append(&mut backfill);
                proof {
                    assert(catch_ups@ + run_catch_ups(state.previous_height, rest.drop_first())
                        =~= run_catch_ups(None, heights@));
                    assert(store_heights@.push(current) + run_store_heights(
                        state.previous_height,
                        rest.drop_first(),
                    ) =~= run_store_heights(None, heights@));
                }
            },
            None => {
                proof {
                    assert(catch_ups@ + run_catch_ups(state.previous_height, rest.drop_first())
                        =~= run_catch_ups(None, heights@));
                    assert(store_heights@.push(current) + run_store_heights(
                        state.previous_height,
                        rest.drop_first(),
                    ) =~= run_store_heights(None, heights@));
                }
            },
        }
        store_heights.push(current);
        i = i + 1;
    }

    PipelineTrace { catch_ups, store_heights, state }
}

} // verus!

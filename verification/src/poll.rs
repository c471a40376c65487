//! Poll-loop session state: gap detection between consecutively observed
//! chain heights.
//!
//! On every tick the driver reads the node's current height and hands it to
//! [`PollState::observe`]. The state remembers the previously observed
//! height; a discontinuity (anything other than "exactly one higher than the
//! last seen height") raises a catch-up request for the half-open range of
//! heights in between. The very first tick, and a previous height of zero,
//! never count as a gap.

use vstd::prelude::*;

verus! {

/// True when moving from `previous` to `current` leaves heights behind that
/// the live path never fetched: the previous height is known and non-zero,
/// and the new height is not its immediate successor.
pub open spec fn is_gap(previous: Option<u64>, current: u64) -> bool {
    match previous {
        Some(p) => p != 0 && current != p + 1,
        None => false,
    }
}

/// The catch-up request that one observation raises: the pair
/// `(previous, current)` when the step is a gap, nothing otherwise.
pub open spec fn gap_request(previous: Option<u64>, current: u64) -> Option<(u64, u64)> {
    if is_gap(previous, current) {
        Some((previous->0, current))
    } else {
        None
    }
}

/// Gap detection: whenever the previously seen height is set and non-zero
/// and the observed height is not its immediate successor, the observation
/// raises exactly the catch-up request `(previous, current)`.
pub proof fn lemma_gap_detection(previous: u64, current: u64)
    requires
        previous != 0,
        current != previous + 1,
    ensures
        gap_request(Some(previous), current) == Some((previous, current)),
{
}

/// No gap on a cold start: the very first observation, made before any
/// height was seen, never raises a catch-up request, whatever the height.
pub proof fn lemma_cold_start_never_gaps(current: u64)
    ensures
        gap_request(None, current) is None,
{
}

/// Session state of the poll loop. Only the loop itself reads or writes it,
/// once per tick.
pub struct PollState {
    /// Height seen on the last tick; `None` before the first tick.
    pub previous_height: Option<u64>,
}

impl PollState {
    /// Fresh state for a cold start: no height seen yet, so the first
    /// observation cannot raise a catch-up request.
    pub fn new() -> (s: Self)
        ensures
            s.previous_height is None,
    {
        PollState { previous_height: None }
    }

    /// Records one observed height and decides whether the step from the
    /// previously seen height constitutes a gap. Exactly one catch-up
    /// request, `(previous, current)`, is returned for a gap; the previous
    /// height is then unconditionally replaced by `current`.
    pub fn observe(&mut self, current: u64) -> (catch_up: Option<(u64, u64)>)
        ensures
            final(self).previous_height == Some(current),
            catch_up == gap_request(old(self).previous_height, current),
    {
        let catch_up: Option<(u64, u64)> = match self.previous_height {
            Some(p) => {
                if p != 0 && !(p < u64::MAX && current == p + 1) {
                    Some((p, current))
                } else {
                    None
                }
            },
            None => None,
        };
        self.previous_height = Some(current);
        catch_up
    }
}

} // verus!

//! The block fetcher's bounded-retry discipline.
//!
//! A fetch configured with `retries` makes up to `retries + 1` attempts,
//! one tick apart, and delivers the first block the node hands back; when
//! every attempt fails it delivers the last error observed. No distinction
//! is made between kinds of failure — all are retried identically until the
//! budget runs out.

use vstd::prelude::*;

use crate::sink::Block;

verus! {

/// The retry budget of the live path's block fetch: one retry beyond the
/// first attempt.
pub const LIVE_FETCH_RETRIES: u64 = 1;

/// The retry budget of a catch-up fetch: backfill is less time-sensitive,
/// so it affords more attempts per height.
pub const CATCH_UP_FETCH_RETRIES: u64 = 5;

/// What one failed attempt reported.
#[derive(Clone, Debug, PartialEq, Eq)]
pub struct FetchFailure {
    /// The node's error text, kept verbatim for the log.
    pub message: String,
}

/// The attempt counter of one fetch: `retries` is the budget beyond the
/// first attempt, `attempts` how many attempts were already made. The
/// caller asks [`RetryState::may_attempt`] before each attempt and records
/// each one made; the budget admits exactly `retries + 1` attempts.
pub struct RetryState {
    /// How many retries beyond the first attempt the fetch was configured
    /// with.
    pub retries: u64,
    /// How many attempts were made so far.
    pub attempts: u64,
}

impl RetryState {
    /// A fresh counter: no attempt made yet.
    pub fn new(retries: u64) -> (s: Self)
        ensures
            s.retries == retries,
            s.attempts == 0,
    {
        RetryState { retries, attempts: 0 }
    }

    /// Whether the budget admits another attempt.
    pub fn may_attempt(&self) -> (r: bool)
        ensures
            r == (self.attempts <= self.retries),
    {
        self.attempts <= self.retries
    }

    /// Records one attempt made; the budget must still admit it, and the
    /// counter must have room for it.
    pub fn record_attempt(&mut self)
        requires
            old(self).attempts <= old(self).retries,
            old(self).attempts < u64::MAX,
        ensures
            final(self).retries == old(self).retries,
            final(self).attempts == old(self).attempts + 1,
    {
        self.attempts = self.attempts + 1;
    }
}

/// Runs one fetch against a prepared sequence of per-attempt outcomes, as a
/// node stub would answer them: attempts are consumed in order until the
/// first success or until `retries + 1` attempts were made. Returns the
/// delivered outcome and how many attempts were made. When every admitted
/// attempt fails, the fetch makes exactly `retries + 1` attempts and
/// delivers the last error observed.
#[verifier::loop_isolation(false)]
pub fn fetch_with_retries(outcomes: Vec<Result<Block, FetchFailure>>, retries: u64) -> (r: (
    Result<Block, FetchFailure>,
    u64,
))
    requires
        outcomes@.len() >= retries + 1,
    ensures
        1 <= r.1 <= retries + 1,
        forall|i: int| 0 <= i < r.1 - 1 ==> outcomes@[i] is Err,
        r.0 == outcomes@[r.1 - 1],
        r.0 is Err ==> r.1 == retries + 1,
        (forall|i: int| 0 <= i <= retries ==> outcomes@[i] is Err) ==> r.1 == retries + 1 && r.0
            == outcomes@[retries as int],
{
    let ghost original = outcomes@;
    let mut remaining = outcomes;
    let mut attempts: u64 = 0;

    proof {
        assert(remaining.len() == original.len());
        assert(original.skip(0) =~= original);
    }
    loop
        invariant
            attempts <= retries,
            original.len() <= usize::MAX,
            original.len() >= retries + 1,
            remaining@ == original.skip(attempts as int),
            forall|i: int| 0 <= i < attempts ==> original[i] is Err,
        decreases retries - attempts,
    {
        let ghost made = attempts as int;
        let outcome = remaining.remove(0);
        attempts = attempts + 1;
        proof {
            assert(outcome == original[made]);
        }
        match outcome {
            Ok(block) => {
                return (Ok(block), attempts);
            },
            Err(failure) => {
                if attempts > retries {
                    return (Err(failure), attempts);
                }
            },
        }
        proof {
            assert(original.skip(made).remove(0) =~= original.skip(made + 1));
        }
    }
}

} // verus!

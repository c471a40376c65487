//! The service supervisor's restart budget.
//!
//! The supervisor runs the ingestion loop and the API server as
//! independent long-lived tasks. When either task fails it is restarted
//! with the same arguments, but only while the shared budget lasts; once
//! the budget is spent the supervisor stops restarting and lets the
//! surrounding process decide what to do.

use vstd::prelude::*;

verus! {

/// How many restarts the supervisor grants in total before giving up.
pub const RESTART_BUDGET: u64 = 3;

/// The tasks the supervisor watches.
#[derive(Clone, Copy, Debug, PartialEq, Eq, Structural)]
pub enum ServiceTask {
    /// The slot-polling ingestion loop.
    Ingestion,
    /// The external API server.
    ApiServer,
}

/// The supervisor's state: how many restarts remain.
pub struct Supervisor {
    /// Restarts still granted; each task exit consumes one while any
    /// remain.
    pub restarts_remaining: u64,
}

impl Supervisor {
    /// A supervisor with a full budget of `budget` restarts.
    pub fn new(budget: u64) -> (s: Self)
        ensures
            s.restarts_remaining == budget,
    {
        Supervisor { restarts_remaining: budget }
    }

    /// Decides what to do when a task exits: restart it while the budget
    /// lasts, consuming one restart; stop restarting once it is spent.
    pub fn on_task_exit(&mut self) -> (restart: bool)
        ensures
            restart == (old(self).restarts_remaining > 0),
            final(self).restarts_remaining == (if old(self).restarts_remaining > 0 {
                old(self).restarts_remaining - 1
            } else {
                0
            }),
    {
        if self.restarts_remaining > 0 {
            self.restarts_remaining = self.restarts_remaining - 1;
            true
        } else {
            false
        }
    }
}

} // verus!

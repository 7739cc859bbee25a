//! Scheduler: fans transfer tasks out across a bounded pool. At most
//! the tuned number of transfers is in flight at once; as each
//! completes, the next pending task begins, admitted first-in
//! first-out. No ordering is guaranteed on completions — the caller
//! reports each one as it lands — and the scheduler itself never
//! retries: retries are internal to the transfer worker.

use vstd::prelude::*;
use crate::data::{TransferOutcome, TransferTask};

verus! {

/// The bounded-pool dispatch state for one run.
pub struct Scheduler {
    pending: Vec<TransferTask>,
    in_flight: usize,
    limit: usize,
    total: usize,
    outcomes: Vec<TransferOutcome>,
}

impl Scheduler {
    /// The tasks not yet handed out, in admission order.
    pub closed spec fn pending_seq(self) -> Seq<TransferTask> {
        self.pending@
    }

    /// How many tasks are in flight right now.
    pub closed spec fn in_flight(self) -> int {
        self.in_flight as int
    }

    /// The concurrency cap, fixed for the run.
    pub closed spec fn limit(self) -> int {
        self.limit as int
    }

    /// How many tasks this run was created with.
    pub closed spec fn total(self) -> int {
        self.total as int
    }

    /// The outcomes collected so far.
    pub closed spec fn outcomes_seq(self) -> Seq<TransferOutcome> {
        self.outcomes@
    }

    /// The scheduler's invariant: never more than the cap in flight,
    /// and every task is pending, in flight, or accounted for by
    /// exactly one outcome.
    pub closed spec fn wf(self) -> bool {
        &&& 1 <= self.limit
        &&& self.in_flight <= self.limit
        &&& self.outcomes@.len() + self.in_flight + self.pending@.len() == self.total
    }

    /// A run over the given tasks with the given concurrency cap.
    pub fn new(tasks: Vec<TransferTask>, limit: usize) -> (s: Scheduler)
        requires
            limit >= 1,
        ensures
            s.wf(),
            s.pending_seq() == tasks@,
            s.limit() == limit,
            s.total() == tasks@.len(),
            s.in_flight() == 0,
            s.outcomes_seq() == Seq::<TransferOutcome>::empty(),
    {
        let total = tasks.len();
        Scheduler { pending: tasks, in_flight: 0, limit, total, outcomes: Vec::new() }
    }

    /// Whether a pending task may start: there is one, and the pool is
    /// not full.
    pub fn can_dispatch(&self) -> (r: bool)
        ensures
            r == (self.pending_seq().len() > 0 && self.in_flight() < self.limit()),
    {
        self.pending.len() > 0 && self.in_flight < self.limit
    }

    /// Hands out the next pending task, first-in first-out.
    pub fn dispatch(&mut self) -> (t: TransferTask)
        requires
            old(self).wf(),
            old(self).pending_seq().len() > 0,
            old(self).in_flight() < old(self).limit(),
        ensures
            final(self).wf(),
            t == old(self).pending_seq()[0],
            final(self).pending_seq() == old(self).pending_seq().drop_first(),
            final(self).in_flight() == old(self).in_flight() + 1,
            final(self).outcomes_seq() == old(self).outcomes_seq(),
            final(self).limit() == old(self).limit(),
            final(self).total() == old(self).total(),
    {
        let t = self.pending.remove(0);
        self.in_flight = self.in_flight + 1;
        assert(self.pending@ =~= old(self).pending@.drop_first());
        t
    }

    /// One in-flight task finished; its outcome is collected.
    pub fn complete(&mut self, outcome: TransferOutcome)
        requires
            old(self).wf(),
            old(self).in_flight() >= 1,
        ensures
            final(self).wf(),
            final(self).outcomes_seq() == old(self).outcomes_seq().push(outcome),
            final(self).in_flight() == old(self).in_flight() - 1,
            final(self).pending_seq() == old(self).pending_seq(),
            final(self).limit() == old(self).limit(),
            final(self).total() == old(self).total(),
    {
        self.outcomes.push(outcome);
        self.in_flight = self.in_flight - 1;
    }

    /// How many tasks are in flight right now.
    pub fn in_flight_now(&self) -> (n: usize)
        ensures
            n == self.in_flight(),
    {
        self.in_flight
    }

    /// How many tasks still wait for admission.
    pub fn pending_count(&self) -> (n: usize)
        ensures
            n == self.pending_seq().len(),
    {
        self.pending.len()
    }

    /// Whether the run is over: nothing pending, nothing in flight.
    pub fn is_done(&self) -> (r: bool)
        ensures
            r == (self.pending_seq().len() == 0 && self.in_flight() == 0),
    {
        self.pending.len() == 0 && self.in_flight == 0
    }

    /// The collected outcomes, ending the run.
    pub fn into_outcomes(self) -> (r: Vec<TransferOutcome>)
        ensures
            r@ == self.outcomes_seq(),
    {
        self.outcomes
    }
}

/// Every task yields exactly one outcome: once a run is done, the
/// scheduler holds as many outcomes as it was given tasks.
pub proof fn lemma_every_task_accounted(s: Scheduler)
    requires
        s.wf(),
        s.pending_seq().len() == 0,
        s.in_flight() == 0,
    ensures
        s.outcomes_seq().len() == s.total(),
{
}

} // verus!

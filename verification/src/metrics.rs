//! Run metrics: counters for successes, failures, retries and bytes
//! moved, collected from every worker's outcome and read once at the
//! end of a run for the summary.

use vstd::prelude::*;
use crate::data::{TransferOutcome, MAX_RETRIES};
use crate::sched::{lemma_every_task_accounted, Scheduler};

verus! {

/// The counters of one run.
pub struct RunMetrics {
    pub success: u64,
    pub failure: u64,
    pub retries: u64,
    pub bytes: u64,
}

/// How many of the outcomes succeeded.
pub open spec fn spec_success_count(os: Seq<TransferOutcome>) -> int
    decreases os.len(),
{
    if os.len() == 0 {
        0
    } else {
        spec_success_count(os.drop_last()) + if os.last().succeeded {
            1int
        } else {
            0int
        }
    }
}

/// How many of the outcomes failed.
pub open spec fn spec_failure_count(os: Seq<TransferOutcome>) -> int
    decreases os.len(),
{
    if os.len() == 0 {
        0
    } else {
        spec_failure_count(os.drop_last()) + if os.last().succeeded {
            0int
        } else {
            1int
        }
    }
}

/// Total retries across the outcomes.
pub open spec fn spec_retry_total(os: Seq<TransferOutcome>) -> int
    decreases os.len(),
{
    if os.len() == 0 {
        0
    } else {
        spec_retry_total(os.drop_last()) + os.last().retries
    }
}

/// Total bytes moved across the outcomes.
pub open spec fn spec_byte_total(os: Seq<TransferOutcome>) -> int
    decreases os.len(),
{
    if os.len() == 0 {
        0
    } else {
        spec_byte_total(os.drop_last()) + os.last().bytes
    }
}

/// Conservation of work: every outcome counts as exactly one success
/// or one failure, and the retry total of well-formed outcomes never
/// exceeds the retry budget times the number of tasks.
pub proof fn lemma_outcome_conservation(os: Seq<TransferOutcome>)
    requires
        forall|i: int| 0 <= i < os.len() ==> (#[trigger] os[i]).wf(),
    ensures
        spec_success_count(os) + spec_failure_count(os) == os.len(),
        0 <= spec_retry_total(os) <= MAX_RETRIES * os.len(),
        0 <= spec_success_count(os),
        0 <= spec_failure_count(os),
        0 <= spec_byte_total(os),
    decreases os.len(),
{
    if os.len() > 0 {
        assert(os.last() == os[os.len() - 1]);
        lemma_outcome_conservation(os.drop_last());
    }
}

/// Conservation over a whole run: once a run's scheduler is done, its
/// successes and failures add up to exactly the tasks dispatched, and
/// the retries stay within the budget times the task count.
pub proof fn lemma_run_conservation(s: Scheduler)
    requires
        s.wf(),
        s.pending_seq().len() == 0,
        s.in_flight() == 0,
        forall|i: int| 0 <= i < s.outcomes_seq().len() ==> (#[trigger] s.outcomes_seq()[i]).wf(),
    ensures
        spec_success_count(s.outcomes_seq()) + spec_failure_count(s.outcomes_seq()) == s.total(),
        0 <= spec_retry_total(s.outcomes_seq()) <= MAX_RETRIES * s.total(),
{
    lemma_every_task_accounted(s);
    lemma_outcome_conservation(s.outcomes_seq());
}

impl RunMetrics {
    /// Fresh counters, all zero.
    pub fn new() -> (m: RunMetrics)
        ensures
            m.success == 0,
            m.failure == 0,
            m.retries == 0,
            m.bytes == 0,
    {
        RunMetrics { success: 0, failure: 0, retries: 0, bytes: 0 }
    }

    /// Folds one worker's outcome into the counters.
    pub fn record(&mut self, o: &TransferOutcome)
        requires
            old(self).success + 1 <= u64::MAX,
            old(self).failure + 1 <= u64::MAX,
            old(self).retries + o.retries <= u64::MAX,
            old(self).bytes + o.bytes <= u64::MAX,
        ensures
            final(self).success == old(self).success + if o.succeeded {
                1int
            } else {
                0int
            },
            final(self).failure == old(self).failure + if o.succeeded {
                0int
            } else {
                1int
            },
            final(self).retries == old(self).retries + o.retries,
            final(self).bytes == old(self).bytes + o.bytes,
    {
        if o.succeeded {
            self.success = self.success + 1;
        } else {
            self.failure = self.failure + 1;
        }
        self.retries = self.retries + (o.retries as u64);
        self.bytes = self.bytes + o.bytes;
    }
}

/// Aggregates all outcomes of a run into its metrics: every task
/// dispatched is counted as exactly one success or failure, and the
/// retry and byte totals are exact.
pub fn aggregate_outcomes(outcomes: &Vec<TransferOutcome>) -> (m: RunMetrics)
    requires
        forall|i: int| 0 <= i < outcomes@.len() ==> (#[trigger] outcomes@[i]).wf(),
        MAX_RETRIES * outcomes@.len() <= u64::MAX,
        spec_byte_total(outcomes@) <= u64::MAX,
    ensures
        m.success == spec_success_count(outcomes@),
        m.failure == spec_failure_count(outcomes@),
        m.success + m.failure == outcomes@.len(),
        m.retries == spec_retry_total(outcomes@),
        m.retries <= MAX_RETRIES * outcomes@.len(),
        m.bytes == spec_byte_total(outcomes@),
{
    let mut m = RunMetrics::new();
    let mut i: usize = 0;
    while i < outcomes.len()
        invariant
            0 <= i <= outcomes@.len(),
            forall|k: int| 0 <= k < outcomes@.len() ==> (#[trigger] outcomes@[k]).wf(),
            MAX_RETRIES * outcomes@.len() <= u64::MAX,
            spec_byte_total(outcomes@) <= u64::MAX,
            m.success == spec_success_count(outcomes@.take(i as int)),
            m.failure == spec_failure_count(outcomes@.take(i as int)),
            m.retries == spec_retry_total(outcomes@.take(i as int)),
            m.bytes == spec_byte_total(outcomes@.take(i as int)),
        decreases outcomes@.len() - i,
    {
        proof {
            lemma_outcome_conservation(outcomes@.take(i as int));
            lemma_outcome_conservation(outcomes@);
            lemma_take_step(outcomes@, i as int);
            lemma_byte_prefix_bound(outcomes@, i + 1);
        }
        m.record(&outcomes[i]);
        i = i + 1;
    }
    proof {
        assert(outcomes@.take(outcomes@.len() as int) =~= outcomes@);
        lemma_outcome_conservation(outcomes@);
    }
    m
}

proof fn lemma_take_step(os: Seq<TransferOutcome>, i: int)
    requires
        0 <= i < os.len(),
    ensures
        spec_success_count(os.take(i + 1)) == spec_success_count(os.take(i)) + if os[i].succeeded {
            1int
        } else {
            0int
        },
        spec_failure_count(os.take(i + 1)) == spec_failure_count(os.take(i)) + if os[i].succeeded {
            0int
        } else {
            1int
        },
        spec_retry_total(os.take(i + 1)) == spec_retry_total(os.take(i)) + os[i].retries,
        spec_byte_total(os.take(i + 1)) == spec_byte_total(os.take(i)) + os[i].bytes,
{
    assert(os.take(i + 1).drop_last() =~= os.take(i));
    assert(os.take(i + 1).last() == os[i]);
}

proof fn lemma_byte_prefix_bound(os: Seq<TransferOutcome>, i: int)
    requires
        0 <= i <= os.len(),
    ensures
        spec_byte_total(os.take(i)) <= spec_byte_total(os),
    decreases os.len() - i,
{
    if i == os.len() {
        assert(os.take(i) =~= os);
    } else {
        lemma_take_step_bytes(os, i);
        lemma_byte_prefix_bound(os, i + 1);
    }
}

proof fn lemma_take_step_bytes(os: Seq<TransferOutcome>, i: int)
    requires
        0 <= i < os.len(),
    ensures
        spec_byte_total(os.take(i + 1)) == spec_byte_total(os.take(i)) + os[i].bytes,
{
    assert(os.take(i + 1).drop_last() =~= os.take(i));
    assert(os.take(i + 1).last() == os[i]);
}

} // verus!

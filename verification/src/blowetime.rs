use crate::gateway;
use vstd::prelude::*;

verus! {

/// A worker that reserves its free job slots before it asks for jobs, so that slow or
/// reordered answers cannot make it run more jobs than its maximum.
pub struct JobWorker<H> {
    worker: String,
    job_type: String,
    timeout: i64,
    current_amount: u16,
    max_amount: u16,
    handler: H,
}

impl<H> JobWorker<H> {
    pub closed spec fn spec_worker(&self) -> String {
        self.worker
    }

    pub closed spec fn spec_job_type(&self) -> String {
        self.job_type
    }

    pub closed spec fn spec_timeout(&self) -> i64 {
        self.timeout
    }

    pub closed spec fn spec_current_amount(&self) -> u16 {
        self.current_amount
    }

    pub closed spec fn spec_max_amount(&self) -> u16 {
        self.max_amount
    }

    pub closed spec fn spec_handler(&self) -> H {
        self.handler
    }

    /// A worker with no reserved slots; the maximum must be greater than zero.
    pub fn new(worker: String, job_type: String, timeout: i64, max_amount: u16, handler: H) -> (r: Self)
        requires
            max_amount > 0,
        ensures
            r.spec_worker() == worker,
            r.spec_job_type() == job_type,
            r.spec_timeout() == timeout,
            r.spec_current_amount() == 0,
            r.spec_max_amount() == max_amount,
            r.spec_handler() == handler,
    {
        JobWorker { worker, job_type, timeout, current_amount: 0, max_amount, handler }
    }

    /// Reserve every free slot and ask for that many jobs: gives back the number of slots
    /// reserved and the request. Afterwards every slot is reserved.
    pub fn activate_and_process_jobs(&mut self) -> (r: (u16, gateway::ActivateJobsRequest))
        requires
            old(self).spec_current_amount() <= old(self).spec_max_amount(),
        ensures
            r.0 == old(self).spec_max_amount() - old(self).spec_current_amount(),
            final(self).spec_current_amount() == old(self).spec_max_amount(),
            final(self).spec_max_amount() == old(self).spec_max_amount(),
            final(self).spec_worker() == old(self).spec_worker(),
            final(self).spec_job_type() == old(self).spec_job_type(),
            final(self).spec_timeout() == old(self).spec_timeout(),
            r.1.max_jobs_to_activate == r.0,
            r.1.timeout == old(self).spec_timeout(),
            r.1.worker == old(self).spec_worker(),
            r.1.field_type == old(self).spec_job_type(),
            r.1.fetch_variable@.len() == 0,
            r.1.request_timeout == 0,
    {
        let next_amount = self.max_amount - self.current_amount;
        self.current_amount = self.current_amount + next_amount;
        let request = gateway::ActivateJobsRequest {
            field_type: self.job_type.clone(),
            worker: self.worker.clone(),
            timeout: self.timeout,
            max_jobs_to_activate: next_amount as i32,
            fetch_variable: Vec::new(),
            request_timeout: 0,
        };
        (next_amount, request)
    }

    /// An answer with `job_count` jobs came for a request that reserved `next_amount`
    /// slots: the reservation is replaced by the jobs that came, so the slots that no job
    /// filled are free again (the count moves by `job_count - next_amount`, in `u16`
    /// arithmetic that wraps).
    pub fn jobs_received(&mut self, job_count: usize, next_amount: u16)
        requires
            job_count < u16::MAX,
        ensures
            final(self).spec_current_amount() == count_after_batch(
                old(self).spec_current_amount(),
                next_amount,
                job_count as u16,
            ),
            old(self).spec_current_amount() >= next_amount
                && old(self).spec_current_amount() - next_amount + job_count <= u16::MAX
                ==> final(self).spec_current_amount() == old(self).spec_current_amount()
                - next_amount + job_count,
            final(self).spec_max_amount() == old(self).spec_max_amount(),
            final(self).spec_worker() == old(self).spec_worker(),
            final(self).spec_job_type() == old(self).spec_job_type(),
            final(self).spec_timeout() == old(self).spec_timeout(),
    {
        let received = job_count as u16;
        self.current_amount = self.current_amount.wrapping_sub(next_amount).wrapping_add(received);
    }

    /// A job finished: its slot is free again.
    pub fn job_finished(&mut self)
        ensures
            final(self).spec_current_amount() == vstd::wrapping::u16_specs::wrapping_sub(
                old(self).spec_current_amount(),
                1,
            ),
            final(self).spec_max_amount() == old(self).spec_max_amount(),
            final(self).spec_worker() == old(self).spec_worker(),
            final(self).spec_job_type() == old(self).spec_job_type(),
            final(self).spec_timeout() == old(self).spec_timeout(),
    {
        self.current_amount = self.current_amount.wrapping_sub(1);
    }
}


/// The slot count after an answer of `job_count` jobs to a request that reserved
/// `next_amount` slots.
pub open spec fn count_after_batch(current: u16, next_amount: u16, job_count: u16) -> u16 {
    vstd::wrapping::u16_specs::wrapping_add(
        vstd::wrapping::u16_specs::wrapping_sub(current, next_amount),
        job_count,
    )
}

/// The slot count after `n` jobs finished.
pub open spec fn count_after_finished(current: u16, n: nat) -> u16
    decreases n,
{
    if n == 0 {
        current
    } else {
        vstd::wrapping::u16_specs::wrapping_sub(count_after_finished(current, (n - 1) as nat), 1)
    }
}

/// One round of the worker: from a count `c0` within the maximum it reserves every free
/// slot, an answer brings at most that many jobs, and the jobs finish one by one. The
/// count never exceeds the maximum: after the answer it is `c0` plus the jobs that came,
/// after each finished job one less, and once all of them finished it is `c0` again.
pub proof fn lemma_batch_round(c0: u16, max_amount: u16, job_count: u16, finished: nat)
    requires
        c0 <= max_amount,
        job_count <= max_amount - c0,
        finished <= job_count,
    ensures
        count_after_batch(max_amount, (max_amount - c0) as u16, job_count) == c0 + job_count,
        count_after_finished((c0 + job_count) as u16, finished) == c0 + job_count - finished,
        count_after_finished((c0 + job_count) as u16, finished) <= max_amount,
        count_after_finished((c0 + job_count) as u16, job_count as nat) == c0,
{
    lemma_finished_steps((c0 + job_count) as u16, finished);
    lemma_finished_steps((c0 + job_count) as u16, job_count as nat);
}

proof fn lemma_finished_steps(c: u16, n: nat)
    requires
        n <= c,
    ensures
        count_after_finished(c, n) == c - n,
    decreases n,
{
    if n > 0 {
        lemma_finished_steps(c, (n - 1) as nat);
    }
}

} // verus!

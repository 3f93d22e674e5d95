use crate::gateway;
use vstd::prelude::*;

verus! {

/// The bookkeeping of a stream of job workers: how many jobs may run and how many do.
pub struct JobWorkerStream {
    max_active_jobs: usize,
    active_jobs: usize,
}

impl JobWorkerStream {
    pub closed spec fn spec_max_active_jobs(&self) -> usize {
        self.max_active_jobs
    }

    pub closed spec fn spec_active_jobs(&self) -> usize {
        self.active_jobs
    }

    /// A stream with no active jobs.
    pub fn new(max_active_jobs: u8) -> (r: Self)
        ensures
            r.spec_max_active_jobs() == max_active_jobs,
            r.spec_active_jobs() == 0,
    {
        JobWorkerStream { max_active_jobs: max_active_jobs as usize, active_jobs: 0 }
    }

    /// The request for new jobs: as many as may run, with a timeout of one second, for the
    /// worker `blah-worker` and the job type `blah-worker-type`.
    pub fn activate_new_jobs_request(&self) -> (r: gateway::ActivateJobsRequest)
        requires
            self.spec_max_active_jobs() <= u8::MAX,
        ensures
            r.max_jobs_to_activate == self.spec_max_active_jobs(),
            r.timeout == 1000,
            r.worker@ == "blah-worker"@,
            r.field_type@ == "blah-worker-type"@,
            r.fetch_variable@.len() == 0,
            r.request_timeout == 0,
    {
        gateway::ActivateJobsRequest {
            field_type: String::from_str("blah-worker-type"),
            worker: String::from_str("blah-worker"),
            timeout: 1000,
            max_jobs_to_activate: self.max_active_jobs as i32,
            fetch_variable: Vec::new(),
            request_timeout: 0,
        }
    }

    /// How many of `num_new_active_jobs` newly activated jobs to spawn: as many as are
    /// active, after which none are.
    pub fn jobs_to_spawn(&mut self, num_new_active_jobs: usize) -> (r: usize)
        requires
            old(self).spec_active_jobs() <= num_new_active_jobs,
        ensures
            r == old(self).spec_active_jobs(),
            final(self).spec_active_jobs() == 0,
            final(self).spec_max_active_jobs() == old(self).spec_max_active_jobs(),
    {
        let num_jobs_to_spawn = self.active_jobs;
        self.active_jobs = 0;
        num_jobs_to_spawn
    }
}

} // verus!

use vstd::prelude::*;

verus! {

/// A named worker for one job type, with a handler that takes a job's key and payload.
pub struct JobWorker<H> {
    name: String,
    job_type: String,
    max_running_jobs: Option<usize>,
    handler: H,
}

impl<H: Fn(i64, String) -> Result<Option<String>, ()>> JobWorker<H> {
    pub closed spec fn spec_name(&self) -> String {
        self.name
    }

    pub closed spec fn spec_job_type(&self) -> String {
        self.job_type
    }

    pub closed spec fn spec_max_running_jobs(&self) -> Option<usize> {
        self.max_running_jobs
    }

    pub closed spec fn spec_handler(&self) -> H {
        self.handler
    }

    /// A worker with no limit on running jobs.
    pub fn new(name: String, job_type: String, handler: H) -> (r: Self)
        ensures
            r.spec_name() == name,
            r.spec_job_type() == job_type,
            r.spec_max_running_jobs() == None::<usize>,
            r.spec_handler() == handler,
    {
        JobWorker { name, job_type, max_running_jobs: None, handler }
    }

    /// Run the handler on a job.
    pub fn call_handler(&self, job_key: i64, payload: String) -> (r: Result<Option<String>, ()>)
        requires
            call_requires(self.spec_handler(), (job_key, payload)),
        ensures
            call_ensures(self.spec_handler(), (job_key, payload), r),
    {
        (self.handler)(job_key, payload)
    }
}

} // verus!

use crate::gateway;
use vstd::prelude::*;

verus! {

/// An object used to activate jobs on the broker.
#[derive(Clone, Debug, PartialEq, Eq, Hash)]
pub struct ActivateJobs {
    /// the name of the worker activating the jobs, mostly used for logging purposes
    pub worker: String,
    /// the job type, as defined in the BPMN process (e.g. <zeebe:taskDefinition type="payment-service" />)
    pub job_type: String,
    /// a job returned after this call will not be activated by another call until the timeout has been reached
    pub timeout: i64,
    /// the maximum jobs to activate by this request
    pub max_jobs_to_activate: i32,
}

impl ActivateJobs {
    pub fn new(worker: String, job_type: String, timeout: i64, max_jobs_to_activate: i32) -> (r: Self)
        ensures
            r.worker == worker,
            r.job_type == job_type,
            r.timeout == timeout,
            r.max_jobs_to_activate == max_jobs_to_activate,
    {
        ActivateJobs { worker, job_type, timeout, max_jobs_to_activate }
    }

    /// The gateway request that activates these jobs: every field is carried over, no
    /// variables are singled out and the gateway's default request timeout applies.
    pub fn into_request(self) -> (r: gateway::ActivateJobsRequest)
        ensures
            r.max_jobs_to_activate == self.max_jobs_to_activate,
            r.timeout == self.timeout,
            r.worker == self.worker,
            r.field_type == self.job_type,
            r.fetch_variable@.len() == 0,
            r.request_timeout == 0,
    {
        gateway::ActivateJobsRequest {
            field_type: self.job_type,
            worker: self.worker,
            timeout: self.timeout,
            max_jobs_to_activate: self.max_jobs_to_activate,
            fetch_variable: Vec::new(),
            request_timeout: 0,
        }
    }
}

} // verus!

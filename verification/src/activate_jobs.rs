use crate::gateway;
use vstd::prelude::*;

verus! {

/// What a worker asks the gateway for when it activates jobs.
#[derive(Clone, Debug, PartialEq, Eq, Hash)]
pub struct ActivateJobsConfig {
    pub worker: String,
    pub job_type: String,
    pub timeout: i64,
    pub amount: i32,
}

/// How many jobs one request of `create_activate_jobs_request` activates at most.
pub open spec fn activation_batch_size() -> i32 {
    10
}

/// The request that activates jobs for `jobs_config`: at most ten jobs at a time, for the
/// configured worker, job type and timeout.
pub fn create_activate_jobs_request(jobs_config: &ActivateJobsConfig) -> (r: gateway::ActivateJobsRequest)
    ensures
        r.max_jobs_to_activate == activation_batch_size(),
        r.timeout == jobs_config.timeout,
        r.worker == jobs_config.worker,
        r.field_type == jobs_config.job_type,
        r.fetch_variable@.len() == 0,
        r.request_timeout == 0,
{
    gateway::ActivateJobsRequest {
        field_type: jobs_config.job_type.clone(),
        worker: jobs_config.worker.clone(),
        timeout: jobs_config.timeout,
        max_jobs_to_activate: 10,
        fetch_variable: Vec::new(),
        request_timeout: 0,
    }
}

} // verus!

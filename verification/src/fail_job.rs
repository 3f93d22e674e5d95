use crate::gateway;
use vstd::prelude::*;

verus! {

/// The job, the retries it keeps and why it failed.
#[derive(Clone, Debug, PartialEq)]
pub struct FailJobData {
    pub job_key: i64,
    pub retries: i32,
    pub reason: Option<String>,
}

/// The request that fails the job and leaves it `retries` retries, with no message.
pub fn fail_job_request(job_key: i64, retries: i32) -> (r: gateway::FailJobRequest)
    ensures
        r.job_key == job_key,
        r.retries == retries,
        r.error_message@ == Seq::<char>::empty(),
{
    gateway::FailJobRequest { job_key, retries, error_message: String::new() }
}

} // verus!

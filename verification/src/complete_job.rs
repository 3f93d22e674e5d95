use crate::gateway;
use vstd::prelude::*;

verus! {

/// The job and the variables it is completed with.
#[derive(Clone, Debug, PartialEq)]
pub struct CompletedJobData {
    pub job_key: i64,
    pub variables: Option<String>,
}

/// The request that completes the job; absent variables are sent as the empty document.
pub fn complete_job_request(completed_job_data: &CompletedJobData) -> (r: gateway::CompleteJobRequest)
    ensures
        r.job_key == completed_job_data.job_key,
        match completed_job_data.variables {
            Some(v) => r.variables == v,
            None => r.variables@ == Seq::<char>::empty(),
        },
{
    let variables = match &completed_job_data.variables {
        Some(v) => v.clone(),
        None => String::new(),
    };
    gateway::CompleteJobRequest { job_key: completed_job_data.job_key, variables }
}

} // verus!

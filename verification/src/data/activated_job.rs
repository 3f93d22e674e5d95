use crate::gateway;
use vstd::prelude::*;

verus! {

/// Describes an activate zeebe job. Use this to do work and respond with completion or failure.
#[derive(Clone, Debug, PartialEq)]
pub struct ActivatedJob {
    /// the key, a unique identifier for the job
    pub key: i64,
    /// the type of the job (should match what was requested)
    pub field_type: String,
    /// a set of custom headers defined during modelling; returned as a serialized JSON document
    pub custom_headers: String,
    /// the name of the worker which activated this job
    pub worker: String,
    /// the amount of retries left to this job (should always be positive)
    pub retries: i32,
    /// when the job can be activated again, sent as a UNIX epoch timestamp
    pub deadline: i64,
    /// JSON document, computed at activation time, consisting of all visible variables to the task scope
    pub variables: String,
}

impl From<gateway::ActivatedJob> for ActivatedJob {
    /// Keep the fields of the gateway's job that a job handler works with.
    fn from(aj: gateway::ActivatedJob) -> (r: Self) {
        ActivatedJob {
            key: aj.key,
            variables: aj.variables,
            worker: aj.worker,
            retries: aj.retries,
            deadline: aj.deadline,
            custom_headers: aj.custom_headers,
            field_type: aj.field_type,
        }
    }
}

impl vstd::std_specs::convert::FromSpecImpl<gateway::ActivatedJob> for ActivatedJob {
    open spec fn obeys_from_spec() -> bool {
        true
    }

    open spec fn from_spec(aj: gateway::ActivatedJob) -> Self {
        ActivatedJob {
            key: aj.key,
            field_type: aj.field_type,
            custom_headers: aj.custom_headers,
            worker: aj.worker,
            retries: aj.retries,
            deadline: aj.deadline,
            variables: aj.variables,
        }
    }
}

/// Every job of a batch, in the order of the batch, as a job handler sees it.
pub open spec fn jobs_from_gateway(jobs: Seq<gateway::ActivatedJob>) -> Seq<ActivatedJob> {
    jobs.map_values(|aj: gateway::ActivatedJob| <ActivatedJob as vstd::std_specs::convert::FromSpec<gateway::ActivatedJob>>::from_spec(aj))
}

/// Convert every job of a batch, keeping their order.
pub fn activated_jobs_from_gateway(jobs: Vec<gateway::ActivatedJob>) -> (r: Vec<ActivatedJob>)
    ensures
        r@ == jobs_from_gateway(jobs@),
        r@.len() == jobs@.len(),
        forall|i: int| 0 <= i < jobs@.len() ==> #[trigger] keeps_gateway_job(r@[i], jobs@[i]),
{
    let ghost src = jobs@;
    let mut out: Vec<ActivatedJob> = Vec::new();
    for aj in it: jobs.into_iter()
        invariant
            it.seq() == src,
            out@.len() == it.index(),
            forall|j: int| 0 <= j < it.index() ==> out@[j] == jobs_from_gateway(src)[j],
    {
        out.push(ActivatedJob::from(aj));
    }
    proof {
        assert(out@ =~= jobs_from_gateway(src));
        lemma_batch_keeps_every_job(src);
    }
    out
}

/// Whether `job` is the gateway's job `aj` as a handler sees it: every field the same.
pub open spec fn keeps_gateway_job(job: ActivatedJob, aj: gateway::ActivatedJob) -> bool {
    &&& job.key == aj.key
    &&& job.field_type == aj.field_type
    &&& job.custom_headers == aj.custom_headers
    &&& job.worker == aj.worker
    &&& job.retries == aj.retries
    &&& job.deadline == aj.deadline
    &&& job.variables == aj.variables
}

/// A converted batch holds every job of the gateway's batch, no more and no fewer, in the
/// same order, each with the same fields.
pub proof fn lemma_batch_keeps_every_job(jobs: Seq<gateway::ActivatedJob>)
    ensures
        jobs_from_gateway(jobs).len() == jobs.len(),
        forall|i: int| 0 <= i < jobs.len() ==> #[trigger] keeps_gateway_job(jobs_from_gateway(jobs)[i], jobs[i]),
{
}

} // verus!

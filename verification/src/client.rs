pub mod camunda_cloud_token_provider;
pub mod client_builder;
pub mod token_fetch;

use crate::data::activated_job::{activated_jobs_from_gateway, jobs_from_gateway, keeps_gateway_job, ActivatedJob};
use crate::data::created_workflow_instance::CreatedWorkflowInstance;
use crate::data::deployed_workflow::DeployedWorkflows;
use crate::data::workflow::Workflow;
use crate::data::topology::{all_roles_defined, broker_read_from, Topology};
use crate::error::Error;
use crate::gateway;
use vstd::prelude::*;
use vstd::std_specs::convert::FromSpec;

verus! {

/// Strongly type the version. `WorkflowVersion::Latest` is translated to `-1`.
#[derive(Clone, Copy, Debug, PartialEq, Eq)]
pub enum WorkflowVersion {
    Latest,
    Version(i32),
}

impl WorkflowVersion {
    /// The number that the gateway expects for this version.
    pub open spec fn spec_number(self) -> i32 {
        match self {
            WorkflowVersion::Latest => -1i32,
            WorkflowVersion::Version(v) => v,
        }
    }

    /// Translate the version to the gateway's number: `Latest` is `-1`.
    pub fn into_i32(self) -> (n: i32)
        ensures
            n == self.spec_number(),
    {
        match self {
            WorkflowVersion::Latest => -1,
            WorkflowVersion::Version(v) => v,
        }
    }
}

/// The request that deploys a single BPMN workflow with this name and definition.
pub fn deploy_bpmn_workflow_request(workflow_name: String, workflow_definition: Vec<u8>) -> (r:
    gateway::DeployWorkflowRequest)
    ensures
        r.workflows@.len() == 1,
        r.workflows@[0].name == workflow_name,
        r.workflows@[0].definition == workflow_definition,
        r.workflows@[0].field_type == gateway::ResourceType::Bpmn.spec_number(),
{
    let workflow_request_object = gateway::WorkflowRequestObject {
        name: workflow_name,
        field_type: gateway::ResourceType::Bpmn.number(),
        definition: workflow_definition,
    };
    let mut workflows: Vec<gateway::WorkflowRequestObject> = Vec::new();
    workflows.push(workflow_request_object);
    gateway::DeployWorkflowRequest { workflows }
}

/// The topology that the gateway answered, or its refusal as a topology error.
pub fn topology_reply(reply: Result<gateway::TopologyResponse, tonic::Status>) -> (r: Result<Topology, Error>)
    requires
        reply matches Ok(tr) ==> all_roles_defined(tr.brokers@),
    ensures
        match reply {
            Ok(tr) => r matches Ok(t) && t.brokers@.len() == tr.brokers@.len() && forall|i: int|
                0 <= i < t.brokers@.len() ==> broker_read_from(#[trigger] t.brokers@[i], tr.brokers@[i]),
            Err(e) => r == Err::<Topology, Error>(Error::TopologyError(e)),
        },
{
    match reply {
        Ok(tr) => Ok(Topology::from_raw(tr)),
        Err(e) => Err(Error::TopologyError(e)),
    }
}

/// The deployed workflows that the gateway answered, or its refusal as a deployment error.
pub fn deploy_workflow_reply(reply: Result<gateway::DeployWorkflowResponse, tonic::Status>) -> (r: Result<
    DeployedWorkflows,
    Error,
>)
    ensures
        match reply {
            Ok(dwr) => r matches Ok(d) && d.key == dwr.key && d.workflows@ == dwr.workflows@.map_values(
                |wm: gateway::WorkflowMetadata| <Workflow as FromSpec<gateway::WorkflowMetadata>>::from_spec(wm),
            ),
            Err(e) => r == Err::<DeployedWorkflows, Error>(Error::DeployWorkflowError(e)),
        },
{
    match reply {
        Ok(dwr) => Ok(DeployedWorkflows::new(dwr)),
        Err(e) => Err(Error::DeployWorkflowError(e)),
    }
}

/// The created instance that the gateway answered, or its refusal as a creation error.
pub fn create_workflow_instance_reply(reply: Result<gateway::CreateWorkflowInstanceResponse, tonic::Status>) -> (r:
    Result<CreatedWorkflowInstance, Error>)
    ensures
        match reply {
            Ok(cwr) => r matches Ok(c) && c.spec_workflow_key() == cwr.workflow_key
                && c.spec_bpmn_process_id() == cwr.bpmn_process_id && c.spec_version() == cwr.version
                && c.spec_workflow_instance_key() == cwr.workflow_instance_key,
            Err(e) => r == Err::<CreatedWorkflowInstance, Error>(Error::CreateWorkflowInstanceError(e)),
        },
{
    match reply {
        Ok(cwr) => Ok(CreatedWorkflowInstance::new(cwr)),
        Err(e) => Err(Error::CreateWorkflowInstanceError(e)),
    }
}

/// One batch of the activated jobs stream: the batch's jobs in order, or the gateway's
/// refusal as an activation error.
pub fn activated_jobs_batch(reply: Result<gateway::ActivateJobsResponse, tonic::Status>) -> (r: Result<
    Vec<ActivatedJob>,
    Error,
>)
    ensures
        match reply {
            Ok(ajr) => r matches Ok(jobs) && jobs@ == jobs_from_gateway(ajr.jobs@),
            Err(e) => r == Err::<Vec<ActivatedJob>, Error>(Error::ActivateJobError(e)),
        },
        reply matches Ok(ajr) ==> (r matches Ok(jobs) && jobs@.len() == ajr.jobs@.len() && forall|i: int|
            0 <= i < jobs@.len() ==> #[trigger] keeps_gateway_job(jobs@[i], ajr.jobs@[i])),
{
    match reply {
        Ok(ajr) => Ok(activated_jobs_from_gateway(ajr.jobs)),
        Err(e) => Err(Error::ActivateJobError(e)),
    }
}

/// The gateway's answer to a message publication: done, or its refusal as a publication
/// error.
pub fn publish_message_reply(reply: Result<(), tonic::Status>) -> (r: Result<(), Error>)
    ensures
        match reply {
            Ok(()) => r == Ok::<(), Error>(()),
            Err(e) => r == Err::<(), Error>(Error::PublishMessageError(e)),
        },
{
    match reply {
        Ok(()) => Ok(()),
        Err(e) => Err(Error::PublishMessageError(e)),
    }
}

/// The gateway's answer to a job completion: done, or its refusal as a completion error.
pub fn complete_job_reply(reply: Result<(), tonic::Status>) -> (r: Result<(), Error>)
    ensures
        match reply {
            Ok(()) => r == Ok::<(), Error>(()),
            Err(e) => r == Err::<(), Error>(Error::CompleteJobError(e)),
        },
{
    match reply {
        Ok(()) => Ok(()),
        Err(e) => Err(Error::CompleteJobError(e)),
    }
}

/// The gateway's answer to a job failure: done, or its refusal as a failure error.
pub fn fail_job_reply(reply: Result<(), tonic::Status>) -> (r: Result<(), Error>)
    ensures
        match reply {
            Ok(()) => r == Ok::<(), Error>(()),
            Err(e) => r == Err::<(), Error>(Error::FailJobError(e)),
        },
{
    match reply {
        Ok(()) => Ok(()),
        Err(e) => Err(Error::FailJobError(e)),
    }
}

/// The gateway's answer to a job activation: the stream of batches, or its refusal as an
/// activation error.
pub fn activate_jobs_reply<S>(reply: Result<S, tonic::Status>) -> (r: Result<S, Error>)
    ensures
        match reply {
            Ok(s) => r == Ok::<S, Error>(s),
            Err(e) => r == Err::<S, Error>(Error::ActivateJobError(e)),
        },
{
    match reply {
        Ok(s) => Ok(s),
        Err(e) => Err(Error::ActivateJobError(e)),
    }
}

} // verus!

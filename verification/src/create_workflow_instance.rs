use crate::client::WorkflowVersion;
use crate::error::Error;
use crate::gateway;
use serde_json::Error as JsonFailure;
use vstd::prelude::*;

verus! {

/// The request that creates an instance of the workflow with this process ID and version:
/// the payload's serialization error, if any, is a JSON error; an absent payload is sent as
/// the empty document.
pub fn create_workflow_instance_with_optional_string_payload(
    bpmn_process_id: String,
    version: WorkflowVersion,
    payload_string: Result<Option<String>, JsonFailure>,
) -> (r: Result<gateway::CreateWorkflowInstanceRequest, Error>)
    ensures
        match payload_string {
            Err(e) => r == Err::<gateway::CreateWorkflowInstanceRequest, Error>(Error::JsonError(e)),
            Ok(p) => r matches Ok(req) && req.bpmn_process_id == bpmn_process_id
                && req.version == version.spec_number() && req.workflow_key == 0
                && match p {
                    Some(v) => req.variables == v,
                    None => req.variables@ == Seq::<char>::empty(),
                },
        },
{
    match payload_string {
        Err(e) => Err(Error::JsonError(e)),
        Ok(p) => {
            let variables = match p {
                Some(v) => v,
                None => String::new(),
            };
            Ok(gateway::CreateWorkflowInstanceRequest {
                workflow_key: 0,
                bpmn_process_id,
                version: version.into_i32(),
                variables,
            })
        },
    }
}

/// The request that creates an instance without variables.
pub fn create_workflow_instance_with_no_payload(bpmn_process_id: String, version: WorkflowVersion) -> (r:
    gateway::CreateWorkflowInstanceRequest)
    ensures
        r.bpmn_process_id == bpmn_process_id,
        r.version == version.spec_number(),
        r.workflow_key == 0,
        r.variables@ == Seq::<char>::empty(),
{
    gateway::CreateWorkflowInstanceRequest {
        workflow_key: 0,
        bpmn_process_id,
        version: version.into_i32(),
        variables: String::new(),
    }
}

} // verus!

use crate::client::WorkflowVersion;
use crate::data::workflow_id::WorkflowId;
use crate::gateway;
use serde_json::Error as JsonFailure;
use vstd::prelude::*;

verus! {

/// Describes a workflow to instantiate.
#[derive(Clone, Debug, PartialEq)]
pub struct WorkflowInstance {
    id: WorkflowId,
    variables: Option<String>,
}

impl WorkflowInstance {
    pub closed spec fn spec_id(&self) -> WorkflowId {
        self.id
    }

    pub closed spec fn spec_variables(&self) -> Option<String> {
        self.variables
    }

    /// An instance of the workflow with this process ID and version, without variables.
    pub fn workflow_instance_with_bpmn_process(bpmn_process_id: String, version: WorkflowVersion) -> (r: Self)
        ensures
            r.spec_id() == WorkflowId::BpmnProcessId(bpmn_process_id, version),
            r.spec_variables() == None::<String>,
    {
        WorkflowInstance { id: WorkflowId::BpmnProcessId(bpmn_process_id, version), variables: None }
    }

    /// An instance of the workflow with this key, without variables.
    pub fn workflow_instance_with_workflow_key(workflow_key: i64) -> (r: Self)
        ensures
            r.spec_id() == WorkflowId::WorkflowKey(workflow_key),
            r.spec_variables() == None::<String>,
    {
        WorkflowInstance { id: WorkflowId::WorkflowKey(workflow_key), variables: None }
    }

    /// Set the variables to a JSON document, or hand back the serializer's error.
    pub fn with_json_variables(self, json: Result<String, JsonFailure>) -> (r: Result<Self, JsonFailure>)
        ensures
            match json {
                Ok(v) => r matches Ok(w) && w.spec_id() == self.spec_id() && w.spec_variables() == Some(v),
                Err(e) => r == Err::<Self, JsonFailure>(e),
            },
    {
        match json {
            Ok(v) => Ok(WorkflowInstance { id: self.id, variables: Some(v) }),
            Err(e) => Err(e),
        }
    }

    /// The gateway request that creates the instance: a process ID goes with its version
    /// number and a key alone; what is not given is sent as its empty value.
    pub fn into_request(self) -> (r: gateway::CreateWorkflowInstanceRequest)
        ensures
            match self.spec_id() {
                WorkflowId::BpmnProcessId(id, version) => {
                    &&& r.bpmn_process_id == id
                    &&& r.version == version.spec_number()
                    &&& r.workflow_key == 0
                },
                WorkflowId::WorkflowKey(key) => {
                    &&& r.workflow_key == key
                    &&& r.bpmn_process_id@ == Seq::<char>::empty()
                    &&& r.version == 0
                },
            },
            match self.spec_variables() {
                Some(v) => r.variables == v,
                None => r.variables@ == Seq::<char>::empty(),
            },
    {
        let variables = match self.variables {
            Some(v) => v,
            None => String::new(),
        };
        match self.id {
            WorkflowId::BpmnProcessId(bpmn_process_id, version) => gateway::CreateWorkflowInstanceRequest {
                workflow_key: 0,
                bpmn_process_id,
                version: version.into_i32(),
                variables,
            },
            WorkflowId::WorkflowKey(key) => gateway::CreateWorkflowInstanceRequest {
                workflow_key: key,
                bpmn_process_id: String::new(),
                version: 0,
                variables,
            },
        }
    }
}

} // verus!

use crate::gateway;
use vstd::prelude::*;

verus! {

/// Describes a workflow that was instantiated on zeebe.
#[derive(Clone, Debug, PartialEq)]
pub struct CreatedWorkflowInstance {
    workflow_key: i64,
    bpmn_process_id: String,
    version: i32,
    workflow_instance_key: i64,
}

impl CreatedWorkflowInstance {
    pub closed spec fn spec_workflow_key(&self) -> i64 {
        self.workflow_key
    }

    pub closed spec fn spec_bpmn_process_id(&self) -> String {
        self.bpmn_process_id
    }

    pub closed spec fn spec_version(&self) -> i32 {
        self.version
    }

    pub closed spec fn spec_workflow_instance_key(&self) -> i64 {
        self.workflow_instance_key
    }

    /// Read the gateway's answer to an instance creation.
    pub fn new(cwir: gateway::CreateWorkflowInstanceResponse) -> (r: Self)
        ensures
            r.spec_workflow_key() == cwir.workflow_key,
            r.spec_bpmn_process_id() == cwir.bpmn_process_id,
            r.spec_version() == cwir.version,
            r.spec_workflow_instance_key() == cwir.workflow_instance_key,
    {
        Self {
            workflow_key: cwir.workflow_key,
            bpmn_process_id: cwir.bpmn_process_id,
            version: cwir.version,
            workflow_instance_key: cwir.workflow_instance_key,
        }
    }

    /// The key of the workflow definition that the instance was created from.
    pub fn workflow_key(&self) -> (k: i64)
        ensures
            k == self.spec_workflow_key(),
    {
        self.workflow_key
    }

    /// The BPMN process ID of the workflow definition that the instance was created from.
    pub fn bpmn_process_id(&self) -> (s: &String)
        ensures
            *s == self.spec_bpmn_process_id(),
    {
        &self.bpmn_process_id
    }

    /// The version of the workflow definition that the instance was created from.
    pub fn version(&self) -> (v: i32)
        ensures
            v == self.spec_version(),
    {
        self.version
    }

    /// The key that identifies the created instance.
    pub fn workflow_instance_key(&self) -> (k: i64)
        ensures
            k == self.spec_workflow_instance_key(),
    {
        self.workflow_instance_key
    }
}

} // verus!

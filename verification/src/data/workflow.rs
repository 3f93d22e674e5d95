use crate::gateway;
use vstd::prelude::*;

verus! {

/// Describes a workflow deployed on zeebe.
#[derive(Clone, Debug, PartialEq)]
pub struct Workflow {
    pub bpmn_process_id: String,
    pub version: i32,
    pub workflow_key: i64,
    pub resource_name: String,
}

impl From<gateway::WorkflowMetadata> for Workflow {
    fn from(wm: gateway::WorkflowMetadata) -> (r: Self) {
        Workflow {
            bpmn_process_id: wm.bpmn_process_id,
            version: wm.version,
            workflow_key: wm.workflow_key,
            resource_name: wm.resource_name,
        }
    }
}

impl vstd::std_specs::convert::FromSpecImpl<gateway::WorkflowMetadata> for Workflow {
    open spec fn obeys_from_spec() -> bool {
        true
    }

    open spec fn from_spec(wm: gateway::WorkflowMetadata) -> Self {
        Workflow {
            bpmn_process_id: wm.bpmn_process_id,
            version: wm.version,
            workflow_key: wm.workflow_key,
            resource_name: wm.resource_name,
        }
    }
}

} // verus!

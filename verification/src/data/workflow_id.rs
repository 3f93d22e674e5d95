use crate::client::WorkflowVersion;
use vstd::prelude::*;

verus! {

/// Names a workflow definition, either by its process ID and version or by its key.
#[derive(Clone, Debug, PartialEq)]
pub enum WorkflowId {
    BpmnProcessId(String, WorkflowVersion),
    WorkflowKey(i64),
}

} // verus!

use crate::data::workflow::Workflow;
use crate::gateway;
use vstd::prelude::*;
use vstd::std_specs::convert::FromSpec;

verus! {

/// Describes a collection of deployed workflows.
#[derive(Clone, Debug, PartialEq)]
pub struct DeployedWorkflows {
    pub key: i64,
    pub workflows: Vec<Workflow>,
}

impl DeployedWorkflows {
    /// Read the gateway's answer to a deployment, each workflow in order.
    pub fn new(deploy_workflow_response: gateway::DeployWorkflowResponse) -> (r: DeployedWorkflows)
        ensures
            r.key == deploy_workflow_response.key,
            r.workflows@ == deploy_workflow_response.workflows@.map_values(
                |wm: gateway::WorkflowMetadata| <Workflow as FromSpec<gateway::WorkflowMetadata>>::from_spec(wm),
            ),
    {
        let ghost src = deploy_workflow_response.workflows@;
        let mut workflows: Vec<Workflow> = Vec::new();
        for wm in it: deploy_workflow_response.workflows.into_iter()
            invariant
                it.seq() == src,
                workflows@.len() == it.index(),
                forall|j: int|
                    0 <= j < it.index() ==> workflows@[j] == <Workflow as FromSpec<gateway::WorkflowMetadata>>::from_spec(#[trigger] src[j]),
        {
            workflows.push(Workflow::from(wm));
        }
        proof {
            assert(workflows@ =~= src.map_values(
                |wm: gateway::WorkflowMetadata| <Workflow as FromSpec<gateway::WorkflowMetadata>>::from_spec(wm),
            ));
        }
        DeployedWorkflows { key: deploy_workflow_response.key, workflows }
    }
}

} // verus!

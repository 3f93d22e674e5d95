//! The messages of zeebe's gateway protocol, as plain values.
//!
//! Each message has the fields of the gateway's protocol definition; the field that the
//! protocol calls `type` is called `field_type` here.
use vstd::prelude::*;

verus! {

/// Asks the gateway to activate jobs of one type.
#[derive(Clone, Debug, PartialEq)]
pub struct ActivateJobsRequest {
    /// the job type, as defined in the BPMN process
    pub field_type: String,
    /// the name of the worker activating the jobs, mostly used for logging purposes
    pub worker: String,
    /// a job returned after this call will not be activated by another call until the
    /// timeout has been reached
    pub timeout: i64,
    /// the maximum jobs to activate by this request
    pub max_jobs_to_activate: i32,
    /// a list of variables to fetch as the job variables; if empty, all visible variables
    /// are returned
    pub fetch_variable: Vec<String>,
    /// how long the request waits for at least one job; 0 means a default timeout
    pub request_timeout: i64,
}

/// One batch of activated jobs.
#[derive(Clone, Debug, PartialEq)]
pub struct ActivateJobsResponse {
    /// list of activated jobs
    pub jobs: Vec<ActivatedJob>,
}

/// A job as the gateway hands it out.
#[derive(Clone, Debug, PartialEq)]
pub struct ActivatedJob {
    /// the key, a unique identifier for the job
    pub key: i64,
    /// the type of the job (should match what was requested)
    pub field_type: String,
    /// the job's workflow instance key
    pub workflow_instance_key: i64,
    /// the bpmn process ID of the job workflow definition
    pub bpmn_process_id: String,
    /// the version of the job workflow definition
    pub workflow_definition_version: i32,
    /// the key of the job workflow definition
    pub workflow_key: i64,
    /// the associated task element ID
    pub element_id: String,
    /// the unique key identifying the associated task
    pub element_instance_key: i64,
    /// a set of custom headers defined during modelling, as a JSON document
    pub custom_headers: String,
    /// the name of the worker which activated this job
    pub worker: String,
    /// the amount of retries left to this job (should always be positive)
    pub retries: i32,
    /// when the job can be activated again, sent as a UNIX epoch timestamp
    pub deadline: i64,
    /// JSON document with all variables visible to the task scope
    pub variables: String,
}

/// Cancels a running workflow instance.
#[derive(Clone, Debug, PartialEq)]
pub struct CancelWorkflowInstanceRequest {
    pub workflow_instance_key: i64,
}

#[derive(Clone, Debug, PartialEq)]
pub struct CancelWorkflowInstanceResponse {}

/// Completes a job.
#[derive(Clone, Debug, PartialEq)]
pub struct CompleteJobRequest {
    /// the unique job identifier, as obtained from ActivateJobsResponse
    pub job_key: i64,
    /// a JSON document representing the variables in the current task scope
    pub variables: String,
}

#[derive(Clone, Debug, PartialEq)]
pub struct CompleteJobResponse {}

/// Creates a workflow instance.
#[derive(Clone, Debug, PartialEq)]
pub struct CreateWorkflowInstanceRequest {
    /// the unique key identifying the workflow definition
    pub workflow_key: i64,
    /// the BPMN process ID of the workflow definition
    pub bpmn_process_id: String,
    /// the version of the process; -1 means the latest version
    pub version: i32,
    /// JSON document that instantiates the variables of the root scope
    pub variables: String,
}

/// The answer to a created workflow instance.
#[derive(Clone, Debug, PartialEq)]
pub struct CreateWorkflowInstanceResponse {
    pub workflow_key: i64,
    pub bpmn_process_id: String,
    pub version: i32,
    pub workflow_instance_key: i64,
}

/// Deploys workflow resources.
#[derive(Clone, Debug, PartialEq)]
pub struct DeployWorkflowRequest {
    /// List of workflow resources to deploy
    pub workflows: Vec<WorkflowRequestObject>,
}

/// One workflow resource to deploy.
#[derive(Clone, Debug, PartialEq)]
pub struct WorkflowRequestObject {
    /// the resource basename, e.g. myProcess.bpmn
    pub name: String,
    /// the resource type, by its number in the protocol (see `ResourceType`)
    pub field_type: i32,
    /// the process definition as a UTF8-encoded string
    pub definition: Vec<u8>,
}

/// The kind of a workflow resource.
#[derive(Clone, Copy, Debug, PartialEq, Eq, Hash)]
pub enum ResourceType {
    /// the gateway detects the resource type from the file extension
    File,
    /// extension 'bpmn'
    Bpmn,
    /// extension 'yaml'
    Yaml,
}

impl ResourceType {
    /// The number of the resource type in the protocol.
    pub open spec fn spec_number(self) -> i32 {
        match self {
            ResourceType::File => 0i32,
            ResourceType::Bpmn => 1i32,
            ResourceType::Yaml => 2i32,
        }
    }

    /// The number of the resource type in the protocol.
    pub fn number(self) -> (n: i32)
        ensures
            n == self.spec_number(),
    {
        match self {
            ResourceType::File => 0,
            ResourceType::Bpmn => 1,
            ResourceType::Yaml => 2,
        }
    }
}

/// The answer to a deployment.
#[derive(Clone, Debug, PartialEq)]
pub struct DeployWorkflowResponse {
    /// the unique key identifying the deployment
    pub key: i64,
    /// a list of deployed workflows
    pub workflows: Vec<WorkflowMetadata>,
}

/// One deployed workflow.
#[derive(Clone, Debug, PartialEq)]
pub struct WorkflowMetadata {
    pub bpmn_process_id: String,
    pub version: i32,
    pub workflow_key: i64,
    pub resource_name: String,
}

/// Fails a job.
#[derive(Clone, Debug, PartialEq)]
pub struct FailJobRequest {
    /// the unique job identifier, as obtained when activating the job
    pub job_key: i64,
    /// the amount of retries the job should have left
    pub retries: i32,
    /// an optional message describing why the job failed
    pub error_message: String,
}

#[derive(Clone, Debug, PartialEq)]
pub struct FailJobResponse {}

/// Publishes a message.
#[derive(Clone, Debug, PartialEq)]
pub struct PublishMessageRequest {
    pub name: String,
    pub correlation_key: String,
    /// how long the message should be buffered on the broker, in milliseconds
    pub time_to_live: i64,
    pub message_id: String,
    /// the message variables as a JSON document
    pub variables: String,
}

#[derive(Clone, Debug, PartialEq)]
pub struct PublishMessageResponse {}

#[derive(Clone, Debug, PartialEq)]
pub struct ResolveIncidentRequest {
    pub incident_key: i64,
}

#[derive(Clone, Debug, PartialEq)]
pub struct ResolveIncidentResponse {}

#[derive(Clone, Debug, PartialEq)]
pub struct TopologyRequest {}

/// The brokers of the cluster.
#[derive(Clone, Debug, PartialEq)]
pub struct TopologyResponse {
    pub brokers: Vec<BrokerInfo>,
    pub cluster_size: i32,
    pub partitions_count: i32,
    pub replication_factor: i32,
}

/// One broker of the cluster.
#[derive(Clone, Debug, PartialEq)]
pub struct BrokerInfo {
    pub node_id: i32,
    pub host: String,
    pub port: i32,
    pub partitions: Vec<Partition>,
}

/// One partition of a broker.
#[derive(Clone, Debug, PartialEq)]
pub struct Partition {
    pub partition_id: i32,
    /// the role of the broker for this partition, by its number in the protocol
    pub role: i32,
}

/// Describes the Raft role of the broker for a given partition
#[derive(Clone, Copy, Debug, PartialEq, Eq, Hash)]
pub enum PartitionBrokerRole {
    Leader,
    Follower,
}

#[derive(Clone, Debug, PartialEq)]
pub struct UpdateJobRetriesRequest {
    pub job_key: i64,
    pub retries: i32,
}

#[derive(Clone, Debug, PartialEq)]
pub struct UpdateJobRetriesResponse {}

#[derive(Clone, Debug, PartialEq)]
pub struct SetVariablesRequest {
    pub element_instance_key: i64,
    pub variables: String,
    pub local: bool,
}

#[derive(Clone, Debug, PartialEq)]
pub struct SetVariablesResponse {}

} // verus!

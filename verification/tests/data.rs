use zeebest::data::activate_jobs::ActivateJobs;
use zeebest::data::broker::BrokerInfo;
use zeebest::data::broker_role::BrokerRole;
use zeebest::data::complete_job::CompleteJob;
use zeebest::data::created_workflow_instance::CreatedWorkflowInstance;
use zeebest::data::deployed_workflow::DeployedWorkflows;
use zeebest::data::partition::Partition;
use zeebest::data::publish_message::PublishMessage;
use zeebest::data::topology::Topology;
use zeebest::data::workflow::Workflow;
use zeebest::data::workflow_id::WorkflowId;
use zeebest::data::workflow_instance::WorkflowInstance;
use zeebest::gateway;
use zeebest::{ActivatedJob, Error, WorkflowVersion};

fn gateway_job(key: i64) -> gateway::ActivatedJob {
    gateway::ActivatedJob {
        key,
        field_type: "payment-service".to_string(),
        workflow_instance_key: 11,
        bpmn_process_id: "order-process".to_string(),
        workflow_definition_version: 2,
        workflow_key: 12,
        element_id: "task".to_string(),
        element_instance_key: 13,
        custom_headers: "{\"a\":1}".to_string(),
        worker: "rusty-worker".to_string(),
        retries: 3,
        deadline: 99,
        variables: "{\"b\":2}".to_string(),
    }
}

#[test]
fn activated_job_keeps_the_handlers_fields() {
    let aj: ActivatedJob = ActivatedJob::from(gateway_job(4));
    assert_eq!(aj.key, 4);
    assert_eq!(aj.field_type, "payment-service");
    assert_eq!(aj.custom_headers, "{\"a\":1}");
    assert_eq!(aj.worker, "rusty-worker");
    assert_eq!(aj.retries, 3);
    assert_eq!(aj.deadline, 99);
    assert_eq!(aj.variables, "{\"b\":2}");
}

#[test]
fn activated_jobs_keep_their_order() {
    let jobs = zeebest::data::activated_job::activated_jobs_from_gateway(vec![
        gateway_job(3),
        gateway_job(1),
        gateway_job(2),
    ]);
    let keys: Vec<i64> = jobs.iter().map(|j| j.key).collect();
    assert_eq!(keys, vec![3, 1, 2]);
    assert!(zeebest::data::activated_job::activated_jobs_from_gateway(vec![]).is_empty());
}

#[test]
fn activate_jobs_into_request() {
    let aj = ActivateJobs::new("w".to_string(), "t".to_string(), 1000, 5);
    let r = aj.into_request();
    assert_eq!(r.worker, "w");
    assert_eq!(r.field_type, "t");
    assert_eq!(r.timeout, 1000);
    assert_eq!(r.max_jobs_to_activate, 5);
    assert!(r.fetch_variable.is_empty());
    assert_eq!(r.request_timeout, 0);
}

#[test]
fn partition_roles_follow_the_protocol_numbers() {
    let leader = Partition::from_gateway(gateway::Partition { partition_id: 1, role: 0 });
    assert_eq!(leader, Partition { partition_id: 1, role: BrokerRole::LEADER });
    let follower = Partition::from_gateway(gateway::Partition { partition_id: 2, role: 1 });
    assert_eq!(follower, Partition { partition_id: 2, role: BrokerRole::FOLLOWER });
    assert_eq!(BrokerRole::from(gateway::PartitionBrokerRole::Leader), BrokerRole::LEADER);
    assert_eq!(BrokerRole::from(gateway::PartitionBrokerRole::Follower), BrokerRole::FOLLOWER);
}

#[test]
fn topology_reads_every_broker_and_partition() {
    let tr = gateway::TopologyResponse {
        brokers: vec![
            gateway::BrokerInfo {
                node_id: 0,
                host: "a".to_string(),
                port: 26501,
                partitions: vec![
                    gateway::Partition { partition_id: 1, role: 0 },
                    gateway::Partition { partition_id: 2, role: 1 },
                ],
            },
            gateway::BrokerInfo { node_id: 1, host: "b".to_string(), port: 26502, partitions: vec![] },
        ],
        cluster_size: 2,
        partitions_count: 2,
        replication_factor: 1,
    };
    let t = Topology::from_raw(tr);
    assert_eq!(t.brokers.len(), 2);
    assert_eq!(
        t.brokers[0],
        BrokerInfo {
            node_id: 0,
            host: "a".to_string(),
            port: 26501,
            partitions: vec![
                Partition { partition_id: 1, role: BrokerRole::LEADER },
                Partition { partition_id: 2, role: BrokerRole::FOLLOWER },
            ],
        }
    );
    assert_eq!(t.brokers[1].host, "b");
    assert!(t.brokers[1].partitions.is_empty());
}

#[test]
fn deployed_workflows_keep_key_and_workflows() {
    let d = DeployedWorkflows::new(gateway::DeployWorkflowResponse {
        key: 42,
        workflows: vec![
            gateway::WorkflowMetadata {
                bpmn_process_id: "p".to_string(),
                version: 3,
                workflow_key: 7,
                resource_name: "p.bpmn".to_string(),
            },
            gateway::WorkflowMetadata {
                bpmn_process_id: "q".to_string(),
                version: 1,
                workflow_key: 8,
                resource_name: "q.bpmn".to_string(),
            },
        ],
    });
    assert_eq!(d.key, 42);
    assert_eq!(
        d.workflows,
        vec![
            Workflow {
                bpmn_process_id: "p".to_string(),
                version: 3,
                workflow_key: 7,
                resource_name: "p.bpmn".to_string()
            },
            Workflow {
                bpmn_process_id: "q".to_string(),
                version: 1,
                workflow_key: 8,
                resource_name: "q.bpmn".to_string()
            },
        ]
    );
}

#[test]
fn created_workflow_instance_reads_the_answer() {
    let c = CreatedWorkflowInstance::new(gateway::CreateWorkflowInstanceResponse {
        workflow_key: 1,
        bpmn_process_id: "order-process".to_string(),
        version: 4,
        workflow_instance_key: 77,
    });
    assert_eq!(c.workflow_key(), 1);
    assert_eq!(c.bpmn_process_id(), "order-process");
    assert_eq!(c.version(), 4);
    assert_eq!(c.workflow_instance_key(), 77);
}

#[test]
fn complete_job_request_without_and_with_variables() {
    let r = CompleteJob::new(5, None).into_request();
    assert_eq!(r.job_key, 5);
    assert_eq!(r.variables, "");
    let c = CompleteJob::new(5, None).with_json_variables(serde_json::to_string(&vec![1, 2])).unwrap();
    assert_eq!(c.variables, Some("[1,2]".to_string()));
    assert_eq!(c.into_request().variables, "[1,2]");
}

#[test]
fn complete_job_serialization_error_is_a_json_error() {
    let bad: Result<String, serde_json::Error> = serde_json::from_str::<String>("not json");
    let r = CompleteJob::new(5, None).with_json_variables(bad);
    assert!(matches!(r, Err(Error::JsonError(_))));
}

#[test]
fn publish_message_into_request() {
    let m = PublishMessage::new("msg".to_string(), "key-1".to_string(), 10000, "id-1".to_string());
    let r = m.clone().into_request();
    assert_eq!(r.name, "msg");
    assert_eq!(r.correlation_key, "key-1");
    assert_eq!(r.time_to_live, 10000);
    assert_eq!(r.message_id, "id-1");
    assert_eq!(r.variables, "");
    let with = m.with_json_variables(serde_json::to_string(&"x")).unwrap().into_request();
    assert_eq!(with.variables, "\"x\"");
}

#[test]
fn workflow_instance_by_process_id_uses_the_version_number() {
    let w = WorkflowInstance::workflow_instance_with_bpmn_process("order-process".to_string(), WorkflowVersion::Latest);
    let r = w.into_request();
    assert_eq!(r.bpmn_process_id, "order-process");
    assert_eq!(r.version, -1);
    assert_eq!(r.workflow_key, 0);
    assert_eq!(r.variables, "");
    let mut vars = std::collections::BTreeMap::new();
    vars.insert("orderId", 31243);
    let w = WorkflowInstance::workflow_instance_with_bpmn_process("p".to_string(), WorkflowVersion::Version(3))
        .with_json_variables(serde_json::to_string(&vars))
        .unwrap();
    let r = w.into_request();
    assert_eq!(r.version, 3);
    assert_eq!(r.variables, "{\"orderId\":31243}");
}

#[test]
fn workflow_instance_by_key() {
    let r = WorkflowInstance::workflow_instance_with_workflow_key(2251799813685249).into_request();
    assert_eq!(r.workflow_key, 2251799813685249);
    assert_eq!(r.bpmn_process_id, "");
    assert_eq!(r.version, 0);
    let id = WorkflowId::WorkflowKey(3);
    assert_eq!(id, WorkflowId::WorkflowKey(3));
}

#[test]
fn workflow_version_latest_is_minus_one() {
    assert_eq!(WorkflowVersion::Latest.into_i32(), -1);
    assert_eq!(WorkflowVersion::Version(7).into_i32(), 7);
}

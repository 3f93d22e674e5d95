use zeebest::client::camunda_cloud_token_provider::CloudToken;
use zeebest::client::client_builder::{bearer_value, connection_authorization};
use zeebest::client::{activate_jobs_reply, complete_job_reply, fail_job_reply, publish_message_reply};
use zeebest::activate_jobs::{create_activate_jobs_request, ActivateJobsConfig};
use zeebest::blowetime::JobWorker as ReservingWorker;
use zeebest::client::client_builder::{connection_security, ConnectionSecurity};
use zeebest::client::{
    activated_jobs_batch, create_workflow_instance_reply, deploy_bpmn_workflow_request, deploy_workflow_reply,
    topology_reply,
};
use zeebest::create_workflow_instance::{
    create_workflow_instance_with_no_payload, create_workflow_instance_with_optional_string_payload,
};
use zeebest::fail_job::fail_job_request;
use zeebest::gateway;
use zeebest::publish_message::{
    publish_message_with_no_payload, publish_message_with_optional_string_payload,
};
use zeebest::stream::JobWorkerStream;
use zeebest::worker_builder::{build_the_world, NewJobBuilder, NewJobWorkerBuilder};
use zeebest::{Error, PanicOption, WorkflowVersion};

fn json_error() -> serde_json::Error {
    serde_json::from_str::<String>("{").unwrap_err()
}

#[test]
fn activate_jobs_config_asks_for_ten_jobs() {
    let c = ActivateJobsConfig { worker: "w".to_string(), job_type: "t".to_string(), timeout: 500, amount: 3 };
    let r = create_activate_jobs_request(&c);
    assert_eq!(r.max_jobs_to_activate, 10);
    assert_eq!(r.timeout, 500);
    assert_eq!(r.worker, "w");
    assert_eq!(r.field_type, "t");
}

#[test]
fn fail_job_request_keeps_key_and_retries() {
    let r = fail_job_request(4, 2);
    assert_eq!(r, gateway::FailJobRequest { job_key: 4, retries: 2, error_message: String::new() });
}

#[test]
fn deploy_request_holds_one_bpmn_workflow() {
    let r = deploy_bpmn_workflow_request("order-process.bpmn".to_string(), vec![1, 2, 3]);
    assert_eq!(r.workflows.len(), 1);
    assert_eq!(r.workflows[0].name, "order-process.bpmn");
    assert_eq!(r.workflows[0].definition, vec![1, 2, 3]);
    assert_eq!(r.workflows[0].field_type, 1);
    assert_eq!(gateway::ResourceType::File.number(), 0);
    assert_eq!(gateway::ResourceType::Yaml.number(), 2);
}

#[test]
fn replies_map_refusals_to_their_errors() {
    let s = || tonic::Status::unavailable("down");
    assert!(matches!(topology_reply(Err(s())), Err(Error::TopologyError(_))));
    assert!(matches!(deploy_workflow_reply(Err(s())), Err(Error::DeployWorkflowError(_))));
    assert!(matches!(create_workflow_instance_reply(Err(s())), Err(Error::CreateWorkflowInstanceError(_))));
    assert!(matches!(activated_jobs_batch(Err(s())), Err(Error::ActivateJobError(_))));
}

#[test]
fn replies_read_answers() {
    let t = topology_reply(Ok(gateway::TopologyResponse {
        brokers: vec![],
        cluster_size: 1,
        partitions_count: 1,
        replication_factor: 1,
    }))
    .unwrap();
    assert!(t.brokers.is_empty());
    let d = deploy_workflow_reply(Ok(gateway::DeployWorkflowResponse { key: 5, workflows: vec![] })).unwrap();
    assert_eq!(d.key, 5);
    let c = create_workflow_instance_reply(Ok(gateway::CreateWorkflowInstanceResponse {
        workflow_key: 1,
        bpmn_process_id: "p".to_string(),
        version: 2,
        workflow_instance_key: 3,
    }))
    .unwrap();
    assert_eq!(c.workflow_instance_key(), 3);
    let jobs = activated_jobs_batch(Ok(gateway::ActivateJobsResponse { jobs: vec![] })).unwrap();
    assert!(jobs.is_empty());
}

#[test]
fn publish_message_requests() {
    let r = publish_message_with_no_payload("m".to_string(), "c".to_string(), 10, "i".to_string());
    assert_eq!(r.name, "m");
    assert_eq!(r.correlation_key, "c");
    assert_eq!(r.time_to_live, 10);
    assert_eq!(r.message_id, "i");
    assert_eq!(r.variables, "");
    let payload = serde_json::to_string(&5).map(Some);
    let r = publish_message_with_optional_string_payload("m".to_string(), "c".to_string(), 10, "i".to_string(), payload).unwrap();
    assert_eq!(r.variables, "5");
    let r = publish_message_with_optional_string_payload("m".to_string(), "c".to_string(), 10, "i".to_string(), Ok(Some("{}".to_string())))
        .unwrap();
    assert_eq!(r.variables, "{}");
    let e = publish_message_with_optional_string_payload("m".to_string(), "c".to_string(), 10, "i".to_string(), Err(json_error()));
    assert!(matches!(e, Err(Error::JsonError(_))));
}

#[test]
fn create_workflow_instance_requests() {
    let r = create_workflow_instance_with_no_payload("p".to_string(), WorkflowVersion::Latest);
    assert_eq!(r.bpmn_process_id, "p");
    assert_eq!(r.version, -1);
    assert_eq!(r.variables, "");
    let payload = serde_json::to_string(&true).map(Some);
    let r = create_workflow_instance_with_optional_string_payload("p".to_string(), WorkflowVersion::Version(2), payload).unwrap();
    assert_eq!(r.version, 2);
    assert_eq!(r.variables, "true");
    let e = create_workflow_instance_with_optional_string_payload("p".to_string(), WorkflowVersion::Latest, Err(json_error()));
    assert!(matches!(e, Err(Error::JsonError(_))));
}

#[test]
fn connection_security_by_scheme() {
    assert_eq!(connection_security(Some("http".to_string()), None).unwrap(), ConnectionSecurity::Plain);
    assert_eq!(
        connection_security(Some("https".to_string()), Some("zeebe.example".to_string())).unwrap(),
        ConnectionSecurity::Tls { domain_name: "zeebe.example".to_string() }
    );
    assert!(matches!(connection_security(None, None), Err(Error::SchemeMissingError)));
    match connection_security(Some("ftp".to_string()), None) {
        Err(Error::InvalidSchemeError(s)) => assert_eq!(s, "ftp"),
        other => panic!("unexpected {:?}", other),
    }
}

#[test]
fn job_worker_stream_spawns_the_active_jobs() {
    let mut s = JobWorkerStream::new(4);
    let r = s.activate_new_jobs_request();
    assert_eq!(r.max_jobs_to_activate, 4);
    assert_eq!(r.timeout, 1000);
    assert_eq!(r.worker, "blah-worker");
    assert_eq!(r.field_type, "blah-worker-type");
    assert_eq!(s.jobs_to_spawn(3), 0);
}

#[test]
fn reserving_worker_reserves_every_free_slot() {
    let mut w = ReservingWorker::new("rusty-worker".to_string(), "a".to_string(), 10000, 32, ());
    let (next, r) = w.activate_and_process_jobs();
    assert_eq!(next, 32);
    assert_eq!(r.max_jobs_to_activate, 32);
    assert_eq!(r.worker, "rusty-worker");
    assert_eq!(r.field_type, "a");
    assert_eq!(r.timeout, 10000);
    let (next, _) = w.activate_and_process_jobs();
    assert_eq!(next, 0);
    w.jobs_received(20, 32);
    w.job_finished();
    let (next, _) = w.activate_and_process_jobs();
    assert_eq!(next, 13);
}

#[test]
fn reserving_worker_frees_unfilled_slots_and_finished_jobs() {
    let mut w = ReservingWorker::new("rusty-worker".to_string(), "a".to_string(), 10000, 8, ());
    let (next, _) = w.activate_and_process_jobs();
    assert_eq!(next, 8);
    w.jobs_received(3, 8);
    let (next, _) = w.activate_and_process_jobs();
    assert_eq!(next, 5);
    w.jobs_received(5, 5);
    for _ in 0..8 {
        w.job_finished();
    }
    let (next, _) = w.activate_and_process_jobs();
    assert_eq!(next, 8);
}

#[test]
fn new_job_builder_setters() {
    let mut b: NewJobBuilder<u8, u8> = NewJobBuilder::default();
    b.job_type("payment".to_string());
    b.timeout(3);
    b.panic_option(PanicOption::FailJobOnPanic);
    b.client(1);
    b.job_handler(2);
    let mut wb: NewJobWorkerBuilder<u8, u8> = build_the_world();
    wb.job(b);
}

#[test]
fn tick_holds_its_instant() {
    let now = std::time::Instant::now();
    let t = zeebest::worker::poll::Tick::new(now);
    assert!(format!("{:?}", t).contains("Tick"));
}

#[test]
fn gateway_refusals_become_their_errors() {
    let refusal = || Err(tonic::Status::internal("x"));
    assert!(matches!(publish_message_reply(Ok(())), Ok(())));
    assert!(matches!(publish_message_reply(refusal()), Err(Error::PublishMessageError(_))));
    assert!(matches!(complete_job_reply(Ok(())), Ok(())));
    assert!(matches!(complete_job_reply(refusal()), Err(Error::CompleteJobError(_))));
    assert!(matches!(fail_job_reply(Ok(())), Ok(())));
    assert!(matches!(fail_job_reply(refusal()), Err(Error::FailJobError(_))));
    assert!(matches!(activate_jobs_reply(Ok(7)), Ok(7)));
    assert!(matches!(activate_jobs_reply::<u8>(Err(tonic::Status::internal("x"))), Err(Error::ActivateJobError(_))));
}

#[test]
fn connection_sends_the_fetched_token_as_bearer() {
    assert_eq!(bearer_value("abc"), "Bearer abc");
    assert!(matches!(connection_authorization(None), Ok(None)));
    let header = connection_authorization(Some(Ok(CloudToken::new("tok".to_string(), 9)))).unwrap();
    assert_eq!(header, Some("Bearer tok".to_string()));
    let failed = connection_authorization(Some(Err(Error::InvalidCloudToken)));
    assert!(matches!(failed, Err(Error::InvalidCloudToken)));
}

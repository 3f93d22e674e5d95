pub mod activate_jobs;
pub mod activated_job;
pub mod broker;
pub mod broker_role;
pub mod complete_job;
pub mod created_workflow_instance;
pub mod deployed_workflow;
pub mod partition;
pub mod publish_message;
pub mod topology;
pub mod workflow;
pub mod workflow_id;
pub mod workflow_instance;

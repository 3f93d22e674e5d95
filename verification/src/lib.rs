pub mod activate_and_process_jobs;
pub mod activate_jobs;
pub mod blowetime;
pub mod client;
pub mod complete_job;
pub mod create_workflow_instance;
pub mod data;
pub mod error;
pub mod fail_job;
pub mod gateway;
pub mod job_fn;
pub mod publish_message;
pub mod runtime_builder;
pub mod stream;
pub mod worker;
pub mod worker_builder;

pub use activate_jobs::ActivateJobsConfig;
pub use client::WorkflowVersion;
pub use complete_job::CompletedJobData;
pub use data::activated_job::ActivatedJob;
pub use error::Error;
pub use worker::{JobResult, PanicOption};

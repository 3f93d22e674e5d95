use zeebest::activate_and_process_jobs::{
    finish_job, on_job_finished, FinishJob, FutureJobResponse, JobError, JobResponse, JobResult as ProcessedJob,
};
use zeebest::complete_job::{complete_job_request, CompletedJobData};
use zeebest::job_fn::{handle_panic, JobFn, JobFnLike};
use zeebest::runtime_builder::{reports_failure, runtime_job_report};
use zeebest::worker::job_client::StatusReport;
use zeebest::worker::{job_report, next_batch_step, BatchStep, JobWorker};
use zeebest::{ActivatedJob, Error, JobResult, PanicOption};

fn job(key: i64, retries: i32) -> ActivatedJob {
    ActivatedJob {
        key,
        field_type: "a".to_string(),
        custom_headers: "{}".to_string(),
        worker: "rusty-worker".to_string(),
        retries,
        deadline: 0,
        variables: "{}".to_string(),
    }
}

#[test]
fn into_result_maps_each_variant() {
    assert_eq!(JobResult::Complete { variables: Some("v".to_string()) }.into_result(), Ok(Some("v".to_string())));
    assert_eq!(JobResult::Fail { error_message: Some("e".to_string()) }.into_result(), Err(Some("e".to_string())));
    assert_eq!(JobResult::NoAction.into_result(), Err(None));
}

#[test]
fn worker_requests_only_free_slots() {
    let mut w = JobWorker::new("rusty-worker".to_string(), "payment-service".to_string(), 10000, 2, PanicOption::FailJobOnPanic);
    let r = w.job_internal.activate_jobs_request();
    assert_eq!(r.max_jobs_to_activate, 2);
    assert_eq!(r.worker, "rusty-worker");
    assert_eq!(r.job_type, "payment-service");
    assert_eq!(r.timeout, 10000);
    w.job_internal.job_started();
    assert_eq!(w.job_internal.job_count(), 1);
    assert_eq!(w.job_internal.activate_jobs_request().max_jobs_to_activate, 1);
    w.job_internal.job_started();
    assert_eq!(w.job_internal.activate_jobs_request().max_jobs_to_activate, 0);
}

#[test]
fn processed_batch_frees_its_slots() {
    let mut w = JobWorker::new("w".to_string(), "t".to_string(), 1, 32, PanicOption::DoNothingOnPanic);
    for _ in 0..3 {
        w.job_internal.job_started();
    }
    assert_eq!(w.job_internal.job_count(), 3);
    w.job_internal.job_processed(Some(JobResult::NoAction));
    w.job_internal.job_started();
    assert_eq!(w.job_internal.job_count(), 3);
    for _ in 0..3 {
        w.job_internal.job_processed(Some(JobResult::NoAction));
    }
    assert_eq!(w.job_internal.job_count(), 0);
    assert_eq!(w.job_internal.activate_jobs_request().max_jobs_to_activate, 32);
}

#[test]
fn batch_step_stops_on_error_and_end() {
    match next_batch_step(Some(Ok(vec![job(1, 1), job(2, 1)]))) {
        BatchStep::Process(jobs) => assert_eq!(jobs, vec![job(1, 1), job(2, 1)]),
        BatchStep::Stop => panic!("a batch is processed"),
    }
    assert!(matches!(next_batch_step(Some(Err(Error::ActivateJobError(tonic::Status::internal("x"))))), BatchStep::Stop));
    assert!(matches!(next_batch_step(None), BatchStep::Stop));
}

#[test]
fn panic_is_reported_as_the_option_says() {
    let failed = job_report(PanicOption::FailJobOnPanic, None);
    assert_eq!(failed, JobResult::Fail { error_message: Some("worker panicked".to_string()) });
    assert_eq!(job_report(PanicOption::DoNothingOnPanic, None), JobResult::NoAction);
    let done = JobResult::Complete { variables: None };
    assert_eq!(job_report(PanicOption::FailJobOnPanic, Some(done.clone())), done);
    let mut w = JobWorker::new("w".to_string(), "t".to_string(), 1, 1, PanicOption::FailJobOnPanic);
    w.job_internal.job_started();
    let r = w.job_internal.job_processed(None);
    assert_eq!(r, JobResult::Fail { error_message: Some("worker panicked".to_string()) });
    assert_eq!(w.job_internal.job_count(), 0);
}

#[test]
fn job_error_into_response() {
    assert_eq!(
        JobError::new(Some("r".to_string()), true).into_response(),
        JobResponse::Retry { reason: Some("r".to_string()) }
    );
    assert_eq!(JobError::new(None, false).into_response(), JobResponse::Fail { reason: None });
}

#[test]
fn future_job_response_gives_its_response() {
    let mut f = FutureJobResponse::new(JobResponse::DoNothing);
    assert_eq!(f.poll(), JobResponse::DoNothing);
    let mut g = JobResponse::Complete { payload: None }.into_future();
    assert_eq!(g.poll(), JobResponse::Complete { payload: None });
}

#[test]
fn finished_jobs_are_completed_or_failed() {
    let j = job(10, 3);
    assert_eq!(
        finish_job(&JobResponse::Complete { payload: Some("{}".to_string()) }, &j),
        FinishJob::Complete(CompletedJobData { job_key: 10, variables: Some("{}".to_string()) })
    );
    assert_eq!(finish_job(&JobResponse::Retry { reason: None }, &j), FinishJob::Fail { job_key: 10, retries: 2 });
    assert_eq!(finish_job(&JobResponse::Fail { reason: None }, &j), FinishJob::Fail { job_key: 10, retries: 0 });
    assert_eq!(finish_job(&JobResponse::DoNothing, &j), FinishJob::Nothing);
}

#[test]
fn retry_never_goes_below_zero() {
    assert_eq!(finish_job(&JobResponse::Retry { reason: None }, &job(1, 1)), FinishJob::Fail { job_key: 1, retries: 0 });
    assert_eq!(finish_job(&JobResponse::Retry { reason: None }, &job(1, 0)), FinishJob::Fail { job_key: 1, retries: 0 });
    assert_eq!(finish_job(&JobResponse::Retry { reason: None }, &job(1, -5)), FinishJob::Fail { job_key: 1, retries: 0 });
}

#[test]
fn jobs_without_retry_are_ended_at_any_retries() {
    let j = job(6, i32::MIN);
    assert_eq!(
        finish_job(&JobResponse::Complete { payload: None }, &j),
        FinishJob::Complete(CompletedJobData { job_key: 6, variables: None })
    );
    assert_eq!(finish_job(&JobResponse::Fail { reason: None }, &j), FinishJob::Fail { job_key: 6, retries: 0 });
    assert_eq!(finish_job(&JobResponse::DoNothing, &j), FinishJob::Nothing);
    let r = on_job_finished(JobResponse::Fail { reason: None }, j.clone(), Ok(())).unwrap();
    assert_eq!(r, ProcessedJob::new(j.clone(), JobResponse::Fail { reason: None }));
    let e = on_job_finished(JobResponse::Complete { payload: None }, j, Err(tonic::Status::internal("x")));
    assert!(matches!(e, Err(Error::CompleteJobError(_))));
}

#[test]
fn on_job_finished_maps_refusals() {
    let r = on_job_finished(JobResponse::DoNothing, job(1, 1), Ok(())).unwrap();
    assert_eq!(r, ProcessedJob::new(job(1, 1), JobResponse::DoNothing));
    assert_eq!(r.job().key, 1);
    assert_eq!(r.command(), &JobResponse::DoNothing);
    let e = on_job_finished(JobResponse::Complete { payload: None }, job(1, 1), Err(tonic::Status::internal("x")));
    assert!(matches!(e, Err(Error::CompleteJobError(_))));
    let e = on_job_finished(JobResponse::Retry { reason: None }, job(1, 1), Err(tonic::Status::internal("x")));
    assert!(matches!(e, Err(Error::FailJobError(_))));
}

#[test]
fn handle_panic_outcomes() {
    assert_eq!(handle_panic(Some(Ok(JobResponse::DoNothing)), 3, PanicOption::FailJobOnPanic), JobResponse::DoNothing);
    assert_eq!(
        handle_panic(Some(Err(JobError::new(Some("r".to_string()), false))), 3, PanicOption::FailJobOnPanic),
        JobResponse::Fail { reason: Some("r".to_string()) }
    );
    assert_eq!(
        handle_panic(None, 3, PanicOption::FailJobOnPanic),
        JobResponse::Retry { reason: Some("Job #3 panicked.".to_string()) }
    );
    assert_eq!(handle_panic(None, 3, PanicOption::DoNothingOnPanic), JobResponse::DoNothing);
    assert_eq!(
        handle_panic(None, 42, PanicOption::FailJobOnPanic),
        JobResponse::Retry { reason: Some("Job #42 panicked.".to_string()) }
    );
    assert_eq!(
        handle_panic(None, -2251799813685249, PanicOption::FailJobOnPanic),
        JobResponse::Retry { reason: Some("Job #-2251799813685249 panicked.".to_string()) }
    );
}

#[test]
fn panicked_job_is_failed_with_one_retry_less() {
    let j = job(3, 4);
    let r = handle_panic(None, j.key, PanicOption::FailJobOnPanic);
    assert_eq!(finish_job(&r, &j), FinishJob::Fail { job_key: 3, retries: 3 });
    let r = handle_panic(None, j.key, PanicOption::DoNothingOnPanic);
    assert_eq!(finish_job(&r, &j), FinishJob::Nothing);
}

#[test]
fn job_fn_builder() {
    let f = JobFn::with_job_type_and_handler("payment".to_string(), |x: i64| x + 1)
        .panic_option(PanicOption::DoNothingOnPanic)
        .timeout(5)
        .amount(3);
    assert_eq!(JobFnLike::job_type(&f), "payment");
    assert_eq!(JobFnLike::timeout(&f), Some(5));
    assert_eq!(JobFnLike::amount(&f), Some(3));
    assert_eq!(JobFnLike::panic_option(&f), Some(PanicOption::DoNothingOnPanic));
    assert_eq!((f.handler())(1), 2);
    let g = JobFn::with_job_type_and_handler("x".to_string(), ());
    assert_eq!(JobFnLike::timeout(&g), None);
    assert_eq!(JobFnLike::amount(&g), None);
    assert_eq!(JobFnLike::panic_option(&g), None);
}

#[test]
fn runtime_reports() {
    let fail = PanicOption::FailJobOnPanic;
    assert_eq!(
        runtime_job_report(Some(JobResult::Complete { variables: None }), 4, 2, fail),
        StatusReport::Complete { key: 4, variables: None }
    );
    assert_eq!(
        runtime_job_report(Some(JobResult::Fail { error_message: Some("m".to_string()) }), 4, 2, fail),
        StatusReport::Fail { key: 4, retries: 1, error_message: None }
    );
    assert_eq!(runtime_job_report(Some(JobResult::NoAction), 4, 2, fail), StatusReport::Nothing);
    assert_eq!(runtime_job_report(None, 4, 2, fail), StatusReport::Fail { key: 4, retries: 1, error_message: None });
    assert_eq!(runtime_job_report(None, 4, 2, PanicOption::DoNothingOnPanic), StatusReport::Nothing);
    assert_eq!(
        runtime_job_report(Some(JobResult::Complete { variables: None }), 4, i32::MIN, fail),
        StatusReport::Complete { key: 4, variables: None }
    );
    assert!(reports_failure(&None, fail));
    assert!(!reports_failure(&None, PanicOption::DoNothingOnPanic));
    assert!(reports_failure(&Some(JobResult::Fail { error_message: None }), PanicOption::DoNothingOnPanic));
    assert!(!reports_failure(&Some(JobResult::NoAction), fail));
}

#[test]
fn complete_job_request_from_data() {
    let r = complete_job_request(&CompletedJobData { job_key: 8, variables: None });
    assert_eq!(r.job_key, 8);
    assert_eq!(r.variables, "");
    let r = complete_job_request(&CompletedJobData { job_key: 8, variables: Some("{\"a\":1}".to_string()) });
    assert_eq!(r.variables, "{\"a\":1}");
}

#[test]
fn handler_errors_fail_the_job() {
    let j = job(21, 5);
    let retry = JobError::new(Some("again".to_string()), true).into_response();
    assert_eq!(finish_job(&retry, &j), FinishJob::Fail { job_key: 21, retries: 4 });
    let fail = JobError::new(Some("no".to_string()), false).into_response();
    assert_eq!(finish_job(&fail, &j), FinishJob::Fail { job_key: 21, retries: 0 });
}

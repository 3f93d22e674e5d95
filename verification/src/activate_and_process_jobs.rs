use crate::activate_jobs::ActivateJobsConfig;
use crate::complete_job::CompletedJobData;
use crate::data::activated_job::ActivatedJob;
use crate::error::Error;
use vstd::prelude::*;

verus! {

/// How a worker activates its jobs.
#[derive(Clone, Debug, PartialEq)]
pub struct WorkerConfig {
    pub activate_jobs_config: ActivateJobsConfig,
}

/// A job handler's error: why, and whether the job may be retried.
#[derive(Clone, Debug, PartialEq)]
pub struct JobError {
    reason: Option<String>,
    retry: bool,
}

/// What a job handler wants done with its job.
#[derive(Clone, Debug, PartialEq)]
pub enum JobResponse {
    Complete { payload: Option<String> },
    Retry { reason: Option<String> },
    Fail { reason: Option<String> },
    DoNothing,
}

impl JobError {
    pub closed spec fn spec_reason(&self) -> Option<String> {
        self.reason
    }

    pub closed spec fn spec_retry(&self) -> bool {
        self.retry
    }

    pub fn new(reason: Option<String>, retry: bool) -> (r: Self)
        ensures
            r.spec_reason() == reason,
            r.spec_retry() == retry,
    {
        JobError { reason, retry }
    }

    /// A retryable error asks for a retry, any other for a failure, with the same reason.
    pub open spec fn spec_into_response(self) -> JobResponse {
        if self.spec_retry() {
            JobResponse::Retry { reason: self.spec_reason() }
        } else {
            JobResponse::Fail { reason: self.spec_reason() }
        }
    }

    /// The response that the error stands for.
    pub fn into_response(self) -> (r: JobResponse)
        ensures
            r == self.spec_into_response(),
    {
        if self.retry {
            JobResponse::Retry { reason: self.reason }
        } else {
            JobResponse::Fail { reason: self.reason }
        }
    }
}

/// A job response that is ready to be taken, once.
pub struct FutureJobResponse {
    inner: Option<JobResponse>,
}

impl FutureJobResponse {
    pub closed spec fn spec_inner(&self) -> Option<JobResponse> {
        self.inner
    }

    pub fn new(job_response: JobResponse) -> (r: Self)
        ensures
            r.spec_inner() == Some(job_response),
    {
        FutureJobResponse { inner: Some(job_response) }
    }

    /// Take the response; a response can be taken only once.
    pub fn poll(&mut self) -> (r: JobResponse)
        requires
            old(self).spec_inner() is Some,
        ensures
            r == old(self).spec_inner()->0,
            final(self).spec_inner() is None,
    {
        self.inner.take().unwrap()
    }
}

impl JobResponse {
    /// The response, ready to be taken once.
    pub fn into_future(self) -> (r: FutureJobResponse)
        ensures
            r.spec_inner() == Some(self),
    {
        FutureJobResponse::new(self)
    }
}

/// A processed job and the response it was processed with.
#[derive(Clone, Debug, PartialEq)]
pub struct JobResult {
    job: ActivatedJob,
    command: JobResponse,
}

impl JobResult {
    pub closed spec fn spec_job(&self) -> ActivatedJob {
        self.job
    }

    pub closed spec fn spec_command(&self) -> JobResponse {
        self.command
    }

    pub fn new(job: ActivatedJob, command: JobResponse) -> (r: Self)
        ensures
            r.spec_job() == job,
            r.spec_command() == command,
    {
        JobResult { job, command }
    }

    /// The job.
    pub fn job(&self) -> (j: &ActivatedJob)
        ensures
            *j == self.spec_job(),
    {
        &self.job
    }

    /// The response the job was processed with.
    pub fn command(&self) -> (c: &JobResponse)
        ensures
            *c == self.spec_command(),
    {
        &self.command
    }
}

/// The call that ends a job once its handler answered.
#[derive(Clone, Debug, PartialEq)]
pub enum FinishJob {
    /// complete the job with these data
    Complete(CompletedJobData),
    /// fail the job and leave it this many retries
    Fail { job_key: i64, retries: i32 },
    /// tell the gateway nothing
    Nothing,
}

/// The retries a retried job keeps: one less than it had, but never below zero.
pub open spec fn retries_after_retry(retries: i32) -> i32 {
    if retries - 1 <= 0 {
        0
    } else {
        (retries - 1) as i32
    }
}

/// The call that ends `activated_job` for `job_response`: a completion with the payload as
/// variables, a failure that keeps one retry less (never below zero) for a retry, a failure
/// with no retries left for a failure, and no call for doing nothing.
pub open spec fn spec_finish_job(job_response: JobResponse, activated_job: ActivatedJob) -> FinishJob {
    match job_response {
        JobResponse::Complete { payload } => FinishJob::Complete(
            CompletedJobData { job_key: activated_job.key, variables: payload },
        ),
        JobResponse::Retry { .. } => FinishJob::Fail {
            job_key: activated_job.key,
            retries: retries_after_retry(activated_job.retries),
        },
        JobResponse::Fail { .. } => FinishJob::Fail { job_key: activated_job.key, retries: 0 },
        JobResponse::DoNothing => FinishJob::Nothing,
    }
}

/// A retried job keeps one retry less than it had, and never a negative number of retries.
pub proof fn lemma_retry_keeps_one_retry_less(retries: i32)
    requires
        retries > i32::MIN,
    ensures
        retries_after_retry(retries) >= 0,
        retries > 0 ==> retries_after_retry(retries) == retries - 1,
        retries <= 1 ==> retries_after_retry(retries) == 0,
{
}

/// A handler's error ends the job as a failure: a retryable one keeps the job one retry less
/// (never below zero), any other leaves it none.
pub proof fn lemma_handler_error_fails_job(error: JobError, activated_job: ActivatedJob)
    ensures
        error.spec_retry() ==> spec_finish_job(error.spec_into_response(), activated_job) == (FinishJob::Fail {
            job_key: activated_job.key,
            retries: retries_after_retry(activated_job.retries),
        }),
        !error.spec_retry() ==> spec_finish_job(error.spec_into_response(), activated_job) == (FinishJob::Fail {
            job_key: activated_job.key,
            retries: 0,
        }),
{
}

/// The call that ends `activated_job` for `job_response`.
pub fn finish_job(job_response: &JobResponse, activated_job: &ActivatedJob) -> (r: FinishJob)
    requires
        job_response is Retry ==> activated_job.retries > i32::MIN,
    ensures
        r == spec_finish_job(*job_response, *activated_job),
{
    match job_response {
        JobResponse::Complete { payload } => FinishJob::Complete(
            CompletedJobData { job_key: activated_job.key, variables: payload.clone() },
        ),
        JobResponse::Retry { .. } => {
            let mut retries = activated_job.retries - 1;
            if retries <= 0 {
                retries = 0;
            }
            FinishJob::Fail { job_key: activated_job.key, retries }
        },
        JobResponse::Fail { .. } => FinishJob::Fail { job_key: activated_job.key, retries: 0 },
        JobResponse::DoNothing => FinishJob::Nothing,
    }
}

/// The processed job, once the call that `finish_job` chose came back with `reply`: the job
/// and its response, or the gateway's refusal as a completion or a failure error.
pub fn on_job_finished(
    job_response: JobResponse,
    activated_job: ActivatedJob,
    reply: Result<(), tonic::Status>,
) -> (r: Result<JobResult, Error>)
    requires
        job_response is Retry ==> activated_job.retries > i32::MIN,
    ensures
        match reply {
            Ok(()) => r matches Ok(jr) && jr.spec_job() == activated_job && jr.spec_command() == job_response,
            Err(e) => match spec_finish_job(job_response, activated_job) {
                FinishJob::Complete(_) => r == Err::<JobResult, Error>(Error::CompleteJobError(e)),
                FinishJob::Fail { .. } => r == Err::<JobResult, Error>(Error::FailJobError(e)),
                FinishJob::Nothing => r matches Ok(jr) && jr.spec_job() == activated_job
                    && jr.spec_command() == job_response,
            },
        },
{
    let action = finish_job(&job_response, &activated_job);
    match reply {
        Ok(()) => Ok(JobResult::new(activated_job, job_response)),
        Err(e) => match action {
            FinishJob::Complete(_) => Err(Error::CompleteJobError(e)),
            FinishJob::Fail { .. } => Err(Error::FailJobError(e)),
            FinishJob::Nothing => Ok(JobResult::new(activated_job, job_response)),
        },
    }
}

} // verus!

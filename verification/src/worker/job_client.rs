use crate::data::activated_job::ActivatedJob;
use crate::error::Error;
use crate::worker::JobResult;
use vstd::prelude::*;

verus! {

/// Something that tells the gateway how a job ended. An implementation may say, by its two
/// spec functions, which answers its calls give; one that does not allows any answer.
pub trait JobStatusReporter {
    /// `r` is an answer that `complete(key, variables)` may give.
    open spec fn completes_with(&self, key: i64, variables: Option<String>, r: Result<(), Error>) -> bool {
        true
    }

    /// `r` is an answer that `fail(key, retries, error_message)` may give.
    open spec fn fails_with(&self, key: i64, retries: i32, error_message: Option<String>, r: Result<(), Error>) -> bool {
        true
    }

    fn complete(&self, key: i64, variables: Option<String>) -> (r: Result<(), Error>)
        ensures
            self.completes_with(key, variables, r),
    ;

    fn fail(&self, key: i64, retries: i32, error_message: Option<String>) -> (r: Result<(), Error>)
        ensures
            self.fails_with(key, retries, error_message, r),
    ;
}

/// The call that reports how a job ended.
#[derive(Clone, Debug, PartialEq)]
pub enum StatusReport {
    Nothing,
    Complete { key: i64, variables: Option<String> },
    Fail { key: i64, retries: i32, error_message: Option<String> },
}

/// The call that reports `job_result` for `activated_job`: nothing for no action, a
/// completion with the variables, or a failure with the job's retries and the message.
pub open spec fn spec_status_report(activated_job: ActivatedJob, job_result: JobResult) -> StatusReport {
    match job_result {
        JobResult::NoAction => StatusReport::Nothing,
        JobResult::Fail { error_message } => StatusReport::Fail {
            key: activated_job.key,
            retries: activated_job.retries,
            error_message,
        },
        JobResult::Complete { variables } => StatusReport::Complete { key: activated_job.key, variables },
    }
}

/// The call that reports `job_result` for `activated_job`.
pub fn status_report(activated_job: &ActivatedJob, job_result: JobResult) -> (r: StatusReport)
    ensures
        r == spec_status_report(*activated_job, job_result),
        job_result matches JobResult::Fail { error_message } ==> r == (StatusReport::Fail {
            key: activated_job.key,
            retries: activated_job.retries,
            error_message,
        }),
        job_result matches JobResult::Complete { variables } ==> r == (StatusReport::Complete {
            key: activated_job.key,
            variables,
        }),
        job_result is NoAction ==> (r is Nothing),
{
    let key = activated_job.key;
    let retries = activated_job.retries;
    match job_result {
        JobResult::NoAction => StatusReport::Nothing,
        JobResult::Fail { error_message } => StatusReport::Fail { key, retries, error_message },
        JobResult::Complete { variables } => StatusReport::Complete { key, variables },
    }
}

/// Reports the status of finished jobs through a reporter.
pub struct JobClient<R> {
    complete: R,
}

impl<R: JobStatusReporter> JobClient<R> {
    pub fn new(completer: R) -> (r: Self)
        ensures
            r.reporter() == completer,
    {
        Self { complete: completer }
    }

    pub closed spec fn reporter(&self) -> R {
        self.complete
    }

    /// Report how the job ended: nothing is called for no action (and the report succeeds),
    /// the reporter's `complete` for a completed job and its `fail` for a failed one, with
    /// the arguments that `spec_status_report` gives; the reporter's answer is returned.
    pub fn report_status(&self, activated_job: ActivatedJob, job_result: JobResult) -> (r: Result<(), Error>)
        ensures
            match spec_status_report(activated_job, job_result) {
                StatusReport::Nothing => r is Ok,
                StatusReport::Complete { key, variables } => self.reporter().completes_with(key, variables, r),
                StatusReport::Fail { key, retries, error_message } => self.reporter().fails_with(
                    key,
                    retries,
                    error_message,
                    r,
                ),
            },
            job_result is NoAction ==> (r is Ok),
            job_result matches JobResult::Complete { variables } ==> self.reporter().completes_with(
                activated_job.key,
                variables,
                r,
            ),
            job_result matches JobResult::Fail { error_message } ==> self.reporter().fails_with(
                activated_job.key,
                activated_job.retries,
                error_message,
                r,
            ),
    {
        match status_report(&activated_job, job_result) {
            StatusReport::Nothing => Ok(()),
            StatusReport::Fail { key, retries, error_message } => self.complete.fail(key, retries, error_message),
            StatusReport::Complete { key, variables } => self.complete.complete(key, variables),
        }
    }
}

/// The failure that a reporter sends to the gateway: one retry less than the job had, and
/// the message, or an empty one.
pub fn reporter_fail_request(key: i64, retries: i32, error_message: Option<String>) -> (r: crate::gateway::FailJobRequest)
    requires
        retries > i32::MIN,
    ensures
        r.job_key == key,
        r.retries == retries - 1,
        match error_message {
            Some(m) => r.error_message == m,
            None => r.error_message@ == Seq::<char>::empty(),
        },
{
    let error_message = match error_message {
        Some(m) => m,
        None => String::new(),
    };
    crate::gateway::FailJobRequest { job_key: key, retries: retries - 1, error_message }
}

/// How a job's result is reported, for every job and every result: a failure goes out
/// with the job's key, the job's own retries and the result's message, whatever the message
/// is (the reporter takes one retry off); a completion goes out with the job's key and the
/// result's variables; no action reports nothing.
pub proof fn lemma_report_keeps_job_and_result(
    activated_job: ActivatedJob,
    error_message: Option<String>,
    variables: Option<String>,
)
    ensures
        spec_status_report(activated_job, JobResult::Fail { error_message }) == (StatusReport::Fail {
            key: activated_job.key,
            retries: activated_job.retries,
            error_message,
        }),
        spec_status_report(activated_job, JobResult::Complete { variables }) == (StatusReport::Complete {
            key: activated_job.key,
            variables,
        }),
        (spec_status_report(activated_job, JobResult::NoAction) is Nothing),
{
}

} // verus!

use crate::worker::job_client::StatusReport;
use crate::worker::{JobResult, PanicOption};
use vstd::prelude::*;

verus! {

/// What the runtime reports for a job with this key and these retries whose handler gave
/// `outcome` (`None`: it panicked): a completion with the variables, a failure with one
/// retry less and no message, nothing for no action; after a panic, a failure with one retry
/// less under `FailJobOnPanic` and nothing under `DoNothingOnPanic`.
pub open spec fn spec_runtime_job_report(
    outcome: Option<JobResult>,
    job_key: i64,
    retries: i32,
    panic_option: PanicOption,
) -> StatusReport {
    match outcome {
        Some(JobResult::Complete { variables }) => StatusReport::Complete { key: job_key, variables },
        Some(JobResult::Fail { .. }) => StatusReport::Fail {
            key: job_key,
            retries: (retries - 1) as i32,
            error_message: None,
        },
        Some(JobResult::NoAction) => StatusReport::Nothing,
        None => match panic_option {
            PanicOption::FailJobOnPanic => StatusReport::Fail {
                key: job_key,
                retries: (retries - 1) as i32,
                error_message: None,
            },
            PanicOption::DoNothingOnPanic => StatusReport::Nothing,
        },
    }
}

/// The outcomes that the runtime answers with a failure, which takes one retry off.
pub open spec fn runtime_fails_job(outcome: Option<JobResult>, panic_option: PanicOption) -> bool {
    ||| outcome matches Some(JobResult::Fail { .. })
    ||| (outcome is None && panic_option == PanicOption::FailJobOnPanic)
}

/// Whether the runtime answers this outcome with a failure, which takes one retry off.
pub fn reports_failure(outcome: &Option<JobResult>, panic_option: PanicOption) -> (r: bool)
    ensures
        r == runtime_fails_job(*outcome, panic_option),
{
    match outcome {
        Some(JobResult::Fail { .. }) => true,
        Some(_) => false,
        None => match panic_option {
            PanicOption::FailJobOnPanic => true,
            PanicOption::DoNothingOnPanic => false,
        },
    }
}

/// What the runtime reports for a job whose handler gave `outcome`.
pub fn runtime_job_report(outcome: Option<JobResult>, job_key: i64, retries: i32, panic_option: PanicOption) -> (r:
    StatusReport)
    requires
        runtime_fails_job(outcome, panic_option) ==> retries > i32::MIN,
    ensures
        r == spec_runtime_job_report(outcome, job_key, retries, panic_option),
        outcome matches Some(JobResult::Complete { variables }) ==> r == (StatusReport::Complete {
            key: job_key,
            variables,
        }),
        outcome matches Some(JobResult::Fail { .. }) ==> r == (StatusReport::Fail {
            key: job_key,
            retries: (retries - 1) as i32,
            error_message: None,
        }),
        outcome matches Some(JobResult::NoAction) ==> (r is Nothing),
        (outcome is None && panic_option == PanicOption::FailJobOnPanic) ==> r == (StatusReport::Fail {
            key: job_key,
            retries: (retries - 1) as i32,
            error_message: None,
        }),
        (outcome is None && panic_option == PanicOption::DoNothingOnPanic) ==> (r is Nothing),
{
    match outcome {
        Some(JobResult::Complete { variables }) => StatusReport::Complete { key: job_key, variables },
        Some(JobResult::Fail { .. }) => StatusReport::Fail { key: job_key, retries: retries - 1, error_message: None },
        Some(JobResult::NoAction) => StatusReport::Nothing,
        None => match panic_option {
            PanicOption::FailJobOnPanic => StatusReport::Fail {
                key: job_key,
                retries: retries - 1,
                error_message: None,
            },
            PanicOption::DoNothingOnPanic => StatusReport::Nothing,
        },
    }
}

/// What the runtime reports for a job, for every outcome: a completion carries the handler's
/// own variables, whatever they are, for the job's key; a failure, and a panic under
/// `FailJobOnPanic`, fail the job with one retry less; no action, and a panic under
/// `DoNothingOnPanic`, report nothing.
pub proof fn lemma_runtime_report_follows_outcome(
    variables: Option<String>,
    error_message: Option<String>,
    job_key: i64,
    retries: i32,
    panic_option: PanicOption,
)
    requires
        retries > i32::MIN,
    ensures
        spec_runtime_job_report(Some(JobResult::Complete { variables }), job_key, retries, panic_option)
            == (StatusReport::Complete { key: job_key, variables }),
        spec_runtime_job_report(Some(JobResult::Fail { error_message }), job_key, retries, panic_option)
            == (StatusReport::Fail { key: job_key, retries: (retries - 1) as i32, error_message: None }),
        spec_runtime_job_report(None, job_key, retries, PanicOption::FailJobOnPanic) == (StatusReport::Fail {
            key: job_key,
            retries: (retries - 1) as i32,
            error_message: None,
        }),
        spec_runtime_job_report(Some(JobResult::NoAction), job_key, retries, panic_option) is Nothing,
        spec_runtime_job_report(None, job_key, retries, PanicOption::DoNothingOnPanic) is Nothing,
        (retries - 1) as i32 == retries - 1,
{
}

} // verus!

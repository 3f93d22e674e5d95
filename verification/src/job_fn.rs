use crate::activate_and_process_jobs::{JobError, JobResponse};
use std::sync::Arc;
use vstd::prelude::*;

pub use crate::worker::PanicOption;

verus! {

/// The decimal digit `d` (`0 <= d < 10`).
pub open spec fn digit_char(d: nat) -> char {
    seq!['0', '1', '2', '3', '4', '5', '6', '7', '8', '9'][d as int]
}

/// The decimal digits of `n`, most significant first, without leading zeros.
pub open spec fn decimal_digits(n: nat) -> Seq<char>
    decreases n,
{
    if n < 10 {
        seq![digit_char(n)]
    } else {
        decimal_digits(n / 10).push(digit_char(n % 10))
    }
}

/// `n` written in decimal, with a leading `-` when it is negative.
pub open spec fn decimal_text(n: int) -> Seq<char> {
    if n < 0 {
        seq!['-'] + decimal_digits((-n) as nat)
    } else {
        decimal_digits(n as nat)
    }
}

/// The text that a job is retried with when its handler panicked: `Job #<key> panicked.`
pub open spec fn panic_reason_text(key: i64) -> Seq<char> {
    seq!['J', 'o', 'b', ' ', '#'] + decimal_text(key as int) + seq![
        ' ',
        'p',
        'a',
        'n',
        'i',
        'c',
        'k',
        'e',
        'd',
        '.',
    ]
}

/// `n` in decimal, by `i64`'s `Display` (through `to_string`): a `-` for a negative number,
/// then its digits without leading zeros.
#[verifier::external_body]
fn i64_decimal(n: i64) -> (r: String)
    ensures
        r@ == decimal_text(n as int),
{
    n.to_string()
}

/// The reason a panicked job is retried with: `Job #<key> panicked.`
fn panic_reason(key: i64) -> (r: String)
    ensures
        r@ == panic_reason_text(key),
{
    let prefix = String::from_str("Job #");
    let suffix = String::from_str(" panicked.");
    proof {
        reveal_strlit("Job #");
        reveal_strlit(" panicked.");
    }
    let digits = i64_decimal(key);
    let with_key = prefix.concat(digits.as_str());
    let r = with_key.concat(suffix.as_str());
    proof {
        assert(r@ =~= panic_reason_text(key));
    }
    r
}

/// A job handler and how its jobs are activated.
pub struct JobFn<F> {
    job_type: String,
    f: Arc<F>,
    panic_option: Option<PanicOption>,
    timeout: Option<i64>,
    amount: Option<i32>,
}

impl<F> JobFn<F> {
    pub closed spec fn spec_handler(&self) -> F {
        *self.f
    }

    pub closed spec fn spec_job_type(&self) -> String {
        self.job_type
    }

    pub closed spec fn spec_panic_option(&self) -> Option<PanicOption> {
        self.panic_option
    }

    pub closed spec fn spec_timeout(&self) -> Option<i64> {
        self.timeout
    }

    pub closed spec fn spec_amount(&self) -> Option<i32> {
        self.amount
    }

    /// A handler for `job_type` with nothing else configured.
    pub fn with_job_type_and_handler(job_type: String, f: F) -> (r: Self)
        ensures
            r.spec_job_type() == job_type,
            r.spec_handler() == f,
            r.spec_panic_option() == None::<PanicOption>,
            r.spec_timeout() == None::<i64>,
            r.spec_amount() == None::<i32>,
    {
        JobFn { job_type, f: Arc::new(f), panic_option: None, timeout: None, amount: None }
    }

    pub fn panic_option(self, panic_option: PanicOption) -> (r: Self)
        ensures
            r.spec_panic_option() == Some(panic_option),
            r.spec_job_type() == self.spec_job_type(),
            r.spec_handler() == self.spec_handler(),
            r.spec_timeout() == self.spec_timeout(),
            r.spec_amount() == self.spec_amount(),
    {
        let mut s = self;
        s.panic_option = Some(panic_option);
        s
    }

    pub fn timeout(self, timeout: i64) -> (r: Self)
        ensures
            r.spec_timeout() == Some(timeout),
            r.spec_job_type() == self.spec_job_type(),
            r.spec_handler() == self.spec_handler(),
            r.spec_panic_option() == self.spec_panic_option(),
            r.spec_amount() == self.spec_amount(),
    {
        let mut s = self;
        s.timeout = Some(timeout);
        s
    }

    pub fn amount(self, amount: i32) -> (r: Self)
        ensures
            r.spec_amount() == Some(amount),
            r.spec_job_type() == self.spec_job_type(),
            r.spec_handler() == self.spec_handler(),
            r.spec_panic_option() == self.spec_panic_option(),
            r.spec_timeout() == self.spec_timeout(),
    {
        let mut s = self;
        s.amount = Some(amount);
        s
    }

    /// The handler itself.
    pub fn handler(&self) -> (f: &F)
        ensures
            *f == self.spec_handler(),
    {
        &*self.f
    }
}

/// What a configured job handler tells a worker.
pub trait JobFnLike {
    fn job_type(&self) -> String;

    fn timeout(&self) -> Option<i64>;

    fn amount(&self) -> Option<i32>;

    fn panic_option(&self) -> Option<PanicOption>;
}

impl<F> JobFnLike for JobFn<F> {
    fn job_type(&self) -> (r: String)
        ensures
            r == self.spec_job_type(),
    {
        self.job_type.clone()
    }

    fn timeout(&self) -> (r: Option<i64>)
        ensures
            r == self.spec_timeout(),
    {
        self.timeout
    }

    fn amount(&self) -> (r: Option<i32>)
        ensures
            r == self.spec_amount(),
    {
        self.amount
    }

    fn panic_option(&self) -> (r: Option<PanicOption>)
        ensures
            r == self.spec_panic_option(),
    {
        self.panic_option
    }
}

/// The response of a handler run: what the handler gave (`Some`), or, if it panicked
/// (`None`), a retry with the reason `Job #<key> panicked.` or nothing, as the panic option
/// says. A handler's error becomes a retry or a failure with its reason.
pub open spec fn spec_handle_panic(
    outcome: Option<Result<JobResponse, JobError>>,
    activated_job_key: i64,
    panic_option: PanicOption,
) -> Option<JobResponse> {
    match outcome {
        Some(Ok(response)) => Some(response),
        Some(Err(error)) => Some(error.spec_into_response()),
        None => match panic_option {
            PanicOption::FailJobOnPanic => None,
            PanicOption::DoNothingOnPanic => Some(JobResponse::DoNothing),
        },
    }
}

/// A retry whose reason is the text for a panicked handler of job `key`.
pub open spec fn is_panic_retry(r: JobResponse, key: i64) -> bool {
    &&& r matches JobResponse::Retry { reason: Some(m) }
    &&& r->Retry_reason->0@ == panic_reason_text(key)
}

/// A job whose handler panicked is retried under `FailJobOnPanic`: the gateway is told to
/// fail it with one retry less (never below zero). Under `DoNothingOnPanic` the gateway is
/// told nothing.
pub proof fn lemma_panicked_job_outcome(
    activated_job: crate::data::activated_job::ActivatedJob,
    panic_option: PanicOption,
    response: JobResponse,
)
    requires
        spec_handle_panic(None, activated_job.key, panic_option) matches Some(x) ==> response == x,
        spec_handle_panic(None, activated_job.key, panic_option) is None ==> is_panic_retry(response, activated_job.key),
    ensures
        panic_option == PanicOption::FailJobOnPanic ==> crate::activate_and_process_jobs::spec_finish_job(response, activated_job)
            == (crate::activate_and_process_jobs::FinishJob::Fail {
            job_key: activated_job.key,
            retries: crate::activate_and_process_jobs::retries_after_retry(activated_job.retries),
        }),
        panic_option == PanicOption::DoNothingOnPanic ==> crate::activate_and_process_jobs::spec_finish_job(response, activated_job)
            is Nothing,
{
}

/// Turn a handler run into the job's response (`None` for `outcome`: the handler panicked).
pub fn handle_panic(
    outcome: Option<Result<JobResponse, JobError>>,
    activated_job_key: i64,
    panic_option: PanicOption,
) -> (r: JobResponse)
    ensures
        spec_handle_panic(outcome, activated_job_key, panic_option) matches Some(x) ==> r == x,
        spec_handle_panic(outcome, activated_job_key, panic_option) is None ==> is_panic_retry(r, activated_job_key),
        outcome matches Some(Ok(x)) ==> r == x,
        outcome matches Some(Err(e)) ==> (if e.spec_retry() {
            r == JobResponse::Retry { reason: e.spec_reason() }
        } else {
            r == JobResponse::Fail { reason: e.spec_reason() }
        }),
        outcome is None && panic_option == PanicOption::FailJobOnPanic ==> is_panic_retry(r, activated_job_key),
        outcome is None && panic_option == PanicOption::DoNothingOnPanic ==> r == JobResponse::DoNothing,
{
    match outcome {
        Some(Ok(response)) => response,
        Some(Err(error)) => error.into_response(),
        None => match panic_option {
            PanicOption::FailJobOnPanic => JobResponse::Retry { reason: Some(panic_reason(activated_job_key)) },
            PanicOption::DoNothingOnPanic => JobResponse::DoNothing,
        },
    }
}

/// What a handler run comes to: a response that the handler gave is handed on exactly as
/// it is, whatever the job and the panic option (a retry stays a retry, a completion keeps its
/// payload); a handler's error becomes a retry exactly when the error allows one, with the
/// error's reason; a panic is retried with the panic text under `FailJobOnPanic` and left
/// alone under `DoNothingOnPanic`.
pub proof fn lemma_handler_answer_is_kept(
    response: JobResponse,
    error: JobError,
    activated_job_key: i64,
    panic_option: PanicOption,
)
    ensures
        spec_handle_panic(Some(Ok(response)), activated_job_key, panic_option) == Some(response),
        error.spec_retry() ==> spec_handle_panic(Some(Err(error)), activated_job_key, panic_option) == Some(
            JobResponse::Retry { reason: error.spec_reason() },
        ),
        !error.spec_retry() ==> spec_handle_panic(Some(Err(error)), activated_job_key, panic_option) == Some(
            JobResponse::Fail { reason: error.spec_reason() },
        ),
        spec_handle_panic(None, activated_job_key, PanicOption::FailJobOnPanic) is None,
        spec_handle_panic(None, activated_job_key, PanicOption::DoNothingOnPanic) == Some(JobResponse::DoNothing),
{
}

} // verus!

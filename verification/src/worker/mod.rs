pub mod job_client;
pub mod job_worker;
pub mod poll;

use crate::data::activate_jobs::ActivateJobs;
use crate::data::activated_job::ActivatedJob;
use crate::error::Error;
use vstd::prelude::*;

pub use job_client::{JobClient, JobStatusReporter};

verus! {

/// An option that describes what the job worker should do if if the job handler panics.
#[derive(Clone, Copy, Debug, PartialEq, Eq, Hash)]
pub enum PanicOption {
    FailJobOnPanic,
    DoNothingOnPanic,
}

/// A result that describes the output of a job.
#[derive(Clone, Debug, PartialEq)]
pub enum JobResult {
    Complete { variables: Option<String> },
    Fail { error_message: Option<String> },
    NoAction,
}

impl JobResult {
    /// A completed job gives its variables; a failed job gives its error message, and a job
    /// left alone gives no message.
    pub fn into_result(self) -> (r: Result<Option<String>, Option<String>>)
        ensures
            match self {
                JobResult::Complete { variables } => r == Ok::<Option<String>, Option<String>>(variables),
                JobResult::Fail { error_message } => r == Err::<Option<String>, Option<String>>(error_message),
                JobResult::NoAction => r == Err::<Option<String>, Option<String>>(None),
            },
    {
        match self {
            JobResult::Complete { variables } => Ok(variables),
            JobResult::Fail { error_message } => Err(error_message),
            JobResult::NoAction => Err(None),
        }
    }
}

/// The message that a job is failed with when its handler panicked.
pub open spec fn panicked_message() -> Seq<char> {
    seq!['w', 'o', 'r', 'k', 'e', 'r', ' ', 'p', 'a', 'n', 'i', 'c', 'k', 'e', 'd']
}

/// The failure that a panicked handler's job is reported with.
pub open spec fn is_panic_failure(r: JobResult) -> bool {
    &&& r matches JobResult::Fail { error_message: Some(m) }
    &&& r->error_message->0@ == panicked_message()
}

/// What the worker reports for a job whose handler returned `outcome` (`None`: it panicked).
pub open spec fn spec_job_report(panic_option: PanicOption, outcome: Option<JobResult>) -> Option<JobResult> {
    match outcome {
        Some(result) => Some(result),
        None => match panic_option {
            PanicOption::FailJobOnPanic => None,
            PanicOption::DoNothingOnPanic => Some(JobResult::NoAction),
        },
    }
}

/// What the worker reports for a job whose handler returned `outcome` (`None`: the handler
/// panicked): the handler's result as it is; after a panic, a failure with the message
/// "worker panicked" or nothing at all, as the panic option says.
pub fn job_report(panic_option: PanicOption, outcome: Option<JobResult>) -> (r: JobResult)
    ensures
        spec_job_report(panic_option, outcome) matches Some(x) ==> r == x,
        spec_job_report(panic_option, outcome) is None ==> is_panic_failure(r),
{
    match outcome {
        Some(result) => result,
        None => match panic_option {
            PanicOption::FailJobOnPanic => {
                let m = String::from_str("worker panicked");
                proof {
                    reveal_strlit("worker panicked");
                    assert(m@ == panicked_message());
                }
                JobResult::Fail { error_message: Some(m) }
            },
            PanicOption::DoNothingOnPanic => JobResult::NoAction,
        },
    }
}

/// The state of a job worker: its configuration and how many of its jobs are running.
pub struct JobInternal {
    job_count: usize,
    max_concurrent_jobs: usize,
    worker_name: String,
    job_type: String,
    timeout: i64,
    panic_option: PanicOption,
}

impl JobInternal {
    /// The maximum was given as a `u16`.
    #[verifier::type_invariant]
    spec fn max_fits_request(self) -> bool {
        self.max_concurrent_jobs <= u16::MAX
    }

    pub closed spec fn spec_job_count(&self) -> usize {
        self.job_count
    }

    pub closed spec fn spec_max_concurrent_jobs(&self) -> usize {
        self.max_concurrent_jobs
    }

    pub closed spec fn spec_worker_name(&self) -> String {
        self.worker_name
    }

    pub closed spec fn spec_job_type(&self) -> String {
        self.job_type
    }

    pub closed spec fn spec_timeout(&self) -> i64 {
        self.timeout
    }

    pub closed spec fn spec_panic_option(&self) -> PanicOption {
        self.panic_option
    }

    /// How many jobs are running.
    pub fn job_count(&self) -> (n: usize)
        ensures
            n == self.spec_job_count(),
    {
        self.job_count
    }

    /// How many jobs may run at once.
    pub fn max_concurrent_jobs(&self) -> (n: usize)
        ensures
            n == self.spec_max_concurrent_jobs(),
    {
        self.max_concurrent_jobs
    }

    /// The panic option of the worker.
    pub fn panic_option(&self) -> (p: PanicOption)
        ensures
            p == self.spec_panic_option(),
    {
        self.panic_option
    }

    /// The request for the next jobs: as many as there are free slots, for this worker,
    /// job type and timeout. The number of running jobs never exceeds the maximum here.
    pub fn activate_jobs_request(&self) -> (r: ActivateJobs)
        requires
            self.spec_job_count() <= self.spec_max_concurrent_jobs(),
        ensures
            r.worker == self.spec_worker_name(),
            r.job_type == self.spec_job_type(),
            r.timeout == self.spec_timeout(),
            r.max_jobs_to_activate == self.spec_max_concurrent_jobs() - self.spec_job_count(),
    {
        proof {
            use_type_invariant(self);
        }
        let free = self.max_concurrent_jobs - self.job_count;
        ActivateJobs::new(self.worker_name.clone(), self.job_type.clone(), self.timeout, free as i32)
    }

    /// The handling of one activated job starts: it takes a slot.
    pub fn job_started(&mut self)
        ensures
            final(self).spec_job_count() == count_after_event(old(self).spec_job_count(), WorkerEvent::Started),
            final(self).spec_max_concurrent_jobs() == old(self).spec_max_concurrent_jobs(),
            final(self).spec_worker_name() == old(self).spec_worker_name(),
            final(self).spec_job_type() == old(self).spec_job_type(),
            final(self).spec_timeout() == old(self).spec_timeout(),
            final(self).spec_panic_option() == old(self).spec_panic_option(),
    {
        proof {
            use_type_invariant(&*self);
        }
        self.job_count = self.job_count.wrapping_add(1);
    }

    /// The handler of `job` returned `outcome` (`None`: it panicked): the job no longer
    /// runs, and the result to report is given back.
    pub fn job_processed(&mut self, outcome: Option<JobResult>) -> (r: JobResult)
        ensures
            final(self).spec_job_count() == count_after_event(old(self).spec_job_count(), WorkerEvent::Finished),
            final(self).spec_max_concurrent_jobs() == old(self).spec_max_concurrent_jobs(),
            final(self).spec_worker_name() == old(self).spec_worker_name(),
            final(self).spec_job_type() == old(self).spec_job_type(),
            final(self).spec_timeout() == old(self).spec_timeout(),
            final(self).spec_panic_option() == old(self).spec_panic_option(),
            spec_job_report(old(self).spec_panic_option(), outcome) matches Some(x) ==> r == x,
            spec_job_report(old(self).spec_panic_option(), outcome) is None ==> is_panic_failure(r),
    {
        proof {
            use_type_invariant(&*self);
        }
        self.job_count = self.job_count.wrapping_sub(1);
        job_report(self.panic_option, outcome)
    }
}

/// What a worker does with the next item of its stream of activated jobs.
pub enum BatchStep {
    /// Handle these jobs, then read the next item.
    Process(Vec<ActivatedJob>),
    /// Stop reading: the stream ended, or it reported an error.
    Stop,
}

/// The worker's decision on the next item of its stream of activated jobs (`None`: the
/// stream ended): a batch is handled, and the end of the stream or an error stops the worker.
pub fn next_batch_step(item: Option<Result<Vec<ActivatedJob>, Error>>) -> (r: BatchStep)
    ensures
        match item {
            Some(Ok(jobs)) => r matches BatchStep::Process(js) && js@ == jobs@,
            _ => r is Stop,
        },
{
    match item {
        Some(Ok(jobs)) => BatchStep::Process(jobs),
        _ => BatchStep::Stop,
    }
}

/// What happens to a worker's running jobs: the handling of one starts, or one finishes.
pub enum WorkerEvent {
    Started,
    Finished,
}

/// The running-job count after one event.
pub open spec fn count_after_event(count: usize, event: WorkerEvent) -> usize {
    match event {
        WorkerEvent::Started => vstd::wrapping::usize_specs::wrapping_add(count, 1),
        WorkerEvent::Finished => vstd::wrapping::usize_specs::wrapping_sub(count, 1),
    }
}

/// The running-job count after the events, in order, starting from `count`.
pub open spec fn count_after_events(count: usize, events: Seq<WorkerEvent>) -> usize
    decreases events.len(),
{
    if events.len() == 0 {
        count
    } else {
        count_after_event(count_after_events(count, events.drop_last()), events.last())
    }
}

/// How many jobs started among the events.
pub open spec fn started_in(events: Seq<WorkerEvent>) -> nat
    decreases events.len(),
{
    if events.len() == 0 {
        0
    } else {
        started_in(events.drop_last()) + if events.last() is Started { 1nat } else { 0nat }
    }
}

/// How many jobs finished among the events.
pub open spec fn finished_in(events: Seq<WorkerEvent>) -> nat
    decreases events.len(),
{
    if events.len() == 0 {
        0
    } else {
        finished_in(events.drop_last()) + if events.last() is Finished { 1nat } else { 0nat }
    }
}

/// Every job that finishes has started before: at each point no more jobs have finished
/// than started.
pub open spec fn finishes_after_start(events: Seq<WorkerEvent>) -> bool
    decreases events.len(),
{
    events.len() == 0 || {
        &&& finishes_after_start(events.drop_last())
        &&& events.last() is Finished ==> finished_in(events.drop_last()) < started_in(events.drop_last())
    }
}

/// The count that a job worker keeps while it activates and processes jobs, where
/// `job_started` and `job_processed` are the events as each job's handling starts and ends.
/// A worker that starts from `count` running jobs counts exactly the jobs whose handling
/// has started and not yet finished: after any run of starts and finishes in which every
/// finished job had started, the count is `count` plus the jobs started less the jobs
/// finished. So while the jobs handed out stay within the free slots that the worker asked
/// for (`count + started <= max`), it never runs more than `max` jobs at any point, and once
/// every started job has finished it is back at `count`.
pub proof fn lemma_count_tracks_running_jobs(count: usize, max: usize, events: Seq<WorkerEvent>)
    requires
        finishes_after_start(events),
        count + started_in(events) <= max,
    ensures
        count_after_events(count, events) == count + started_in(events) - finished_in(events),
        count_after_events(count, events) <= max,
        started_in(events) == finished_in(events) ==> count_after_events(count, events) == count,
        forall|i: int| 0 <= i <= events.len() ==> #[trigger] count_after_events(count, events.take(i)) <= max,
{
    lemma_count_is_running_jobs(count, events);
    assert forall|i: int| 0 <= i <= events.len() implies #[trigger] count_after_events(count, events.take(i))
        <= max by {
        lemma_prefix_keeps_order(events, i);
        lemma_count_is_running_jobs(count, events.take(i));
    }
}

/// Whatever the gateway hands out, a worker's count is exactly the jobs whose handling has
/// started and not yet finished: from `count` running jobs, after a run of starts and
/// finishes in which every finished job had started (and that the count can hold), it is
/// `count` plus the jobs started less the jobs finished, and `count` again once every
/// started job has finished.
pub proof fn lemma_count_is_running_jobs(count: usize, events: Seq<WorkerEvent>)
    requires
        finishes_after_start(events),
        count + started_in(events) <= usize::MAX,
    ensures
        count_after_events(count, events) == count + started_in(events) - finished_in(events),
        finished_in(events) <= started_in(events),
        started_in(events) == finished_in(events) ==> count_after_events(count, events) == count,
    decreases events.len(),
{
    if events.len() > 0 {
        lemma_count_is_running_jobs(count, events.drop_last());
    }
}

proof fn lemma_prefix_keeps_order(events: Seq<WorkerEvent>, i: int)
    requires
        finishes_after_start(events),
        0 <= i <= events.len(),
    ensures
        finishes_after_start(events.take(i)),
        started_in(events.take(i)) <= started_in(events),
    decreases events.len() - i,
{
    if i == events.len() {
        assert(events.take(i) =~= events);
    } else {
        assert(events.drop_last().take(i) =~= events.take(i));
        lemma_prefix_keeps_order(events.drop_last(), i);
    }
}

/// A job whose handler panicked is failed with the job's key and retries and the message
/// "worker panicked" under `FailJobOnPanic`, and nothing is reported under
/// `DoNothingOnPanic`; a handler's own result is reported as it is.
pub proof fn lemma_panic_option_decides_report(job: crate::data::activated_job::ActivatedJob, panic_option: PanicOption, outcome: Option<JobResult>, reported: JobResult)
    requires
        spec_job_report(panic_option, outcome) matches Some(x) ==> reported == x,
        spec_job_report(panic_option, outcome) is None ==> is_panic_failure(reported),
    ensures
        outcome matches Some(result) ==> job_client::spec_status_report(job, reported)
            == job_client::spec_status_report(job, result),
        (outcome is None && panic_option == PanicOption::DoNothingOnPanic) ==> job_client::spec_status_report(job, reported)
            is Nothing,
        (outcome is None && panic_option == PanicOption::FailJobOnPanic) ==> (job_client::spec_status_report(job, reported)
            matches job_client::StatusReport::Fail { key, retries, error_message: Some(m) }
            && key == job.key && retries == job.retries && m@ == panicked_message()),
{
}

/// A worker will activate and process jobs with a job handler function.
/// The job worker has a maximum number of concurrent jobs that is controlled by a
/// consistent counter. When a job handler returns, the job worker will respond to the gateway
/// with the correct response (complete or fail). The job worker can be configured with a panic
/// option, so that it knows if to fail the job or do nothing if the handler panics.
///
/// It will only activate up to the maximum number of concurrent jobs allowed. When jobs
/// complete, the counter is updated.
pub struct JobWorker {
    pub job_internal: JobInternal,
}

impl JobWorker {
    /// A worker with no running jobs.
    pub fn new(worker: String, job_type: String, timeout: i64, max_amount: u16, panic_option: PanicOption) -> (r: Self)
        ensures
            r.job_internal.spec_job_count() == 0,
            r.job_internal.spec_max_concurrent_jobs() == max_amount,
            r.job_internal.spec_worker_name() == worker,
            r.job_internal.spec_job_type() == job_type,
            r.job_internal.spec_timeout() == timeout,
            r.job_internal.spec_panic_option() == panic_option,
    {
        JobWorker {
            job_internal: JobInternal {
                job_count: 0,
                max_concurrent_jobs: max_amount as usize,
                worker_name: worker,
                job_type,
                timeout,
                panic_option,
            },
        }
    }
}

} // verus!

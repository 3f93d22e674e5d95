use crate::worker::PanicOption;
use std::sync::atomic::AtomicI32;
use std::sync::Arc;
use vstd::prelude::*;

verus! {

/// Shared counters that bound how many jobs run at once.
pub struct ConcurrencyConfigBuilder {
    job_count: Option<Arc<AtomicI32>>,
    max_concurrent_jobs: Option<Arc<i32>>,
}

/// Collects the parts of one job: its handler, concurrency, client, type, timeout and
/// panic option.
pub struct NewJobBuilder<H, C> {
    job_handler: Option<H>,
    concurrent_config_builder: Option<ConcurrencyConfigBuilder>,
    client: Option<C>,
    job_type: Option<String>,
    timeout: Option<i64>,
    panic_option: Option<PanicOption>,
}

impl<H, C> NewJobBuilder<H, C> {
    pub closed spec fn spec_job_handler(&self) -> Option<H> {
        self.job_handler
    }

    pub closed spec fn spec_has_concurrency(&self) -> bool {
        self.concurrent_config_builder is Some
    }

    pub closed spec fn spec_client(&self) -> Option<C> {
        self.client
    }

    pub closed spec fn spec_job_type(&self) -> Option<String> {
        self.job_type
    }

    pub closed spec fn spec_timeout(&self) -> Option<i64> {
        self.timeout
    }

    pub closed spec fn spec_panic_option(&self) -> Option<PanicOption> {
        self.panic_option
    }

    /// Every part of the builder is the same in `a` and `b` but the ones that a setter names.
    pub open spec fn same_but_handler(a: Self, b: Self) -> bool {
        &&& a.spec_has_concurrency() == b.spec_has_concurrency()
        &&& a.spec_client() == b.spec_client()
        &&& a.spec_job_type() == b.spec_job_type()
        &&& a.spec_timeout() == b.spec_timeout()
        &&& a.spec_panic_option() == b.spec_panic_option()
    }

    pub fn job_handler(&mut self, job_handler: H)
        ensures
            final(self).spec_job_handler() == Some(job_handler),
            Self::same_but_handler(*final(self), *old(self)),
    {
        self.job_handler = Some(job_handler)
    }

    pub fn concurrency(&mut self, concurrency_config: ConcurrencyConfigBuilder)
        ensures
            final(self).spec_has_concurrency(),
            final(self).spec_job_handler() == old(self).spec_job_handler(),
            final(self).spec_client() == old(self).spec_client(),
            final(self).spec_job_type() == old(self).spec_job_type(),
            final(self).spec_timeout() == old(self).spec_timeout(),
            final(self).spec_panic_option() == old(self).spec_panic_option(),
    {
        self.concurrent_config_builder = Some(concurrency_config)
    }

    pub fn client(&mut self, client: C)
        ensures
            final(self).spec_client() == Some(client),
            final(self).spec_job_handler() == old(self).spec_job_handler(),
            final(self).spec_has_concurrency() == old(self).spec_has_concurrency(),
            final(self).spec_job_type() == old(self).spec_job_type(),
            final(self).spec_timeout() == old(self).spec_timeout(),
            final(self).spec_panic_option() == old(self).spec_panic_option(),
    {
        self.client = Some(client)
    }

    pub fn job_type(&mut self, job_type: String)
        ensures
            final(self).spec_job_type() == Some(job_type),
            final(self).spec_job_handler() == old(self).spec_job_handler(),
            final(self).spec_has_concurrency() == old(self).spec_has_concurrency(),
            final(self).spec_client() == old(self).spec_client(),
            final(self).spec_timeout() == old(self).spec_timeout(),
            final(self).spec_panic_option() == old(self).spec_panic_option(),
    {
        self.job_type = Some(job_type)
    }

    pub fn timeout(&mut self, timeout: i64)
        ensures
            final(self).spec_timeout() == Some(timeout),
            final(self).spec_job_handler() == old(self).spec_job_handler(),
            final(self).spec_has_concurrency() == old(self).spec_has_concurrency(),
            final(self).spec_client() == old(self).spec_client(),
            final(self).spec_job_type() == old(self).spec_job_type(),
            final(self).spec_panic_option() == old(self).spec_panic_option(),
    {
        self.timeout = Some(timeout)
    }

    pub fn panic_option(&mut self, panic_option: PanicOption)
        ensures
            final(self).spec_panic_option() == Some(panic_option),
            final(self).spec_job_handler() == old(self).spec_job_handler(),
            final(self).spec_has_concurrency() == old(self).spec_has_concurrency(),
            final(self).spec_client() == old(self).spec_client(),
            final(self).spec_job_type() == old(self).spec_job_type(),
            final(self).spec_timeout() == old(self).spec_timeout(),
    {
        self.panic_option = Some(panic_option)
    }
}

impl<H, C> Default for NewJobBuilder<H, C> {
    /// A builder with no part set.
    fn default() -> (r: Self)
        ensures
            r.spec_job_handler() is None,
            !r.spec_has_concurrency(),
            r.spec_client() is None,
            r.spec_job_type() is None,
            r.spec_timeout() is None,
            r.spec_panic_option() is None,
    {
        NewJobBuilder {
            job_handler: None,
            concurrent_config_builder: None,
            client: None,
            job_type: None,
            timeout: None,
            panic_option: None,
        }
    }
}

/// Collects the jobs of a worker.
pub struct NewJobWorkerBuilder<H, C> {
    job_builders: Vec<NewJobBuilder<H, C>>,
}

impl<H, C> NewJobWorkerBuilder<H, C> {
    pub closed spec fn spec_job_builders(&self) -> Seq<NewJobBuilder<H, C>> {
        self.job_builders@
    }

    /// Add a job after the ones already collected.
    pub fn job(&mut self, job: NewJobBuilder<H, C>)
        ensures
            final(self).spec_job_builders() == old(self).spec_job_builders().push(job),
    {
        self.job_builders.push(job);
    }
}

/// A worker builder with one job that has no part set.
pub fn build_the_world<H, C>() -> (r: NewJobWorkerBuilder<H, C>)
    ensures
        r.spec_job_builders().len() == 1,
        r.spec_job_builders()[0].spec_job_handler() is None,
        r.spec_job_builders()[0].spec_client() is None,
        r.spec_job_builders()[0].spec_job_type() is None,
{
    let mut job_builders: Vec<NewJobBuilder<H, C>> = Vec::new();
    job_builders.push(NewJobBuilder::default());
    NewJobWorkerBuilder { job_builders }
}

} // verus!

use vstd::prelude::*;

verus! {

/// A point in time of the machine's monotonic clock.
#[verifier::external_type_specification]
#[verifier::external_body]
pub struct ExInstant(std::time::Instant);

/// One tick of a polling interval.
#[derive(Debug)]
pub struct Tick {
    instant: std::time::Instant,
}

impl Tick {
    pub closed spec fn spec_instant(&self) -> std::time::Instant {
        self.instant
    }

    pub fn new(instant: std::time::Instant) -> (r: Self)
        ensures
            r.spec_instant() == instant,
    {
        Tick { instant }
    }
}

} // verus!

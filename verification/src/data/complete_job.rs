use crate::error::Error;
use crate::gateway;
use serde_json::Error as JsonFailure;
use vstd::prelude::*;

verus! {

/// A message for completing a zeebe job.
#[derive(Clone, Debug, PartialEq)]
pub struct CompleteJob {
    pub job_key: i64,
    pub variables: Option<String>,
}

impl CompleteJob {
    pub fn new(job_key: i64, variables: Option<String>) -> (r: Self)
        ensures
            r.job_key == job_key,
            r.variables == variables,
    {
        Self { job_key, variables }
    }

    /// Set the variables to a JSON document, or fail with the serializer's error.
    pub fn with_json_variables(self, json: Result<String, JsonFailure>) -> (r: Result<Self, Error>)
        ensures
            match json {
                Ok(v) => r == Ok::<Self, Error>(CompleteJob { job_key: self.job_key, variables: Some(v) }),
                Err(e) => r == Err::<Self, Error>(Error::JsonError(e)),
            },
    {
        match json {
            Ok(v) => Ok(CompleteJob { job_key: self.job_key, variables: Some(v) }),
            Err(e) => Err(Error::JsonError(e)),
        }
    }

    /// The gateway request that completes the job; absent variables are sent as the empty
    /// document.
    pub fn into_request(self) -> (r: gateway::CompleteJobRequest)
        ensures
            r.job_key == self.job_key,
            match self.variables {
                Some(v) => r.variables == v,
                None => r.variables@ == Seq::<char>::empty(),
            },
    {
        let variables = match self.variables {
            Some(v) => v,
            None => String::new(),
        };
        gateway::CompleteJobRequest { job_key: self.job_key, variables }
    }
}

} // verus!

use crate::error::Error;
use crate::gateway;
use serde_json::Error as JsonFailure;
use vstd::prelude::*;

verus! {

/// A message for publishing an event on zeebe.
#[derive(Clone, Debug, PartialEq)]
pub struct PublishMessage {
    name: String,
    correlation_key: String,
    time_to_live: i64,
    message_id: String,
    variables: Option<String>,
}

impl PublishMessage {
    pub closed spec fn spec_name(&self) -> String {
        self.name
    }

    pub closed spec fn spec_correlation_key(&self) -> String {
        self.correlation_key
    }

    pub closed spec fn spec_time_to_live(&self) -> i64 {
        self.time_to_live
    }

    pub closed spec fn spec_message_id(&self) -> String {
        self.message_id
    }

    pub closed spec fn spec_variables(&self) -> Option<String> {
        self.variables
    }

    /// A message with these fields and no variables.
    pub fn new(name: String, correlation_key: String, time_to_live: i64, message_id: String) -> (r: Self)
        ensures
            r.spec_name() == name,
            r.spec_correlation_key() == correlation_key,
            r.spec_time_to_live() == time_to_live,
            r.spec_message_id() == message_id,
            r.spec_variables() == None::<String>,
    {
        PublishMessage { name, correlation_key, time_to_live, message_id, variables: None }
    }

    /// Set the variables to a JSON document, or fail with the serializer's error.
    pub fn with_json_variables(self, json: Result<String, JsonFailure>) -> (r: Result<Self, Error>)
        ensures
            match json {
                Ok(v) => r matches Ok(m) && m.spec_name() == self.spec_name()
                    && m.spec_correlation_key() == self.spec_correlation_key()
                    && m.spec_time_to_live() == self.spec_time_to_live()
                    && m.spec_message_id() == self.spec_message_id()
                    && m.spec_variables() == Some(v),
                Err(e) => r == Err::<Self, Error>(Error::JsonError(e)),
            },
    {
        match json {
            Ok(v) => {
                let mut m = self;
                m.variables = Some(v);
                Ok(m)
            },
            Err(e) => Err(Error::JsonError(e)),
        }
    }

    /// The gateway request that publishes the message; absent variables are sent as the
    /// empty document.
    pub fn into_request(self) -> (r: gateway::PublishMessageRequest)
        ensures
            r.name == self.spec_name(),
            r.correlation_key == self.spec_correlation_key(),
            r.time_to_live == self.spec_time_to_live(),
            r.message_id == self.spec_message_id(),
            match self.spec_variables() {
                Some(v) => r.variables == v,
                None => r.variables@ == Seq::<char>::empty(),
            },
    {
        let variables = match self.variables {
            Some(v) => v,
            None => String::new(),
        };
        gateway::PublishMessageRequest {
            name: self.name,
            correlation_key: self.correlation_key,
            time_to_live: self.time_to_live,
            message_id: self.message_id,
            variables,
        }
    }
}

} // verus!

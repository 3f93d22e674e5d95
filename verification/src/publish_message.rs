use crate::error::Error;
use crate::gateway;
use serde_json::Error as JsonFailure;
use vstd::prelude::*;

verus! {

/// The request that publishes a message: the payload's serialization error, if any, is a
/// JSON error; an absent payload is sent as the empty document.
pub fn publish_message_with_optional_string_payload(
    name: String,
    correlation_key: String,
    time_to_live: i64,
    message_id: String,
    payload: Result<Option<String>, JsonFailure>,
) -> (r: Result<gateway::PublishMessageRequest, Error>)
    ensures
        match payload {
            Err(e) => r == Err::<gateway::PublishMessageRequest, Error>(Error::JsonError(e)),
            Ok(p) => r matches Ok(req) && req.name == name && req.correlation_key == correlation_key
                && req.time_to_live == time_to_live && req.message_id == message_id
                && match p {
                    Some(v) => req.variables == v,
                    None => req.variables@ == Seq::<char>::empty(),
                },
        },
{
    match payload {
        Err(e) => Err(Error::JsonError(e)),
        Ok(p) => {
            let variables = match p {
                Some(v) => v,
                None => String::new(),
            };
            Ok(gateway::PublishMessageRequest { name, correlation_key, time_to_live, message_id, variables })
        },
    }
}

/// The request that publishes a message without variables.
pub fn publish_message_with_no_payload(
    name: String,
    correlation_key: String,
    time_to_live: i64,
    message_id: String,
) -> (r: gateway::PublishMessageRequest)
    ensures
        r.name == name,
        r.correlation_key == correlation_key,
        r.time_to_live == time_to_live,
        r.message_id == message_id,
        r.variables@ == Seq::<char>::empty(),
{
    gateway::PublishMessageRequest { name, correlation_key, time_to_live, message_id, variables: String::new() }
}

} // verus!

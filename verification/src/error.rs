use serde_json::Error as JsonFailure;
use tonic::transport::Error as TransportFailure;
use vstd::prelude::*;

verus! {

/// The status that the gateway answers a refused or failed call with.
#[verifier::external_type_specification]
#[verifier::external_body]
pub struct ExStatus(tonic::Status);

/// A failure of the transport that carries the gateway calls.
#[verifier::external_type_specification]
#[verifier::external_body]
pub struct ExTransportError(TransportFailure);

/// A failure to turn variables into a JSON document.
#[verifier::external_type_specification]
#[verifier::external_body]
pub struct ExJsonError(JsonFailure);

/// A failure of the operating system's input or output.
#[verifier::external_type_specification]
#[verifier::external_body]
pub struct ExIoError(std::io::Error);

/// Everything that can go wrong when talking to zeebe.
#[derive(Debug)]
pub enum Error {
    GatewayError(TransportFailure),
    TopologyError(tonic::Status),
    ListWorkflowsError(tonic::Status),
    DeployWorkflowError(tonic::Status),
    CreateWorkflowInstanceError(tonic::Status),
    ActivateJobError(tonic::Status),
    CompleteJobError(tonic::Status),
    PublishMessageError(tonic::Status),
    FailJobError(tonic::Status),
    JobError(String),
    JsonError(JsonFailure),
    StdIoError(std::io::Error),
    InvalidCloudToken,
    TonicError(TransportFailure),
    /// The message of a failed call to the cloud's authentication service.
    SurfError(String),
    SchemeMissingError,
    InvalidSchemeError(String),
}

impl From<std::io::Error> for Error {
    fn from(e: std::io::Error) -> (r: Self) {
        Error::StdIoError(e)
    }
}

impl vstd::std_specs::convert::FromSpecImpl<std::io::Error> for Error {
    open spec fn obeys_from_spec() -> bool {
        true
    }

    open spec fn from_spec(e: std::io::Error) -> Self {
        Error::StdIoError(e)
    }
}

impl From<JsonFailure> for Error {
    fn from(e: JsonFailure) -> (r: Self) {
        Error::JsonError(e)
    }
}

impl vstd::std_specs::convert::FromSpecImpl<JsonFailure> for Error {
    open spec fn obeys_from_spec() -> bool {
        true
    }

    open spec fn from_spec(e: JsonFailure) -> Self {
        Error::JsonError(e)
    }
}

impl From<TransportFailure> for Error {
    fn from(e: TransportFailure) -> (r: Self) {
        Error::TonicError(e)
    }
}

impl vstd::std_specs::convert::FromSpecImpl<TransportFailure> for Error {
    open spec fn obeys_from_spec() -> bool {
        true
    }

    open spec fn from_spec(e: TransportFailure) -> Self {
        Error::TonicError(e)
    }
}

} // verus!

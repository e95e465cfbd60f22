//! Errors of the orchestrator.

use crate::errors::ClientError;
use crate::request::uuid_to_string;
use crate::text::join3;
use vstd::prelude::*;

verus! {

#[verifier::external_type_specification]
#[verifier::external_body]
pub struct ExJoinError(tokio::task::JoinError);

/// Orchestrator errors.
#[derive(Debug, PartialEq)]
pub enum OrchestratorError {
    Client(ClientError),
    DetectorNotFound(String),
    DetectorRequestFailed { request_id: u128, detector_id: String, error: ClientError },
    ChunkerRequestFailed { request_id: u128, chunker_id: String, error: ClientError },
    GenerateRequestFailed { request_id: u128, generation_model_id: String, error: ClientError },
    TokenizeRequestFailed { request_id: u128, generation_model_id: String, error: ClientError },
    Unhealthy { message: String },
    Other(String),
    Cancelled,
}

impl Clone for OrchestratorError {
    fn clone(&self) -> (copy: OrchestratorError)
        ensures
            copy == *self,
    {
        match self {
            OrchestratorError::Client(error) => OrchestratorError::Client(error.clone()),
            OrchestratorError::DetectorNotFound(id) => {
                OrchestratorError::DetectorNotFound(id.clone())
            },
            OrchestratorError::DetectorRequestFailed { request_id, detector_id, error } => {
                OrchestratorError::DetectorRequestFailed {
                    request_id: *request_id,
                    detector_id: detector_id.clone(),
                    error: error.clone(),
                }
            },
            OrchestratorError::ChunkerRequestFailed { request_id, chunker_id, error } => {
                OrchestratorError::ChunkerRequestFailed {
                    request_id: *request_id,
                    chunker_id: chunker_id.clone(),
                    error: error.clone(),
                }
            },
            OrchestratorError::GenerateRequestFailed { request_id, generation_model_id, error } => {
                OrchestratorError::GenerateRequestFailed {
                    request_id: *request_id,
                    generation_model_id: generation_model_id.clone(),
                    error: error.clone(),
                }
            },
            OrchestratorError::TokenizeRequestFailed { request_id, generation_model_id, error } => {
                OrchestratorError::TokenizeRequestFailed {
                    request_id: *request_id,
                    generation_model_id: generation_model_id.clone(),
                    error: error.clone(),
                }
            },
            OrchestratorError::Unhealthy { message } => OrchestratorError::Unhealthy {
                message: message.clone(),
            },
            OrchestratorError::Other(message) => OrchestratorError::Other(message.clone()),
            OrchestratorError::Cancelled => OrchestratorError::Cancelled,
        }
    }
}

/// The message of a request that failed: what was asked of whom, and why it failed.
pub open spec fn request_failed_text(
    what: Seq<char>,
    request_id: u128,
    whom: Seq<char>,
    id: Seq<char>,
    error: Seq<char>,
) -> Seq<char> {
    what + " request "@ + crate::request::uuid_text(request_id) + " failed for "@ + whom + " `"@
        + id + "`: "@ + error
}

/// The message of an error.
pub open spec fn orchestrator_error_text(error: OrchestratorError) -> Seq<char> {
    match error {
        OrchestratorError::Client(error) => error@.text(),
        OrchestratorError::DetectorNotFound(id) => "detector `"@ + id@ + "` not found"@,
        OrchestratorError::DetectorRequestFailed { request_id, detector_id, error } =>
            request_failed_text(
            "detector"@,
            request_id,
            "detector"@,
            detector_id@,
            error@.text(),
        ),
        OrchestratorError::ChunkerRequestFailed { request_id, chunker_id, error } =>
            request_failed_text("chunker"@, request_id, "chunker"@, chunker_id@, error@.text()),
        OrchestratorError::GenerateRequestFailed { request_id, generation_model_id, error } =>
            request_failed_text(
            "generate"@,
            request_id,
            "generation model"@,
            generation_model_id@,
            error@.text(),
        ),
        OrchestratorError::TokenizeRequestFailed { request_id, generation_model_id, error } =>
            request_failed_text(
            "tokenize"@,
            request_id,
            "generation model"@,
            generation_model_id@,
            error@.text(),
        ),
        OrchestratorError::Unhealthy { message } =>
            "orchestrator or configured clients are unhealthy: "@ + message@,
        OrchestratorError::Other(message) => message@,
        OrchestratorError::Cancelled => "cancelled"@,
    }
}

fn request_failed(what: &str, request_id: u128, whom: &str, id: &String, error: &ClientError)
    -> (text: String)
    ensures
        text@ == request_failed_text(what@, request_id, whom@, id@, error@.text()),
{
    let uuid: String = uuid_to_string(request_id);
    let text: String = join3(what, " request ", uuid.as_str());
    let text: String = join3(text.as_str(), " failed for ", whom);
    let text: String = join3(text.as_str(), " `", id.as_str());
    join3(text.as_str(), "`: ", error.to_text().as_str())
}

impl OrchestratorError {
    /// The message of the error.
    pub fn to_text(&self) -> (text: String)
        ensures
            text@ == orchestrator_error_text(*self),
    {
        match self {
            OrchestratorError::Client(error) => error.to_text(),
            OrchestratorError::DetectorNotFound(id) => join3(
                "detector `",
                id.as_str(),
                "` not found",
            ),
            OrchestratorError::DetectorRequestFailed { request_id, detector_id, error } => {
                request_failed("detector", *request_id, "detector", detector_id, error)
            },
            OrchestratorError::ChunkerRequestFailed { request_id, chunker_id, error } => {
                request_failed("chunker", *request_id, "chunker", chunker_id, error)
            },
            OrchestratorError::GenerateRequestFailed { request_id, generation_model_id, error } => {
                request_failed(
                    "generate",
                    *request_id,
                    "generation model",
                    generation_model_id,
                    error,
                )
            },
            OrchestratorError::TokenizeRequestFailed { request_id, generation_model_id, error } => {
                request_failed(
                    "tokenize",
                    *request_id,
                    "generation model",
                    generation_model_id,
                    error,
                )
            },
            OrchestratorError::Unhealthy { message } => {
                "orchestrator or configured clients are unhealthy: ".to_owned().concat(
                    message.as_str(),
                )
            },
            OrchestratorError::Other(message) => message.clone(),
            OrchestratorError::Cancelled => "cancelled".to_owned(),
        }
    }

    /// The error of a task that did not finish: it was cancelled, or it panicked with the
    /// given message.
    pub fn of_task(is_cancelled: bool, message: &str) -> (error: OrchestratorError)
        ensures
            is_cancelled ==> error is Cancelled,
            !is_cancelled ==> error is Other && orchestrator_error_text(error)
                == "task panicked: "@ + message@,
    {
        if is_cancelled {
            OrchestratorError::Cancelled
        } else {
            OrchestratorError::Other("task panicked: ".to_owned().concat(message))
        }
    }

    /// The error of a task that did not finish.
    pub fn from_join_error(error: &tokio::task::JoinError) -> (mapped: OrchestratorError)
        ensures
            is_join_report(*error, mapped),
    {
        let message: String = join_message(error);
        OrchestratorError::of_task(is_cancelled(error), message.as_str())
    }
}

/// `report` is what is said of a task that did not finish.
pub open spec fn is_join_report(
    error: tokio::task::JoinError,
    report: OrchestratorError,
) -> bool {
    if join_error_is_cancelled(error) {
        report is Cancelled
    } else {
        report is Other && orchestrator_error_text(report) == "task panicked: "@ + join_error_text(
            error,
        )
    }
}

impl From<tokio::task::JoinError> for OrchestratorError {
    fn from(error: tokio::task::JoinError) -> (mapped: OrchestratorError)
        ensures
            is_join_report(error, mapped),
    {
        OrchestratorError::from_join_error(&error)
    }
}

/// What `from` gives is stated of the text of the error, and not by a value.
impl vstd::std_specs::convert::FromSpecImpl<tokio::task::JoinError> for OrchestratorError {
    open spec fn obeys_from_spec() -> bool {
        false
    }

    open spec fn from_spec(error: tokio::task::JoinError) -> OrchestratorError {
        vstd::pervasive::arbitrary()
    }
}

impl From<ClientError> for OrchestratorError {
    fn from(error: ClientError) -> (mapped: OrchestratorError) {
        OrchestratorError::Client(error)
    }
}

impl vstd::std_specs::convert::FromSpecImpl<ClientError> for OrchestratorError {
    open spec fn obeys_from_spec() -> bool {
        true
    }

    open spec fn from_spec(error: ClientError) -> OrchestratorError {
        OrchestratorError::Client(error)
    }
}

/// What `tokio::task::JoinError::is_cancelled` gives.
pub uninterp spec fn join_error_is_cancelled(error: tokio::task::JoinError) -> bool;

/// What the `Display` rendering of a `tokio::task::JoinError` says.
pub uninterp spec fn join_error_text(error: tokio::task::JoinError) -> Seq<char>;

/// Calls `tokio::task::JoinError::is_cancelled`.
#[verifier::external_body]
fn is_cancelled(error: &tokio::task::JoinError) -> (cancelled: bool)
    ensures
        cancelled == join_error_is_cancelled(*error),
{
    error.is_cancelled()
}

/// `tokio::task::JoinError`'s `Display` rendering: the number of the task, and what it
/// panicked with, which is a function of the error alone.
#[verifier::external_body]
fn join_message(error: &tokio::task::JoinError) -> (text: String)
    ensures
        text@ == join_error_text(*error),
{
    error.to_string()
}

/// Whoever a request failed for, the message ends with the message of the client error.
pub proof fn failed_requests_tell_the_cause(
    what: Seq<char>,
    request_id: u128,
    whom: Seq<char>,
    id: Seq<char>,
    error: Seq<char>,
)
    ensures
        error.is_suffix_of(request_failed_text(what, request_id, whom, id, error)),
{
}

/// Every error tells what happened to whom: the ids and messages that it holds stand in its
/// text, in their places.
pub proof fn errors_tell_what_they_hold(error: OrchestratorError)
    ensures
        match error {
            OrchestratorError::Client(cause) => orchestrator_error_text(error) == cause@.text(),
            OrchestratorError::DetectorNotFound(id) => orchestrator_error_text(error)
                == "detector `"@ + id@ + "` not found"@,
            OrchestratorError::DetectorRequestFailed { request_id, detector_id, error: cause } =>
                orchestrator_error_text(error) == "detector"@ + " request "@
                + crate::request::uuid_text(request_id) + " failed for "@ + "detector"@ + " `"@
                + detector_id@ + "`: "@ + cause@.text(),
            OrchestratorError::ChunkerRequestFailed { request_id, chunker_id, error: cause } =>
                orchestrator_error_text(error) == "chunker"@ + " request "@
                + crate::request::uuid_text(request_id) + " failed for "@ + "chunker"@ + " `"@
                + chunker_id@ + "`: "@ + cause@.text(),
            OrchestratorError::GenerateRequestFailed {
                request_id,
                generation_model_id,
                error: cause,
            } => orchestrator_error_text(error) == "generate"@ + " request "@
                + crate::request::uuid_text(request_id) + " failed for "@ + "generation model"@
                + " `"@ + generation_model_id@ + "`: "@ + cause@.text(),
            OrchestratorError::TokenizeRequestFailed {
                request_id,
                generation_model_id,
                error: cause,
            } => orchestrator_error_text(error) == "tokenize"@ + " request "@
                + crate::request::uuid_text(request_id) + " failed for "@ + "generation model"@
                + " `"@ + generation_model_id@ + "`: "@ + cause@.text(),
            OrchestratorError::Unhealthy { message } => orchestrator_error_text(error)
                == "orchestrator or configured clients are unhealthy: "@ + message@,
            OrchestratorError::Other(message) => orchestrator_error_text(error) == message@,
            OrchestratorError::Cancelled => orchestrator_error_text(error) == "cancelled"@,
        },
{
}

/// A task that did not finish was cancelled exactly where the runtime says so; otherwise it
/// panicked, and what the runtime says of that comes last.
pub proof fn unfinished_tasks_are_told_apart(
    error: tokio::task::JoinError,
    report: OrchestratorError,
)
    requires
        is_join_report(error, report),
    ensures
        report is Cancelled <==> join_error_is_cancelled(error),
        !join_error_is_cancelled(error) ==> report is Other && orchestrator_error_text(report)
            == "task panicked: "@ + join_error_text(error),
{
}

} // verus!

//! Errors of client calls, and how the failures behind them are reported.

use crate::health::GrpcStatus;
use crate::status::{grpc_to_http_code, Code, StatusCode};
use vstd::prelude::*;

verus! {

#[verifier::external_type_specification]
#[verifier::external_body]
pub struct ExJsonError(serde_json::Error);

#[verifier::external_type_specification]
#[verifier::external_body]
pub struct ExHttpError(http::Error);

#[verifier::external_type_specification]
#[verifier::external_body]
pub struct ExTowerError(tower_reqwest::Error);

#[verifier::external_type_specification]
#[verifier::external_body]
pub struct ExReqwestError(reqwest::Error);

#[verifier::external_type_specification]
#[verifier::external_body]
pub struct ExGrpcStatus(tonic::Status);

/// Client errors.
#[derive(Debug, PartialEq)]
pub enum ClientError {
    Grpc { code: StatusCode, message: String },
    Http { code: StatusCode, message: String },
    ModelNotFound { model_id: String },
}

impl Clone for ClientError {
    fn clone(&self) -> (copy: ClientError)
        ensures
            copy == *self,
    {
        match self {
            ClientError::Grpc { code, message } => ClientError::Grpc {
                code: *code,
                message: message.clone(),
            },
            ClientError::Http { code, message } => ClientError::Http {
                code: *code,
                message: message.clone(),
            },
            ClientError::ModelNotFound { model_id } => ClientError::ModelNotFound {
                model_id: model_id.clone(),
            },
        }
    }
}

/// What a client error holds.
pub enum ClientErrorView {
    Grpc { code: u16, message: Seq<char> },
    Http { code: u16, message: Seq<char> },
    ModelNotFound { model_id: Seq<char> },
}

impl View for ClientError {
    type V = ClientErrorView;

    open spec fn view(&self) -> ClientErrorView {
        match self {
            ClientError::Grpc { code, message } => ClientErrorView::Grpc {
                code: code@,
                message: message@,
            },
            ClientError::Http { code, message } => ClientErrorView::Http {
                code: code@,
                message: message@,
            },
            ClientError::ModelNotFound { model_id } => ClientErrorView::ModelNotFound {
                model_id: model_id@,
            },
        }
    }
}

impl ClientErrorView {
    /// The status code of the error.
    pub open spec fn status_code(self) -> u16 {
        match self {
            ClientErrorView::Grpc { code, .. } => code,
            ClientErrorView::Http { code, .. } => code,
            ClientErrorView::ModelNotFound { .. } => 404,
        }
    }

    /// The message of the error.
    pub open spec fn text(self) -> Seq<char> {
        match self {
            ClientErrorView::Grpc { message, .. } => message,
            ClientErrorView::Http { message, .. } => message,
            ClientErrorView::ModelNotFound { model_id } => "model not found: "@ + model_id,
        }
    }
}

impl ClientError {
    /// Returns status code.
    pub fn status_code(&self) -> (code: StatusCode)
        ensures
            code@ == self@.status_code(),
    {
        match self {
            // Return equivalent http status code for grpc status code
            ClientError::Grpc { code, .. } => *code,
            // Return http status code for error responses
            // and 500 for other errors
            ClientError::Http { code, .. } => *code,
            // Return 404 for model not found
            ClientError::ModelNotFound { .. } => StatusCode::not_found(),
        }
    }

    /// The message of the error.
    pub fn to_text(&self) -> (text: String)
        ensures
            text@ == self@.text(),
    {
        match self {
            ClientError::Grpc { message, .. } => message.clone(),
            ClientError::Http { message, .. } => message.clone(),
            ClientError::ModelNotFound { model_id } => {
                "model not found: ".to_owned().concat(model_id.as_str())
            },
        }
    }

    /// An error that stems from JSON that could not be read or written. What is said of an
    /// I/O error is up to the platform, or to whatever was read from.
    pub fn from_json_error(error: &serde_json::Error) -> (mapped: ClientError)
        ensures
            is_json_report(*error, mapped@),
    {
        ClientError::from_failure(Failure::Json(json_error_debug(error)))
    }

    /// An error that stems from a request that could not be put together.
    pub fn from_http_error(error: &http::Error) -> (mapped: ClientError)
        ensures
            mapped@ == http_report(*error),
    {
        ClientError::from_failure(Failure::Request(http_error_debug(error)))
    }

    /// An error that stems from the HTTP client, or from a middleware of it. The message of
    /// a middleware's error is up to the middleware.
    pub fn from_tower_error(error: &tower_reqwest::Error) -> (mapped: ClientError)
        ensures
            is_tower_report(*error, mapped@),
    {
        ClientError::from_failure(tower_failure(error))
    }

    /// An error that stems from a request that was not answered as expected.
    pub fn from_reqwest_error(error: &reqwest::Error) -> (mapped: ClientError)
        ensures
            mapped@ == reqwest_report(*error),
    {
        ClientError::from_failure(
            Failure::Response {
                status: reqwest_status(error),
                message: reqwest_message(error),
            },
        )
    }

    /// An error that stems from a gRPC call.
    pub fn from_grpc_status(status: &tonic::Status) -> (mapped: ClientError)
        ensures
            mapped@ == grpc_report(*status),
    {
        ClientError::from_failure(Failure::Grpc(grpc_status(status)))
    }
}

/// `report` is what is said of JSON that could not be read or written.
pub open spec fn is_json_report(error: serde_json::Error, report: ClientErrorView) -> bool {
    &&& report is Http
    &&& report.status_code() == 400
    &&& "failed to deserialize body: "@.is_prefix_of(report.text())
    &&& exists|text: Seq<char>| #[trigger]
        crate::ambient::may_be_json_text(error, text) && report.text()
            == "failed to deserialize body: "@ + text
    &&& !json_error_is_io(error) ==> report.text() == "failed to deserialize body: "@
        + json_error_text(error)
}

/// How a request is reported that could not be put together.
pub open spec fn http_report(error: http::Error) -> ClientErrorView {
    ClientErrorView::Http {
        code: 400,
        message: "error processing request: "@ + http_error_text(error),
    }
}

/// `report` is what is said of a failure of the HTTP client, or of a middleware of it.
pub open spec fn is_tower_report(error: tower_reqwest::Error, report: ClientErrorView) -> bool {
    &&& tower_error_is_client(error) ==> report == (ClientErrorView::Http {
        code: if tower_error_is_timeout(error) || tower_error_is_connection(error) {
            408
        } else if tower_error_is_body(error) {
            400
        } else {
            500
        },
        message: tower_error_text(error),
    })
    &&& !tower_error_is_client(error) ==> report is Http && report.status_code() == 500
        && crate::ambient::may_be_middleware_text(error, report.text())
}

/// How a request is reported that was not answered as expected.
pub open spec fn reqwest_report(error: reqwest::Error) -> ClientErrorView {
    ClientErrorView::Http {
        code: match reqwest_error_status(error) {
            Some(code) => code,
            None => 500,
        },
        message: reqwest_error_text(error),
    }
}

/// How a gRPC status is reported.
pub open spec fn grpc_report(status: tonic::Status) -> ClientErrorView {
    ClientErrorView::Grpc {
        code: crate::status::http_code_of(
            crate::status::code_of_number(grpc_status_number(status)),
        ),
        message: grpc_status_message(status),
    }
}

impl From<serde_json::Error> for ClientError {
    fn from(error: serde_json::Error) -> (mapped: ClientError)
        ensures
            is_json_report(error, mapped@),
    {
        ClientError::from_json_error(&error)
    }
}

/// Errors hold text, which contracts speak of by its characters alone. So what `from` gives
/// is stated of the view of the error, and not by a value.
impl vstd::std_specs::convert::FromSpecImpl<serde_json::Error> for ClientError {
    open spec fn obeys_from_spec() -> bool {
        false
    }

    open spec fn from_spec(error: serde_json::Error) -> ClientError {
        vstd::pervasive::arbitrary()
    }
}

impl From<http::Error> for ClientError {
    fn from(error: http::Error) -> (mapped: ClientError)
        ensures
            mapped@ == http_report(error),
    {
        ClientError::from_http_error(&error)
    }
}

impl vstd::std_specs::convert::FromSpecImpl<http::Error> for ClientError {
    open spec fn obeys_from_spec() -> bool {
        false
    }

    open spec fn from_spec(error: http::Error) -> ClientError {
        vstd::pervasive::arbitrary()
    }
}

impl From<tower_reqwest::Error> for ClientError {
    fn from(error: tower_reqwest::Error) -> (mapped: ClientError)
        ensures
            is_tower_report(error, mapped@),
    {
        ClientError::from_tower_error(&error)
    }
}

impl vstd::std_specs::convert::FromSpecImpl<tower_reqwest::Error> for ClientError {
    open spec fn obeys_from_spec() -> bool {
        false
    }

    open spec fn from_spec(error: tower_reqwest::Error) -> ClientError {
        vstd::pervasive::arbitrary()
    }
}

impl From<reqwest::Error> for ClientError {
    fn from(error: reqwest::Error) -> (mapped: ClientError)
        ensures
            mapped@ == reqwest_report(error),
    {
        ClientError::from_reqwest_error(&error)
    }
}

impl vstd::std_specs::convert::FromSpecImpl<reqwest::Error> for ClientError {
    open spec fn obeys_from_spec() -> bool {
        false
    }

    open spec fn from_spec(error: reqwest::Error) -> ClientError {
        vstd::pervasive::arbitrary()
    }
}

impl From<tonic::Status> for ClientError {
    fn from(status: tonic::Status) -> (mapped: ClientError)
        ensures
            mapped@ == grpc_report(status),
    {
        ClientError::from_grpc_status(&status)
    }
}

impl vstd::std_specs::convert::FromSpecImpl<tonic::Status> for ClientError {
    open spec fn obeys_from_spec() -> bool {
        false
    }

    open spec fn from_spec(status: tonic::Status) -> ClientError {
        vstd::pervasive::arbitrary()
    }
}

/// What went wrong in a call to a client service.
#[derive(Debug)]
pub enum Failure {
    /// JSON could not be read or written.
    Json(String),
    /// A request could not be put together.
    Request(String),
    /// The body of a response could not be read.
    Read(String),
    /// The body of a response could not be decoded.
    Decode(String),
    /// The HTTP client failed.
    Client { message: String, is_timeout: bool, is_connection: bool, is_body: bool },
    /// A middleware of the HTTP client failed.
    Middleware(String),
    /// A request was not answered as expected.
    Response { status: Option<u16>, message: String },
    /// A gRPC call failed.
    Grpc(GrpcStatus),
}

/// How a failure is reported.
pub open spec fn failure_report(failure: Failure) -> ClientErrorView {
    match failure {
        Failure::Json(error) => ClientErrorView::Http {
            code: 400,
            message: "failed to deserialize body: "@ + error@,
        },
        Failure::Request(error) => ClientErrorView::Http {
            code: 400,
            message: "error processing request: "@ + error@,
        },
        Failure::Read(error) => ClientErrorView::Http {
            code: 500,
            message: "unable to read response bytes: "@ + error@,
        },
        Failure::Decode(error) => ClientErrorView::Http {
            code: 400,
            message: "failed to decode response body: "@ + error@,
        },
        Failure::Client { message, is_timeout, is_connection, is_body } => ClientErrorView::Http {
            code: if is_timeout || is_connection {
                408
            } else if is_body {
                400
            } else {
                500
            },
            message: message@,
        },
        Failure::Middleware(message) => ClientErrorView::Http { code: 500, message: message@ },
        Failure::Response { status, message } => ClientErrorView::Http {
            code: match status {
                Some(code) if crate::status::is_status_code(code as int) => code,
                _ => 500,
            },
            message: message@,
        },
        Failure::Grpc(status) => ClientErrorView::Grpc {
            code: crate::status::http_code_of(status.code),
            message: status.message@,
        },
    }
}

fn with_prefix(code: StatusCode, prefix: &str, error: &String) -> (mapped: ClientError)
    ensures
        mapped@ == (ClientErrorView::Http { code: code@, message: prefix@ + error@ }),
{
    ClientError::Http { code, message: prefix.to_owned().concat(error.as_str()) }
}

impl ClientError {
    /// Reports a failure.
    pub fn from_failure(failure: Failure) -> (mapped: ClientError)
        ensures
            mapped@ == failure_report(failure),
    {
        match failure {
            Failure::Json(error) => with_prefix(
                StatusCode::bad_request(),
                "failed to deserialize body: ",
                &error,
            ),
            Failure::Request(error) => with_prefix(
                StatusCode::bad_request(),
                "error processing request: ",
                &error,
            ),
            Failure::Read(error) => with_prefix(
                StatusCode::internal_server_error(),
                "unable to read response bytes: ",
                &error,
            ),
            Failure::Decode(error) => with_prefix(
                StatusCode::bad_request(),
                "failed to decode response body: ",
                &error,
            ),
            Failure::Client { message, is_timeout, is_connection, is_body } => {
                let code: StatusCode = if is_timeout || is_connection {
                    StatusCode::request_timeout()
                } else if is_body {
                    StatusCode::bad_request()
                } else {
                    StatusCode::internal_server_error()
                };
                ClientError::Http { code, message }
            },
            Failure::Middleware(message) => {
                ClientError::Http { code: StatusCode::internal_server_error(), message }
            },
            Failure::Response { status, message } => {
                let known: Option<StatusCode> = match status {
                    Some(code) => StatusCode::from_u16(code),
                    None => None,
                };
                let code: StatusCode = match known {
                    Some(code) => code,
                    None => StatusCode::internal_server_error(),
                };
                ClientError::Http { code, message }
            },
            Failure::Grpc(status) => ClientError::Grpc {
                code: grpc_to_http_code(status.code),
                message: status.message,
            },
        }
    }
}

/// What `serde_json::Error::is_io` gives.
pub uninterp spec fn json_error_is_io(error: serde_json::Error) -> bool;

/// What the `Debug` rendering of a `serde_json::Error` says, where it is no I/O error.
pub uninterp spec fn json_error_text(error: serde_json::Error) -> Seq<char>;

/// What the `Debug` rendering of an `http::Error` says.
pub uninterp spec fn http_error_text(error: http::Error) -> Seq<char>;

/// `true` for a `tower_reqwest::Error::Client`.
pub uninterp spec fn tower_error_is_client(error: tower_reqwest::Error) -> bool;

/// What the `Display` rendering of the error in a `tower_reqwest::Error::Client` says.
pub uninterp spec fn tower_error_text(error: tower_reqwest::Error) -> Seq<char>;

/// What `is_timeout` of the error in a `tower_reqwest::Error::Client` gives.
pub uninterp spec fn tower_error_is_timeout(error: tower_reqwest::Error) -> bool;

/// What `is_connection` of the error in a `tower_reqwest::Error::Client` gives.
pub uninterp spec fn tower_error_is_connection(error: tower_reqwest::Error) -> bool;

/// What `is_body` of the error in a `tower_reqwest::Error::Client` gives.
pub uninterp spec fn tower_error_is_body(error: tower_reqwest::Error) -> bool;

/// What `reqwest::Error::status` gives: the status code that the error is about.
pub uninterp spec fn reqwest_error_status(error: reqwest::Error) -> Option<u16>;

/// What the `Display` rendering of a `reqwest::Error` says.
pub uninterp spec fn reqwest_error_text(error: reqwest::Error) -> Seq<char>;

/// What `tonic::Status::code` gives, by its number.
pub uninterp spec fn grpc_status_number(status: tonic::Status) -> i32;

/// What `tonic::Status::message` gives.
pub uninterp spec fn grpc_status_message(status: tonic::Status) -> Seq<char>;

/// Calls `serde_json::Error::is_io`: `true` if the error comes from reading or writing.
#[verifier::external_body]
fn json_is_io(error: &serde_json::Error) -> (io: bool)
    ensures
        io == json_error_is_io(*error),
{
    error.is_io()
}

/// `true` if the error comes from reading or writing, and not from the JSON itself. The
/// text of any other error depends on that error alone.
pub fn is_io_error(error: &serde_json::Error) -> (io: bool)
    ensures
        io == json_error_is_io(*error),
{
    json_is_io(error)
}

/// `serde_json::Error`'s `Debug` rendering. It is a function of the error alone, unless
/// there is an I/O error inside: that is rendered by the platform, or by a type of its own,
/// and nothing is claimed of its text.
#[verifier::external_body]
fn json_error_debug(error: &serde_json::Error) -> (text: String)
    ensures
        !json_error_is_io(*error) ==> text@ == json_error_text(*error),
        crate::ambient::may_be_json_text(*error, text@),
{
    format!("{:?}", error)
}

/// Tells the variants of `tower_reqwest::Error` apart, with the `Display` rendering of the
/// error inside, and the flags of a client error, all of them functions of that error
/// alone. The error of a middleware may be of any type, and nothing is claimed of its text.
#[verifier::external_body]
fn tower_failure(error: &tower_reqwest::Error) -> (failure: Failure)
    ensures
        failure is Client <==> tower_error_is_client(*error),
        failure is Client || failure is Middleware,
        failure matches Failure::Middleware(message) ==> crate::ambient::may_be_middleware_text(
            *error,
            message@,
        ),
        failure matches Failure::Client { message, is_timeout, is_connection, is_body }
            ==> message@ == tower_error_text(*error) && is_timeout == tower_error_is_timeout(*error)
            && is_connection == tower_error_is_connection(*error) && is_body
            == tower_error_is_body(*error),
{
    match error {
        tower_reqwest::Error::Client(error) => Failure::Client {
            message: error.to_string(),
            is_timeout: error.is_timeout(),
            is_connection: error.is_connection(),
            is_body: error.is_body(),
        },
        tower_reqwest::Error::Middleware(error) => Failure::Middleware(error.to_string()),
    }
}

/// `http::Error`'s `Debug` rendering, which is a function of the error alone.
#[verifier::external_body]
fn http_error_debug(error: &http::Error) -> (text: String)
    ensures
        text@ == http_error_text(*error),
{
    format!("{:?}", error)
}

/// Calls `reqwest::Error::status`. A status, where there is one, is a status code.
#[verifier::external_body]
fn reqwest_status(error: &reqwest::Error) -> (status: Option<u16>)
    ensures
        status == reqwest_error_status(*error),
        status matches Some(code) ==> crate::status::is_status_code(code as int),
{
    error.status().map(|status| status.as_u16())
}

/// `reqwest::Error`'s `Display` rendering: what kind of error it is and the URL that it is
/// about, which is a function of the error alone.
#[verifier::external_body]
fn reqwest_message(error: &reqwest::Error) -> (text: String)
    ensures
        text@ == reqwest_error_text(*error),
{
    error.to_string()
}

/// Calls `tonic::Status::code`. The number of the code is one of the 17 of gRPC.
#[verifier::external_body]
fn grpc_number(status: &tonic::Status) -> (number: i32)
    ensures
        number == grpc_status_number(*status),
        0 <= number <= 16,
{
    status.code() as i32
}

/// Calls `tonic::Status::message`.
#[verifier::external_body]
fn grpc_message(status: &tonic::Status) -> (message: String)
    ensures
        message@ == grpc_status_message(*status),
{
    status.message().to_owned()
}

/// The code and message of a gRPC status.
pub(crate) fn grpc_status(status: &tonic::Status) -> (parts: GrpcStatus)
    ensures
        parts.code == crate::status::code_of_number(grpc_status_number(*status)),
        parts.message@ == grpc_status_message(*status),
{
    GrpcStatus { code: Code::from_i32(grpc_number(status)), message: grpc_message(status) }
}

/// No failure is reported as a success, unless the response or the gRPC status itself
/// claims to be one.
pub proof fn failures_are_reported_as_errors(failure: Failure)
    requires
        !(failure is Response && failure->status is Some),
        failure matches Failure::Grpc(status) ==> status.code != Code::Okay,
    ensures
        400 <= failure_report(failure).status_code() <= 599,
{
}

/// The error of a gRPC call keeps the message of its status, and its status code is the one
/// that stands for the code of that status.
pub proof fn grpc_errors_keep_code_and_message(status: tonic::Status, error: ClientError)
    requires
        error@ == grpc_report(status),
    ensures
        error is Grpc,
        error@.status_code() == crate::status::http_code_of(
            crate::status::code_of_number(grpc_status_number(status)),
        ),
        error@.text() == grpc_status_message(status),
{
}

/// The message of a failure always comes last in its report.
pub proof fn report_ends_with_the_cause(failure: Failure)
    ensures
        ({
            let cause = match failure {
                Failure::Json(m) => m@,
                Failure::Request(m) => m@,
                Failure::Read(m) => m@,
                Failure::Decode(m) => m@,
                Failure::Client { message, .. } => message@,
                Failure::Middleware(m) => m@,
                Failure::Response { message, .. } => message@,
                Failure::Grpc(status) => status.message@,
            };
            cause.is_suffix_of(failure_report(failure).text())
        }),
{
}

/// What is seen of a client error is what it holds.
pub proof fn errors_show_what_they_hold(error: ClientError)
    ensures
        match error {
            ClientError::Grpc { code, message } => error@ is Grpc && error@.status_code() == code@
                && error@.text() == message@,
            ClientError::Http { code, message } => error@ is Http && error@.status_code() == code@
                && error@.text() == message@,
            ClientError::ModelNotFound { model_id } => error@ is ModelNotFound
                && error@.status_code() == 404 && error@.text() == "model not found: "@ + model_id@,
        },
{
}

/// The fault of a client call is with the caller, or with the service, or with the time that
/// it took: which one decides on the status code, whatever the messages are.
pub proof fn failures_have_the_code_of_their_fault(failure: Failure)
    ensures
        match failure {
            Failure::Json(_) => failure_report(failure).status_code() == 400,
            Failure::Request(_) => failure_report(failure).status_code() == 400,
            Failure::Decode(_) => failure_report(failure).status_code() == 400,
            Failure::Read(_) => failure_report(failure).status_code() == 500,
            Failure::Middleware(_) => failure_report(failure).status_code() == 500,
            Failure::Client { is_timeout, is_connection, is_body, .. } => {
                let code = failure_report(failure).status_code();
                &&& code == 408 <==> is_timeout || is_connection
                &&& code == 400 <==> is_body && !is_timeout && !is_connection
                &&& code == 500 <==> !is_body && !is_timeout && !is_connection
            },
            Failure::Response { status, .. } => match status {
                Some(code) => (100 <= code <= 999 ==> failure_report(failure).status_code() == code)
                    && (!(100 <= code <= 999) ==> failure_report(failure).status_code() == 500),
                None => failure_report(failure).status_code() == 500,
            },
            Failure::Grpc(status) => failure_report(failure).status_code()
                == crate::status::http_code_of(status.code),
        },
        failure is Grpc <==> failure_report(failure) is Grpc,
        !(failure is Grpc) <==> failure_report(failure) is Http,
{
}

/// What is said before the cause of a failure depends on the kind of the failure alone, and
/// the cause follows unchanged.
pub proof fn failures_name_their_kind_before_the_cause(failure: Failure)
    ensures
        match failure {
            Failure::Json(cause) => failure_report(failure).text()
                == "failed to deserialize body: "@ + cause@,
            Failure::Request(cause) => failure_report(failure).text()
                == "error processing request: "@ + cause@,
            Failure::Read(cause) => failure_report(failure).text()
                == "unable to read response bytes: "@ + cause@,
            Failure::Decode(cause) => failure_report(failure).text()
                == "failed to decode response body: "@ + cause@,
            Failure::Client { message, .. } => failure_report(failure).text() == message@,
            Failure::Middleware(message) => failure_report(failure).text() == message@,
            Failure::Response { message, .. } => failure_report(failure).text() == message@,
            Failure::Grpc(status) => failure_report(failure).text() == status.message@,
        },
{
}

/// Errors of other libraries are reported as the failures that they are, with the texts that
/// those libraries give.
pub proof fn outside_errors_are_failures(
    text: String,
    json: serde_json::Error,
    http: http::Error,
    reqwest: reqwest::Error,
    grpc: tonic::Status,
    report: ClientErrorView,
)
    ensures
        !json_error_is_io(json) && text@ == json_error_text(json) && is_json_report(json, report)
            ==> report == failure_report(Failure::Json(text)),
        text@ == http_error_text(http) ==> http_report(http) == failure_report(
            Failure::Request(text),
        ),
        text@ == reqwest_error_text(reqwest) && (reqwest_error_status(reqwest) matches Some(code)
            ==> 100 <= code <= 999) ==> reqwest_report(reqwest) == failure_report(
            Failure::Response { status: reqwest_error_status(reqwest), message: text },
        ),
        text@ == grpc_status_message(grpc) ==> grpc_report(grpc) == failure_report(
            Failure::Grpc(
                GrpcStatus {
                    code: crate::status::code_of_number(grpc_status_number(grpc)),
                    message: text,
                },
            ),
        ),
{
}

/// JSON that could not be read or written is the fault of the caller, and is reported as
/// such even where nothing is known of the cause.
pub proof fn json_errors_are_bad_requests(error: serde_json::Error, report: ClientErrorView)
    requires
        is_json_report(error, report),
    ensures
        report is Http,
        report.status_code() == 400,
        "failed to deserialize body: "@.is_prefix_of(report.text()),
        exists|text: Seq<char>| #[trigger]
            crate::ambient::may_be_json_text(error, text) && report.text()
                == "failed to deserialize body: "@ + text,
{
}

/// A failure of the HTTP client is reported by its flags and its text; one of a middleware is
/// an internal error.
pub proof fn tower_errors_are_failures(
    error: tower_reqwest::Error,
    text: String,
    report: ClientErrorView,
)
    requires
        is_tower_report(error, report),
    ensures
        tower_error_is_client(error) && text@ == tower_error_text(error) ==> report
            == failure_report(
            Failure::Client {
                message: text,
                is_timeout: tower_error_is_timeout(error),
                is_connection: tower_error_is_connection(error),
                is_body: tower_error_is_body(error),
            },
        ),
        report is Http,
        !tower_error_is_client(error) ==> report.status_code() == 500
            && crate::ambient::may_be_middleware_text(error, report.text()),
{
}

} // verus!

//! Health of client services: what a health check says, and the latest results.

use crate::errors::grpc_status;
use crate::status::{grpc_to_http_code, Code, StatusCode};
use crate::text::{decimal_text, join3, same_text, to_json_literal};
use vstd::prelude::*;

verus! {

/// Health status determined for or returned by a client service.
#[derive(Debug, Clone, Copy, PartialEq, Eq, Structural)]
pub enum HealthStatus {
    /// The service status is healthy.
    Healthy,
    /// The service status is unhealthy.
    Unhealthy,
    /// The service status is unknown.
    Unknown,
}

/// The name of a health status in a message.
pub open spec fn health_status_name(status: HealthStatus) -> Seq<char> {
    match status {
        HealthStatus::Healthy => "HEALTHY"@,
        HealthStatus::Unhealthy => "UNHEALTHY"@,
        HealthStatus::Unknown => "UNKNOWN"@,
    }
}

/// The health status that an HTTP status code stands for.
pub open spec fn health_of_code(code: u16) -> HealthStatus {
    if 200 <= code <= 299 {
        HealthStatus::Healthy
    } else if 500 <= code <= 599 {
        HealthStatus::Unhealthy
    } else {
        HealthStatus::Unknown
    }
}

impl HealthStatus {
    /// The name of the status in a message.
    pub fn to_text(&self) -> (name: &'static str)
        ensures
            name@ == health_status_name(*self),
    {
        match self {
            HealthStatus::Healthy => "HEALTHY",
            HealthStatus::Unhealthy => "UNHEALTHY",
            HealthStatus::Unknown => "UNKNOWN",
        }
    }

    /// The status with the given name.
    pub fn from_name(name: &str) -> (status: Option<HealthStatus>)
        ensures
            forall|s: HealthStatus|
                #![trigger health_status_name(s)]
                status == Some(s) <==> name@ == health_status_name(s),
    {
        proof {
            health_status_names_are_distinct();
            assert(health_status_name(HealthStatus::Healthy) == "HEALTHY"@);
            assert(health_status_name(HealthStatus::Unhealthy) == "UNHEALTHY"@);
            assert(health_status_name(HealthStatus::Unknown) == "UNKNOWN"@);
        }
        if same_text(name, "HEALTHY") {
            Some(HealthStatus::Healthy)
        } else if same_text(name, "UNHEALTHY") {
            Some(HealthStatus::Unhealthy)
        } else if same_text(name, "UNKNOWN") {
            Some(HealthStatus::Unknown)
        } else {
            None
        }
    }

    /// The status of a service whose gRPC health check failed.
    pub fn on_grpc_error() -> (status: HealthStatus)
        ensures
            status == HealthStatus::Unknown,
    {
        HealthStatus::Unknown
    }
}

/// No two health statuses share a name.
pub proof fn health_status_names_are_distinct()
    ensures
        forall|a: HealthStatus, b: HealthStatus|
            #![trigger health_status_name(a), health_status_name(b)]
            health_status_name(a) == health_status_name(b) ==> a == b,
{
    reveal_strlit("HEALTHY");
    reveal_strlit("UNHEALTHY");
    reveal_strlit("UNKNOWN");
    assert("HEALTHY"@[0] != "UNKNOWN"@[0]);
    assert("HEALTHY"@.len() == 7);
    assert("UNHEALTHY"@.len() == 9);
    assert("UNKNOWN"@.len() == 7);
}

impl From<StatusCode> for HealthStatus {
    fn from(code: StatusCode) -> (status: HealthStatus) {
        let code: u16 = code.as_u16();
        if 200 <= code && code <= 299 {
            HealthStatus::Healthy
        } else if 500 <= code && code <= 599 {
            HealthStatus::Unhealthy
        } else {
            HealthStatus::Unknown
        }
    }
}

impl vstd::std_specs::convert::FromSpecImpl<StatusCode> for HealthStatus {
    open spec fn obeys_from_spec() -> bool {
        true
    }

    open spec fn from_spec(code: StatusCode) -> HealthStatus {
        health_of_code(code@)
    }
}

/// What a service says of itself over the gRPC health protocol.
#[derive(Debug, Clone, Copy, PartialEq, Eq, Structural)]
pub enum ServingStatus {
    Unknown,
    Serving,
    NotServing,
    ServiceUnknown,
}

impl ServingStatus {
    /// The number of the status on the wire.
    pub open spec fn number(self) -> int {
        match self {
            ServingStatus::Unknown => 0,
            ServingStatus::Serving => 1,
            ServingStatus::NotServing => 2,
            ServingStatus::ServiceUnknown => 3,
        }
    }

    /// The name of the status in the protocol.
    pub open spec fn name(self) -> Seq<char> {
        match self {
            ServingStatus::Unknown => "UNKNOWN"@,
            ServingStatus::Serving => "SERVING"@,
            ServingStatus::NotServing => "NOT_SERVING"@,
            ServingStatus::ServiceUnknown => "SERVICE_UNKNOWN"@,
        }
    }

    /// The health that the status stands for.
    pub open spec fn health(self) -> HealthStatus {
        match self {
            ServingStatus::Serving => HealthStatus::Healthy,
            ServingStatus::NotServing => HealthStatus::Unhealthy,
            ServingStatus::Unknown => HealthStatus::Unknown,
            ServingStatus::ServiceUnknown => HealthStatus::Unknown,
        }
    }

    /// The name of the status in the protocol.
    pub fn as_str_name(&self) -> (name: &'static str)
        ensures
            name@ == self.name(),
    {
        match self {
            ServingStatus::Unknown => "UNKNOWN",
            ServingStatus::Serving => "SERVING",
            ServingStatus::NotServing => "NOT_SERVING",
            ServingStatus::ServiceUnknown => "SERVICE_UNKNOWN",
        }
    }
}

/// The answer to a gRPC health check.
#[derive(Debug, Clone, Copy, PartialEq, Eq, Structural)]
pub struct HealthCheckResponse {
    /// The number of the serving status.
    pub status: i32,
}

/// The serving status with the given number; a number that names none is `Unknown`.
pub open spec fn serving_status_of(number: i32) -> ServingStatus {
    if number == 1 {
        ServingStatus::Serving
    } else if number == 2 {
        ServingStatus::NotServing
    } else if number == 3 {
        ServingStatus::ServiceUnknown
    } else {
        ServingStatus::Unknown
    }
}

/// The reason that a serving status gives for not being healthy.
pub open spec fn serving_reason(status: ServingStatus) -> Option<Seq<char>> {
    if status is Serving {
        None
    } else {
        Some(status.name())
    }
}

impl HealthCheckResponse {
    /// The serving status of the answer.
    pub fn status(&self) -> (status: ServingStatus)
        ensures
            status == serving_status_of(self.status),
    {
        match self.status {
            1 => ServingStatus::Serving,
            2 => ServingStatus::NotServing,
            3 => ServingStatus::ServiceUnknown,
            _ => ServingStatus::Unknown,
        }
    }

    /// Why the service is not serving; nothing if it is.
    pub fn reason(&self) -> (reason: Option<String>)
        ensures
            crate::text::opt_text(reason) == serving_reason(serving_status_of(self.status)),
    {
        let status: ServingStatus = self.status();
        match status {
            ServingStatus::Serving => None,
            _ => Some(status.as_str_name().to_owned()),
        }
    }
}

impl From<HealthCheckResponse> for HealthStatus {
    fn from(value: HealthCheckResponse) -> (status: HealthStatus) {
        match value.status() {
            ServingStatus::Serving => HealthStatus::Healthy,
            ServingStatus::NotServing => HealthStatus::Unhealthy,
            ServingStatus::Unknown => HealthStatus::Unknown,
            ServingStatus::ServiceUnknown => HealthStatus::Unknown,
        }
    }
}

impl vstd::std_specs::convert::FromSpecImpl<HealthCheckResponse> for HealthStatus {
    open spec fn obeys_from_spec() -> bool {
        true
    }

    open spec fn from_spec(value: HealthCheckResponse) -> HealthStatus {
        serving_status_of(value.status).health()
    }
}

/// A gRPC call that failed.
#[derive(Debug)]
pub struct GrpcStatus {
    pub code: Code,
    pub message: String,
}

/// Result of a health check request.
#[derive(Debug)]
pub struct HealthCheckResult {
    /// Overall health status of client service.
    pub status: HealthStatus,
    /// Response code of the latest health check request.
    pub code: StatusCode,
    /// Why the service is not healthy.
    pub reason: Option<String>,
}

/// What a health check result holds.
pub struct HealthCheckResultView {
    pub status: HealthStatus,
    pub code: u16,
    pub reason: Option<Seq<char>>,
}

impl View for HealthCheckResult {
    type V = HealthCheckResultView;

    open spec fn view(&self) -> HealthCheckResultView {
        HealthCheckResultView {
            status: self.status,
            code: self.code@,
            reason: crate::text::opt_text(self.reason),
        }
    }
}

impl Clone for HealthCheckResult {
    fn clone(&self) -> (copy: HealthCheckResult)
        ensures
            copy == *self,
    {
        HealthCheckResult {
            status: self.status,
            code: self.code,
            reason: match &self.reason {
                Some(reason) => Some(reason.clone()),
                None => None,
            },
        }
    }
}

/// What a gRPC health check says: the serving status of an answer, or why there is none.
pub open spec fn grpc_health(result: Result<HealthCheckResponse, GrpcStatus>)
    -> HealthCheckResultView {
    match result {
        Ok(response) => HealthCheckResultView {
            status: serving_status_of(response.status).health(),
            code: 200,
            reason: serving_reason(serving_status_of(response.status)),
        },
        Err(status) => HealthCheckResultView {
            status: HealthStatus::Unknown,
            code: crate::status::http_code_of(status.code),
            reason: Some(status.message@),
        },
    }
}

impl HealthCheckResult {
    /// What a gRPC health check says.
    pub fn from_grpc(result: Result<HealthCheckResponse, GrpcStatus>) -> (health: HealthCheckResult)
        ensures
            health@ == grpc_health(result),
    {
        match result {
            Ok(response) => HealthCheckResult {
                status: HealthStatus::from(response),
                code: StatusCode::ok(),
                reason: response.reason(),
            },
            Err(status) => HealthCheckResult {
                status: HealthStatus::on_grpc_error(),
                code: grpc_to_http_code(status.code),
                reason: Some(status.message),
            },
        }
    }

    /// What the outcome of a gRPC health call says.
    pub fn from_response(result: Result<HealthCheckResponse, tonic::Status>) -> (health:
        HealthCheckResult)
        ensures
            result matches Ok(response) ==> health@ == grpc_health(Ok(response)),
            result matches Err(status) ==> health@ == (HealthCheckResultView {
                status: HealthStatus::Unknown,
                code: crate::status::http_code_of(
                    crate::status::code_of_number(crate::errors::grpc_status_number(status)),
                ),
                reason: Some(crate::errors::grpc_status_message(status)),
            }),
    {
        match result {
            Ok(response) => HealthCheckResult::from_grpc(Ok(response)),
            Err(status) => HealthCheckResult::from_grpc(Err(grpc_status(&status))),
        }
    }

    /// The result in one line, followed by the reason on a line of its own.
    pub fn to_text(&self) -> (text: String)
        ensures
            text@ == self@.text(),
    {
        let head: String = join3(self.status.to_text(), " (", self.code.to_text().as_str());
        match &self.reason {
            Some(reason) => join3(head.as_str(), ")\n\t\t\t", reason.as_str()),
            None => head.concat(")"),
        }
    }

    /// The result as a JSON object. The code is left out of a success, and the reason
    /// where there is none.
    pub fn to_json(&self) -> (text: String)
        ensures
            text@ == self@.json(),
    {
        let text: String = join3("{\"status\":\"", self.status.to_text(), "\"");
        let text: String = if self.code.is_success() {
            text
        } else {
            let code: String = decimal_text(self.code.as_u16() as u128);
            join3(text.as_str(), ",\"code\":", code.as_str())
        };
        let text: String = match &self.reason {
            Some(reason) => {
                let literal: String = to_json_literal(reason.as_str());
                join3(text.as_str(), ",\"reason\":", literal.as_str())
            },
            None => text,
        };
        text.concat("}")
    }

    /// The result as a JSON object on several lines, indented by two more spaces.
    pub(crate) fn to_json_pretty(&self) -> (text: String)
        ensures
            text@ == self@.pretty(),
    {
        let text: String = join3("{\n    \"status\": \"", self.status.to_text(), "\"");
        let text: String = if self.code.is_success() {
            text
        } else {
            let code: String = decimal_text(self.code.as_u16() as u128);
            join3(text.as_str(), ",\n    \"code\": ", code.as_str())
        };
        let text: String = match &self.reason {
            Some(reason) => {
                let literal: String = to_json_literal(reason.as_str());
                join3(text.as_str(), ",\n    \"reason\": ", literal.as_str())
            },
            None => text,
        };
        text.concat("\n  }")
    }
}

impl HealthCheckResultView {
    /// The result in one line, followed by the reason on a line of its own.
    pub open spec fn text(self) -> Seq<char> {
        let head = health_status_name(self.status) + " ("@ + crate::status::status_line(
            self.code,
            crate::status::canonical_reason_of(self.code),
        );
        match self.reason {
            Some(reason) => head + ")\n\t\t\t"@ + reason,
            None => head + ")"@,
        }
    }

    /// The result as a JSON object.
    pub open spec fn json(self) -> Seq<char> {
        let status = "{\"status\":\""@ + health_status_name(self.status) + "\""@;
        let code = if 200 <= self.code <= 299 {
            status
        } else {
            status + ",\"code\":"@ + crate::text::decimal(self.code as nat)
        };
        let reason = match self.reason {
            Some(reason) => code + ",\"reason\":"@ + crate::text::json_literal(reason),
            None => code,
        };
        reason + "}"@
    }

    /// The result as a JSON object on several lines.
    pub open spec fn pretty(self) -> Seq<char> {
        let status = "{\n    \"status\": \""@ + health_status_name(self.status) + "\""@;
        let code = if 200 <= self.code <= 299 {
            status
        } else {
            status + ",\n    \"code\": "@ + crate::text::decimal(self.code as nat)
        };
        let reason = match self.reason {
            Some(reason) => code + ",\n    \"reason\": "@ + crate::text::json_literal(reason),
            None => code,
        };
        reason + "\n  }"@
    }
}

/// An optional response body that can be interpreted from an HTTP health check response.
/// This is a minimal contract that allows HTTP health requests to opt in to more detailed
/// health check responses than just the status code. If the body is omitted, the health
/// check response is considered successful if the status code is `HTTP 200 OK`.
#[derive(Debug)]
pub struct OptionalHealthCheckResponseBody {
    /// The health of the service, although `HEALTHY` is already implied without a body.
    pub status: HealthStatus,
    /// Optional reason for the status being `UNHEALTHY` or `UNKNOWN`.
    pub reason: Option<String>,
}

/// A gRPC service that answers is healthy exactly where it says that it is serving, and
/// then no reason is given.
pub proof fn grpc_answer_is_healthy_iff_serving(response: HealthCheckResponse)
    ensures
        grpc_health(Ok(response)).status is Healthy <==> response.status == 1,
        grpc_health(Ok(response)).reason is None <==> response.status == 1,
{
}

/// A failed gRPC health check never says that a service is healthy or unhealthy, only
/// that its health is unknown; the reason is the message of the failure.
pub proof fn failed_grpc_check_is_unknown(status: GrpcStatus)
    ensures
        grpc_health(Err(status)).status is Unknown,
        grpc_health(Err(status)).reason == Some(status.message@),
{
}

/// A code stands for health by its first digit alone.
pub proof fn health_follows_the_class_of_a_code(code: u16)
    ensures
        health_of_code(code) is Healthy <==> code / 100 == 2,
        health_of_code(code) is Unhealthy <==> code / 100 == 5,
        health_of_code(code) is Unknown <==> code / 100 != 2 && code / 100 != 5,
{
}

/// A serving status is read back from its number, and a number that none has is read as
/// `Unknown`.
pub proof fn serving_status_is_read_back(status: ServingStatus, number: i32)
    ensures
        0 <= status.number() <= 3,
        serving_status_of(status.number() as i32) == status,
        0 <= number <= 3 ==> serving_status_of(number).number() == number,
        !(0 <= number <= 3) ==> serving_status_of(number) is Unknown,
{
}

/// A service that answers a gRPC check is unhealthy exactly where it says that it is not
/// serving; the reason is then, and wherever its health is unknown, what it said. The code
/// is always that of a success.
pub proof fn grpc_answers_are_taken_at_their_word(response: HealthCheckResponse)
    ensures
        ({
            let health = grpc_health(Ok(response));
            &&& health.code == 200
            &&& health.status is Healthy <==> response.status == 1
            &&& health.status is Unhealthy <==> response.status == 2
            &&& response.status == 1 ==> health.reason is None
            &&& response.status == 2 ==> health.reason == Some("NOT_SERVING"@)
            &&& response.status == 3 ==> health.reason == Some("SERVICE_UNKNOWN"@)
            &&& !(1 <= response.status <= 3) ==> health.reason == Some("UNKNOWN"@)
        }),
{
}

/// A failed gRPC check has the HTTP code that stands for the code of the failure, and two
/// failures are reported alike where these and the messages agree.
pub proof fn failed_grpc_checks_keep_code_and_message(a: GrpcStatus, b: GrpcStatus)
    ensures
        grpc_health(Err(a)).code == crate::status::http_code_of(a.code),
        a.code == b.code && a.message@ == b.message@ ==> grpc_health(Err(a)) == grpc_health(Err(b)),
        grpc_health(Err(a)) == grpc_health(Err(b)) ==> a.message@ == b.message@,
{
}

/// What is seen of a health check result is what it holds.
pub proof fn results_show_what_they_hold(result: HealthCheckResult)
    ensures
        result@.status == result.status,
        result@.code == result.code@,
        result.reason is Some <==> result@.reason is Some,
        result.reason matches Some(reason) ==> result@.reason == Some(reason@),
{
}

/// Without a reason, the text of a result is its status with the status line in brackets; a
/// reason is added on a line of its own.
pub proof fn texts_add_the_reason_last(result: HealthCheckResultView, reason: Seq<char>)
    requires
        result.reason is None,
    ensures
        result.text() == health_status_name(result.status) + " ("@ + crate::status::status_line(
            result.code,
            crate::status::canonical_reason_of(result.code),
        ) + ")"@,
        (HealthCheckResultView { reason: Some(reason), ..result }).text() == result.text()
            + "\n\t\t\t"@ + reason,
{
    reveal_strlit(")");
    reveal_strlit("\n\t\t\t");
    reveal_strlit(")\n\t\t\t");
    assert((HealthCheckResultView { reason: Some(reason), ..result }).text() =~= result.text()
        + "\n\t\t\t"@ + reason);
}

/// The JSON of a result leaves the code out exactly where it is a success, and adds the
/// reason last, as a JSON string, where there is one.
pub proof fn json_adds_code_and_reason(result: HealthCheckResultView, reason: Seq<char>)
    requires
        result.reason is None,
    ensures
        ({
            let plain = (HealthCheckResultView { code: 200, ..result }).json();
            &&& plain == "{\"status\":\""@ + health_status_name(result.status) + "\"}"@
            &&& result.code / 100 == 2 ==> result.json() == plain
            &&& result.code / 100 != 2 ==> result.json() == plain.drop_last() + ",\"code\":"@
                + crate::text::decimal(result.code as nat) + "}"@
            &&& (HealthCheckResultView { reason: Some(reason), ..result }).json()
                == result.json().drop_last() + ",\"reason\":"@ + crate::text::json_literal(reason)
                + "}"@
        }),
{
    reveal_strlit("}");
    reveal_strlit("\"");
    reveal_strlit("\"}");
    let plain = (HealthCheckResultView { code: 200, ..result }).json();
    assert(plain =~= "{\"status\":\""@ + health_status_name(result.status) + "\"}"@);
    let open = "{\"status\":\""@ + health_status_name(result.status) + "\""@;
    assert(plain.drop_last() =~= open);
    if result.code / 100 != 2 {
        assert(result.json() =~= plain.drop_last() + ",\"code\":"@ + crate::text::decimal(
            result.code as nat,
        ) + "}"@);
        assert(result.json().drop_last() =~= open + ",\"code\":"@ + crate::text::decimal(
            result.code as nat,
        ));
    }
    assert((HealthCheckResultView { reason: Some(reason), ..result }).json()
        =~= result.json().drop_last() + ",\"reason\":"@ + crate::text::json_literal(reason) + "}"@);
}

/// The JSON on several lines says the same: the code where it is no success, and the reason
/// last.
pub proof fn pretty_json_adds_code_and_reason(result: HealthCheckResultView, reason: Seq<char>)
    requires
        result.reason is None,
    ensures
        ({
            let plain = (HealthCheckResultView { code: 200, ..result }).pretty();
            let open = "{\n    \"status\": \""@ + health_status_name(result.status) + "\""@;
            let coded = open + ",\n    \"code\": "@ + crate::text::decimal(result.code as nat);
            &&& plain == open + "\n  }"@
            &&& result.code / 100 == 2 ==> result.pretty() == plain
            &&& result.code / 100 != 2 ==> result.pretty() == coded + "\n  }"@
            &&& (HealthCheckResultView { reason: Some(reason), ..result }).pretty() == (
            if result.code / 100 == 2 {
                open
            } else {
                coded
            }) + ",\n    \"reason\": "@ + crate::text::json_literal(reason) + "\n  }"@
        }),
{
}

} // verus!

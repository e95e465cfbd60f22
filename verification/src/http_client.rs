//! The client of an HTTP service: where it is, and what its responses mean.

use crate::errors::{ClientError, Failure};
use crate::headers::empty_headers;
use crate::health::{HealthCheckResult, HealthStatus, OptionalHealthCheckResponseBody};
use crate::status::StatusCode;
use crate::text::{decimal_text, join3, to_debug};
use crate::trace_context::with_traceparent_header;
use crate::url::Url;
use vstd::prelude::*;

verus! {

/// The client of an HTTP service.
#[derive(Debug, Clone)]
pub struct HttpClient<C> {
    pub base_url: Url,
    pub health_url: Url,
    pub client: C,
}

/// A request that is ready to be sent.
#[derive(Debug)]
pub struct HttpRequest {
    pub method: String,
    pub url: Url,
    pub headers: http::HeaderMap,
    pub body: String,
}

/// A response to a health check: its status, and its body as far as it can be understood.
#[derive(Debug)]
pub struct HealthResponse {
    pub status: StatusCode,
    pub body: Option<OptionalHealthCheckResponseBody>,
}

/// `request` has the given method, URL, headers and body, or reports why the body could
/// not be written.
pub open spec fn is_prepared(
    method: Seq<char>,
    url: Url,
    headers: Map<Seq<char>, Seq<Seq<u8>>>,
    body: Result<String, Failure>,
    request: Result<HttpRequest, ClientError>,
) -> bool {
    match body {
        Ok(text) => request matches Ok(r) && r.method@ == method && r.url == url
            && crate::headers::header_values(r.headers) == headers && r.body == text,
        Err(failure) => request matches Err(error) && error@ == crate::errors::failure_report(
            failure,
        ),
    }
}

/// `request` is prepared with the headers, the injected ones in place of their own names,
/// one value each; there is such a request as long as there is room for the headers.
pub open spec fn is_prepared_in_trace(
    method: Seq<char>,
    url: Url,
    headers: Map<Seq<char>, Seq<Seq<u8>>>,
    injected: Map<Seq<char>, Seq<Seq<u8>>>,
    body: Result<String, Failure>,
    request: Option<Result<HttpRequest, ClientError>>,
) -> bool {
    &&& crate::ambient::may_be_injected(injected)
    &&& crate::headers::has_single_values(injected)
    &&& request matches Some(r) ==> is_prepared(
        method,
        url,
        headers.union_prefer_right(injected),
        body,
        r,
    )
    &&& crate::headers::has_room(headers.union_prefer_right(injected)) ==> request is Some
    &&& request is None ==> crate::ambient::is_refused(headers.union_prefer_right(injected))
}

/// A request in the current trace.
fn prepare_in_trace(
    method: &str,
    url: Url,
    headers: http::HeaderMap,
    body: Result<String, Failure>,
) -> (request: Option<Result<HttpRequest, ClientError>>)
    ensures
        exists|injected: Map<Seq<char>, Seq<Seq<u8>>>| #[trigger]
            is_prepared_in_trace(
                method@,
                url,
                crate::headers::header_values(headers),
                injected,
                body,
                request,
            ),
{
    let traced: Option<http::HeaderMap> = with_traceparent_header(headers);
    let ghost injected = choose|injected: Map<Seq<char>, Seq<Seq<u8>>>| #[trigger]
        crate::trace_context::is_traced(
            crate::headers::header_values(headers),
            injected,
            crate::trace_context::opt_headers(traced),
        );
    let request: Option<Result<HttpRequest, ClientError>> = match traced {
        Some(traced) => Some(HttpClient::<()>::prepare(method, url, traced, body)),
        None => None,
    };
    assert(is_prepared_in_trace(
        method@,
        url,
        crate::headers::header_values(headers),
        injected,
        body,
        request,
    ));
    request
}

/// What an HTTP health check says, where the status code has the given phrase.
pub open spec fn http_health(
    status: u16,
    body: Option<OptionalHealthCheckResponseBody>,
    phrase: Option<Seq<char>>,
) -> crate::health::HealthCheckResultView {
    if status == 200 {
        match body {
            Some(body) => crate::health::HealthCheckResultView {
                status: body.status,
                code: 200,
                reason: if body.status is Healthy {
                    None
                } else {
                    crate::text::opt_text(body.reason)
                },
            },
            None => crate::health::HealthCheckResultView {
                status: HealthStatus::Healthy,
                code: 200,
                reason: None,
            },
        }
    } else {
        crate::health::HealthCheckResultView {
            status: if 500 <= status < 600 {
                HealthStatus::Unhealthy
            } else {
                HealthStatus::Unknown
            },
            code: status,
            reason: phrase,
        }
    }
}

/// What an HTTP health check says that got no response.
pub open spec fn unanswered_health(
    error: crate::errors::ClientErrorView,
) -> crate::health::HealthCheckResultView {
    crate::health::HealthCheckResultView {
        status: HealthStatus::Unknown,
        code: error.status_code(),
        reason: Some(error.text()),
    }
}

/// What an HTTP health check says, where the status code has the given phrase.
pub fn health_of_response(response: HealthResponse, phrase: Option<String>) -> (health:
    HealthCheckResult)
    ensures
        health@ == http_health(response.status@, response.body, crate::text::opt_text(phrase)),
{
    let code: u16 = response.status.as_u16();
    if code == 200 {
        match response.body {
            Some(body) => HealthCheckResult {
                status: body.status,
                code: StatusCode::ok(),
                reason: match body.status {
                    HealthStatus::Healthy => None,
                    _ => body.reason,
                },
            },
            None => HealthCheckResult {
                status: HealthStatus::Healthy,
                code: StatusCode::ok(),
                reason: None,
            },
        }
    } else {
        // A 5xx code likely indicates an issue of the service. Any other code rather
        // indicates that the health check itself is at fault, so the health is unknown.
        HealthCheckResult {
            status: if code >= 500 && code < 600 {
                HealthStatus::Unhealthy
            } else {
                HealthStatus::Unknown
            },
            code: response.status,
            reason: phrase,
        }
    }
}

/// What is reported of a health check whose status code says nothing of the health: one
/// other than 200 that is no error.
pub fn unexpected_health_status(status: StatusCode) -> (complaint: Option<String>)
    ensures
        crate::text::opt_text(complaint) == (if status@ == 200 || 400 <= status@ < 600 {
            None
        } else {
            Some(
                "unexpected http health check status code: "@ + crate::status::status_line(
                    status@,
                    crate::status::canonical_reason_of(status@),
                ),
            )
        }),
{
    let code: u16 = status.as_u16();
    if code == 200 || (code >= 400 && code < 600) {
        None
    } else {
        Some("unexpected http health check status code: ".to_owned().concat(status.to_text().as_str()))
    }
}

/// The error that an unexpected response is reported as.
pub open spec fn response_error_report(
    status: u16,
    rendered_body: Seq<char>,
) -> crate::errors::ClientErrorView {
    crate::errors::ClientErrorView::Http {
        code: status,
        message: "client response "@ + crate::text::decimal(status as nat) + " - "@ + rendered_body,
    }
}

/// Reports an unexpected response, with its body as it is to be shown.
pub fn response_error(status: StatusCode, rendered_body: &str) -> (error: ClientError)
    ensures
        error@ == response_error_report(status@, rendered_body@),
{
    let number: String = decimal_text(status.as_u16() as u128);
    let head: String = join3("client response ", number.as_str(), " - ");
    ClientError::Http { code: status, message: head.concat(rendered_body) }
}

impl<C> HttpClient<C> {
    /// A client of the service at the given base URL. Its health is found at `health`,
    /// relative to that URL.
    pub fn new(base_url: Url, client: C) -> (http_client: HttpClient<C>)
        requires
            crate::url::joined_url(base_url@, "health"@) is Some,
        ensures
            http_client.base_url == base_url,
            Some(http_client.health_url@) == crate::url::joined_url(base_url@, "health"@),
            http_client.client == client,
    {
        let joined: Option<Url> = base_url.join("health");
        let health_url: Url = joined.unwrap();
        HttpClient { base_url, health_url, client }
    }

    /// A client of the service at the given base URL, if that URL has a place for its
    /// health.
    pub fn try_new(base_url: Url, client: C) -> (http_client: Option<HttpClient<C>>)
        ensures
            http_client is Some <==> crate::url::joined_url(base_url@, "health"@) is Some,
            http_client matches Some(c) ==> c.base_url == base_url && c.client == client && Some(
                c.health_url@,
            ) == crate::url::joined_url(base_url@, "health"@),
    {
        match base_url.join("health") {
            Some(_) => Some(HttpClient::new(base_url, client)),
            None => None,
        }
    }

    /// The base URL of the service.
    pub fn base_url(&self) -> (url: &Url)
        ensures
            *url == self.base_url,
    {
        &self.base_url
    }

    /// A request with the given headers and body, or the error that the body could not be
    /// written.
    pub fn prepare(
        method: &str,
        url: Url,
        headers: http::HeaderMap,
        body: Result<String, Failure>,
    ) -> (request: Result<HttpRequest, ClientError>)
        ensures
            is_prepared(method@, url, crate::headers::header_values(headers), body, request),
    {
        match body {
            Ok(body) => Ok(HttpRequest { method: method.to_owned(), url, headers, body }),
            Err(failure) => Err(ClientError::from_failure(failure)),
        }
    }

    /// A `GET` request with the given headers and body, in the current trace. The body is
    /// JSON, or why it could not be written. `None` if the map cannot hold the headers
    /// that carry the trace.
    pub fn get(&self, url: Url, headers: http::HeaderMap, body: Result<String, Failure>)
        -> (request: Option<Result<HttpRequest, ClientError>>)
        ensures
            exists|injected: Map<Seq<char>, Seq<Seq<u8>>>| #[trigger]
                is_prepared_in_trace(
                    "GET"@,
                    url,
                    crate::headers::header_values(headers),
                    injected,
                    body,
                    request,
                ),
    {
        prepare_in_trace("GET", url, headers, body)
    }

    /// A `POST` request with the given headers and body, in the current trace. The body
    /// is JSON, or why it could not be written. `None` if the map cannot hold the headers
    /// that carry the trace.
    pub fn post(&self, url: Url, headers: http::HeaderMap, body: Result<String, Failure>)
        -> (request: Option<Result<HttpRequest, ClientError>>)
        ensures
            exists|injected: Map<Seq<char>, Seq<Seq<u8>>>| #[trigger]
                is_prepared_in_trace(
                    "POST"@,
                    url,
                    crate::headers::header_values(headers),
                    injected,
                    body,
                    request,
                ),
    {
        prepare_in_trace("POST", url, headers, body)
    }

    /// The request that asks for the health of the service.
    pub fn health(&self) -> (request: HttpRequest)
        ensures
            request.method@ == "GET"@,
            request.url == self.health_url,
            crate::headers::header_values(request.headers) == crate::headers::no_values(),
            request.body@ == ""@,
    {
        HttpRequest {
            method: "GET".to_owned(),
            url: self.health_url.clone(),
            headers: empty_headers(),
            body: "".to_owned(),
        }
    }

    /// `true` if the body of a response with the given status is to be decoded; any
    /// other response is an error.
    pub fn is_expected(status: &StatusCode) -> (expected: bool)
        ensures
            expected == (status@ == 200),
    {
        status.as_u16() == 200
    }

    /// The outcome of a request whose response was expected: what was decoded from the
    /// body, or why that failed.
    pub fn from_expected_response<U>(body: Result<U, Failure>) -> (result: Result<U, ClientError>)
        ensures
            match body {
                Ok(value) => result == Ok::<U, ClientError>(value),
                Err(failure) => result matches Err(error) && error@
                    == crate::errors::failure_report(failure),
            },
    {
        match body {
            Ok(value) => Ok(value),
            Err(failure) => Err(ClientError::from_failure(failure)),
        }
    }

    /// The outcome of a request whose response was not expected: an error with the text
    /// of the body, or why that could not be read.
    pub fn from_unexpected_response(status: StatusCode, body: Result<String, Failure>) -> (error:
        ClientError)
        ensures
            error@ == (match body {
                Ok(text) => response_error_report(status@, crate::text::debug_rendering(text@)),
                Err(failure) => crate::errors::failure_report(failure),
            }),
    {
        match body {
            Ok(text) => {
                let rendered: String = to_debug(text.as_str());
                response_error(status, rendered.as_str())
            },
            Err(failure) => ClientError::from_failure(failure),
        }
    }

    /// What the outcome of a health check says.
    pub fn http_response_to_health_check_result(res: Result<HealthResponse, ClientError>)
        -> (health: HealthCheckResult)
        ensures
            health@ == (match res {
                Ok(response) => http_health(
                    response.status@,
                    response.body,
                    crate::status::canonical_reason_of(response.status@),
                ),
                Err(error) => unanswered_health(error@),
            }),
    {
        match res {
            Ok(response) => {
                let phrase: Option<String> = response.status.canonical_reason();
                health_of_response(response, phrase)
            },
            Err(error) => HealthCheckResult {
                status: HealthStatus::Unknown,
                code: error.status_code(),
                reason: Some(error.to_text()),
            },
        }
    }
}

/// The code of a health check result is the status of the response.
pub proof fn health_keeps_the_status_code(
    status: u16,
    body: Option<OptionalHealthCheckResponseBody>,
    phrase: Option<Seq<char>>,
)
    ensures
        http_health(status, body, phrase).code == status,
{
}

/// Without a body, the health follows from the status code alone for `200` and for every
/// code that is not a success.
pub proof fn health_without_body_follows_the_code(status: u16, phrase: Option<Seq<char>>)
    requires
        status == 200 || !(200 <= status <= 299),
    ensures
        http_health(status, None, phrase).status == crate::health::health_of_code(status),
{
}

/// A service is found healthy only by a response with status `200`, and then no reason
/// is given.
pub proof fn only_ok_responses_are_healthy(
    status: u16,
    body: Option<OptionalHealthCheckResponseBody>,
    phrase: Option<Seq<char>>,
)
    ensures
        http_health(status, body, phrase).status is Healthy ==> status == 200 && http_health(
            status,
            body,
            phrase,
        ).reason is None,
{
}

/// A service that does not answer is never found healthy or unhealthy.
pub proof fn unanswered_checks_are_unknown(error: crate::errors::ClientErrorView)
    ensures
        unanswered_health(error).status is Unknown,
        unanswered_health(error).reason is Some,
{
}

/// A response with another status than `200` is judged by that status alone: whatever bodies
/// two such responses have, they say the same.
pub proof fn bodies_count_with_ok_only(
    status: u16,
    a: Option<OptionalHealthCheckResponseBody>,
    b: Option<OptionalHealthCheckResponseBody>,
    phrase: Option<Seq<char>>,
)
    requires
        status != 200,
    ensures
        http_health(status, a, phrase) == http_health(status, b, phrase),
{
}

/// Whatever the body is, a service is unhealthy if it answers with a code from 500 to 599,
/// and its health is unknown if it answers with any other code but `200`. The reason is the
/// phrase of the code.
pub proof fn errors_are_judged_by_their_class(
    status: u16,
    body: Option<OptionalHealthCheckResponseBody>,
    phrase: Option<Seq<char>>,
)
    requires
        status != 200,
    ensures
        status / 100 == 5 <==> http_health(status, body, phrase).status is Unhealthy,
        status / 100 != 5 <==> http_health(status, body, phrase).status is Unknown,
        http_health(status, body, phrase).reason == phrase,
        http_health(status, body, phrase).code == status,
{
}

/// With `200`, the service is taken at its word: what its body says is its health, with the
/// reason that the body gives unless it is healthy. Saying nothing means to be healthy. The
/// phrase of the code plays no part.
pub proof fn ok_responses_are_taken_at_their_word(
    body: OptionalHealthCheckResponseBody,
    a: Option<Seq<char>>,
    b: Option<Seq<char>>,
)
    ensures
        http_health(200, Some(body), a).status == body.status,
        body.status is Healthy ==> http_health(200, Some(body), a).reason is None,
        !(body.status is Healthy) ==> (match body.reason {
            Some(reason) => http_health(200, Some(body), a).reason == Some(reason@),
            None => http_health(200, Some(body), a).reason is None,
        }),
        http_health(200, None, a).status is Healthy,
        http_health(200, None, a).reason is None,
        http_health(200, Some(body), a) == http_health(200, Some(body), b),
        http_health(200, None, a) == http_health(200, None, b),
{
}

/// Saying nothing and saying to be healthy come to the same.
pub proof fn silence_means_health(
    status: u16,
    body: OptionalHealthCheckResponseBody,
    phrase: Option<Seq<char>>,
)
    requires
        body.status is Healthy,
    ensures
        http_health(status, Some(body), phrase) == http_health(status, None, phrase),
{
}

/// A check that got no response reports the error: its status code and its message.
pub proof fn unanswered_checks_report_the_error(error: ClientError)
    ensures
        unanswered_health(error@).code == error@.status_code(),
        unanswered_health(error@).reason == Some(error@.text()),
{
}

/// The error of an unexpected response has the status code of that response, and names it
/// before the body, which comes last and unchanged.
pub proof fn response_errors_keep_the_status(status: u16, body: Seq<char>)
    ensures
        response_error_report(status, body).status_code() == status,
        response_error_report(status, body) is Http,
        response_error_report(status, body).text() == response_error_report(
            status,
            Seq::empty(),
        ).text() + body,
        response_error_report(status, Seq::empty()).text() == "client response "@
            + crate::text::decimal(status as nat) + " - "@,
{
    assert(response_error_report(status, Seq::empty()).text() =~= "client response "@
        + crate::text::decimal(status as nat) + " - "@);
    assert(response_error_report(status, body).text() =~= response_error_report(
        status,
        Seq::empty(),
    ).text() + body);
}

/// Two unexpected responses are reported alike only if they have the same status and the
/// same body.
pub proof fn response_errors_are_told_apart(a: u16, b: u16, x: Seq<char>, y: Seq<char>)
    requires
        response_error_report(a, x) == response_error_report(b, y),
    ensures
        a == b,
        x == y,
{
    let head = response_error_report(a, Seq::empty()).text();
    response_errors_keep_the_status(a, x);
    response_errors_keep_the_status(b, y);
    assert(x =~= (head + x).skip(head.len() as int));
    assert(y =~= (head + y).skip(head.len() as int));
}

/// A request that is ready has the method, the URL and the body that it was given, and its
/// headers hold exactly what was given; one whose body could not be written reports that.
pub proof fn requests_are_sent_as_given(
    method: Seq<char>,
    url: Url,
    headers: Map<Seq<char>, Seq<Seq<u8>>>,
    body: Result<String, Failure>,
    request: Result<HttpRequest, ClientError>,
    name: Seq<char>,
)
    requires
        is_prepared(method, url, headers, body, request),
    ensures
        request is Ok <==> body is Ok,
        request matches Ok(r) ==> {
            &&& r.method@ == method
            &&& r.url@ == url@
            &&& r.body@ == (body->Ok_0)@
            &&& crate::headers::all_values(crate::headers::header_values(r.headers), name)
                == crate::headers::all_values(headers, name)
        },
        request matches Err(error) ==> error@ == crate::errors::failure_report(body->Err_0),
{
}

/// A request in the current trace carries every header that was injected for the current
/// span, with its one value, in place of whatever the caller gave; every header that was not
/// injected goes out as it was given, and no other goes out.
pub proof fn requests_carry_the_current_context(
    method: Seq<char>,
    url: Url,
    headers: Map<Seq<char>, Seq<Seq<u8>>>,
    injected: Map<Seq<char>, Seq<Seq<u8>>>,
    body: Result<String, Failure>,
    request: HttpRequest,
    name: Seq<char>,
)
    requires
        is_prepared_in_trace(method, url, headers, injected, body, Some(Ok(request))),
    ensures
        crate::ambient::may_be_injected(injected),
        request.method@ == method,
        request.url@ == url@,
        body matches Ok(text) && request.body@ == text@,
        ({
            let sent = crate::headers::header_values(request.headers);
            &&& injected.contains_key(name) ==> sent.contains_key(name) && sent[name]
                == injected[name] && sent[name].len() == 1
            &&& !injected.contains_key(name) ==> crate::headers::all_values(sent, name)
                == crate::headers::all_values(headers, name)
            &&& sent.contains_key(name) <==> headers.contains_key(name) || injected.contains_key(
                name,
            )
        }),
{
    crate::ambient::injected_headers_have_single_values(injected);
}

/// There is a request unless a map refuses the headers, and it reports a failure exactly where
/// the body could not be written.
pub proof fn requests_are_made_where_there_is_room(
    method: Seq<char>,
    url: Url,
    headers: Map<Seq<char>, Seq<Seq<u8>>>,
    injected: Map<Seq<char>, Seq<Seq<u8>>>,
    body: Result<String, Failure>,
    request: Option<Result<HttpRequest, ClientError>>,
)
    requires
        is_prepared_in_trace(method, url, headers, injected, body, request),
    ensures
        headers.union_prefer_right(injected).dom().finite() && headers.union_prefer_right(
            injected,
        ).dom().len() < 6000 ==> request is Some,
        request is None ==> crate::ambient::is_refused(headers.union_prefer_right(injected)),
        request matches Some(r) ==> (r is Ok <==> body is Ok),
{
}

} // verus!

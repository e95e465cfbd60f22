use orchestrator_client::errors::ClientError;
use orchestrator_client::health::{
    GrpcStatus, HealthCheckResponse, HealthCheckResult, HealthStatus,
    OptionalHealthCheckResponseBody, ServingStatus,
};
use orchestrator_client::health_cache::HealthCheckCache;
use orchestrator_client::http_client::{
    health_of_response, unexpected_health_status, HealthResponse, HttpClient,
};
use orchestrator_client::nlp::NlpClient;
use orchestrator_client::status::{grpc_to_http_code, Code, StatusCode};

/// The body of a health check response, as far as it can be understood.
fn read_body(text: &str) -> Option<OptionalHealthCheckResponseBody> {
    let value: serde_json::Value = serde_json::from_str(text).ok()?;
    let status = HealthStatus::from_name(value.get("status")?.as_str()?)?;
    let reason = match value.get("reason") {
        None => None,
        Some(reason) if reason.is_null() => None,
        Some(reason) => Some(reason.as_str()?.to_string()),
    };
    Some(OptionalHealthCheckResponseBody { status, reason })
}

fn mock_http_response(status: StatusCode, body: &str) -> Result<HealthResponse, ClientError> {
    Ok(HealthResponse { status, body: read_body(body) })
}

fn check(response: Result<HealthResponse, ClientError>) -> HealthCheckResult {
    HttpClient::<()>::http_response_to_health_check_result(response)
}

#[test]
fn test_http_health_check_responses() {
    // READY responses from HTTP 200 OK with or without reason
    let response = [
        (StatusCode::ok(), r#"{}"#),
        (StatusCode::ok(), r#"{ "status": "HEALTHY" }"#),
        (StatusCode::ok(), r#"{ "status": "meaningless status" }"#),
        (StatusCode::ok(), r#"{ "status": "HEALTHY", "reason": "needless reason" }"#),
    ];
    for (status, body) in response.iter() {
        let response = mock_http_response(*status, body);
        let result = check(response);
        assert_eq!(result.status, HealthStatus::Healthy);
        assert_eq!(result.code, StatusCode::ok());
        assert_eq!(result.reason, None);
        let serialized = result.to_json();
        assert_eq!(serialized, r#"{"status":"HEALTHY"}"#);
    }

    // NOT_READY response from HTTP 200 OK without reason
    let response = mock_http_response(StatusCode::ok(), r#"{ "status": "UNHEALTHY" }"#);
    let result = check(response);
    assert_eq!(result.status, HealthStatus::Unhealthy);
    assert_eq!(result.code, StatusCode::ok());
    assert_eq!(result.reason, None);
    let serialized = result.to_json();
    assert_eq!(serialized, r#"{"status":"UNHEALTHY"}"#);

    // UNKNOWN response from HTTP 200 OK without reason
    let response = mock_http_response(StatusCode::ok(), r#"{ "status": "UNKNOWN" }"#);
    let result = check(response);
    assert_eq!(result.status, HealthStatus::Unknown);
    assert_eq!(result.code, StatusCode::ok());
    assert_eq!(result.reason, None);
    let serialized = result.to_json();
    assert_eq!(serialized, r#"{"status":"UNKNOWN"}"#);

    // NOT_READY response from HTTP 200 OK with reason
    let response = mock_http_response(
        StatusCode::ok(),
        r#"{"status": "UNHEALTHY", "reason": "some reason" }"#,
    );
    let result = check(response);
    assert_eq!(result.status, HealthStatus::Unhealthy);
    assert_eq!(result.code, StatusCode::ok());
    assert_eq!(result.reason, Some("some reason".to_string()));
    let serialized = result.to_json();
    assert_eq!(serialized, r#"{"status":"UNHEALTHY","reason":"some reason"}"#);

    // UNKNOWN response from HTTP 200 OK with reason
    let response = mock_http_response(
        StatusCode::ok(),
        r#"{ "status": "UNKNOWN", "reason": "some reason" }"#,
    );
    let result = check(response);
    assert_eq!(result.status, HealthStatus::Unknown);
    assert_eq!(result.code, StatusCode::ok());
    assert_eq!(result.reason, Some("some reason".to_string()));
    let serialized = result.to_json();
    assert_eq!(serialized, r#"{"status":"UNKNOWN","reason":"some reason"}"#);

    // NOT_READY response from HTTP 503 SERVICE UNAVAILABLE with reason
    let response = mock_http_response(
        StatusCode::service_unavailable(),
        r#"{ "message": "some error message" }"#,
    );
    let result = check(response);
    assert_eq!(result.status, HealthStatus::Unhealthy);
    assert_eq!(result.code, StatusCode::service_unavailable());
    assert_eq!(result.reason, Some("Service Unavailable".to_string()));
    let serialized = result.to_json();
    assert_eq!(
        serialized,
        r#"{"status":"UNHEALTHY","code":503,"reason":"Service Unavailable"}"#
    );

    // UNKNOWN response from HTTP 404 NOT FOUND with reason
    let response =
        mock_http_response(StatusCode::not_found(), r#"{ "message": "service not found" }"#);
    let result = check(response);
    assert_eq!(result.status, HealthStatus::Unknown);
    assert_eq!(result.code, StatusCode::not_found());
    assert_eq!(result.reason, Some("Not Found".to_string()));
    let serialized = result.to_json();
    assert_eq!(serialized, r#"{"status":"UNKNOWN","code":404,"reason":"Not Found"}"#);

    // NOT_READY response from HTTP 500 INTERNAL SERVER ERROR without reason
    let response = mock_http_response(StatusCode::internal_server_error(), r#""#);
    let result = check(response);
    assert_eq!(result.status, HealthStatus::Unhealthy);
    assert_eq!(result.code, StatusCode::internal_server_error());
    assert_eq!(result.reason, Some("Internal Server Error".to_string()));
    let serialized = result.to_json();
    assert_eq!(
        serialized,
        r#"{"status":"UNHEALTHY","code":500,"reason":"Internal Server Error"}"#
    );

    // UNKNOWN response from HTTP 400 BAD REQUEST without reason
    let response = mock_http_response(StatusCode::bad_request(), r#""#);
    let result = check(response);
    assert_eq!(result.status, HealthStatus::Unknown);
    assert_eq!(result.code, StatusCode::bad_request());
    assert_eq!(result.reason, Some("Bad Request".to_string()));
    let serialized = result.to_json();
    assert_eq!(serialized, r#"{"status":"UNKNOWN","code":400,"reason":"Bad Request"}"#);
}

fn mock_grpc_response(
    health_status: Option<i32>,
    status: Option<tonic::Status>,
) -> Result<HealthCheckResponse, tonic::Status> {
    match health_status {
        Some(health_status) => Ok(HealthCheckResponse { status: health_status }),
        None => {
            Err(status.expect("status must be provided for test if health_status is None"))
        }
    }
}

#[test]
fn test_grpc_health_check_responses() {
    // READY responses from gRPC 0 OK from serving status 1 SERVING
    let response = mock_grpc_response(Some(1), None);
    let result = HealthCheckResult::from_response(response);
    assert_eq!(result.status, HealthStatus::Healthy);
    assert_eq!(result.code, grpc_to_http_code(Code::Okay));
    assert_eq!(result.reason, None);
    let serialized = result.to_json();
    assert_eq!(serialized, r#"{"status":"HEALTHY"}"#);

    // NOT_READY response from gRPC 0 OK form serving status 2 NOT_SERVING
    let response = mock_grpc_response(Some(2), None);
    let result = HealthCheckResult::from_response(response);
    assert_eq!(result.status, HealthStatus::Unhealthy);
    assert_eq!(result.code, grpc_to_http_code(Code::Okay));
    assert_eq!(result.reason, Some("NOT_SERVING".to_string()));
    let serialized = result.to_json();
    assert_eq!(serialized, r#"{"status":"UNHEALTHY","reason":"NOT_SERVING"}"#);

    // UNKNOWN response from gRPC 0 OK from serving status 0 UNKNOWN
    let response = mock_grpc_response(Some(0), None);
    let result = HealthCheckResult::from_response(response);
    assert_eq!(result.status, HealthStatus::Unknown);
    assert_eq!(result.code, grpc_to_http_code(Code::Okay));
    assert_eq!(result.reason, Some("UNKNOWN".to_string()));
    let serialized = result.to_json();
    assert_eq!(serialized, r#"{"status":"UNKNOWN","reason":"UNKNOWN"}"#);

    // UNKNOWN response from gRPC 0 OK from serving status 3 SERVICE_UNKNOWN
    let response = mock_grpc_response(Some(3), None);
    let result = HealthCheckResult::from_response(response);
    assert_eq!(result.status, HealthStatus::Unknown);
    assert_eq!(result.code, grpc_to_http_code(Code::Okay));
    assert_eq!(result.reason, Some("SERVICE_UNKNOWN".to_string()));
    let serialized = result.to_json();
    assert_eq!(serialized, r#"{"status":"UNKNOWN","reason":"SERVICE_UNKNOWN"}"#);

    // UNKNOWN response from other gRPC error codes (covering main ones)
    let codes = [
        tonic::Code::InvalidArgument,
        tonic::Code::Internal,
        tonic::Code::NotFound,
        tonic::Code::Unimplemented,
        tonic::Code::Unauthenticated,
        tonic::Code::PermissionDenied,
        tonic::Code::Unavailable,
    ];
    for code in codes.into_iter() {
        let status = tonic::Status::new(code, "some error message");
        let code = grpc_to_http_code(Code::from_i32(code as i32));
        let response = mock_grpc_response(None, Some(status));
        let result = HealthCheckResult::from_response(response);
        assert_eq!(result.status, HealthStatus::Unknown);
        assert_eq!(result.code, code);
        assert_eq!(result.reason, Some("some error message".to_string()));
        let serialized = result.to_json();
        assert_eq!(
            serialized,
            format!(
                r#"{{"status":"UNKNOWN","code":{},"reason":"some error message"}}"#,
                code.as_u16()
            ),
        );
    }
}

#[test]
fn grpc_calls_are_read_by_their_outcome() {
    let result = HealthCheckResult::from_response(Ok(HealthCheckResponse { status: 2 }));
    assert_eq!(result.to_json(), r#"{"status":"UNHEALTHY","reason":"NOT_SERVING"}"#);
    let failed = tonic::Status::new(tonic::Code::Unavailable, "no route");
    let result = HealthCheckResult::from_response(Err(failed));
    assert_eq!(result.to_json(), r#"{"status":"UNKNOWN","code":503,"reason":"no route"}"#);
}

#[test]
fn unknown_serving_status_numbers_are_unknown() {
    for number in [-1, 4, 100] {
        let response = HealthCheckResponse { status: number };
        assert_eq!(response.status(), ServingStatus::Unknown);
        assert_eq!(response.reason(), Some("UNKNOWN".to_string()));
        assert_eq!(HealthStatus::from(response), HealthStatus::Unknown);
    }
    assert_eq!(HealthCheckResponse { status: 1 }.reason(), None);
}

#[test]
fn health_status_follows_status_code() {
    let cases = [
        (200, HealthStatus::Healthy),
        (299, HealthStatus::Healthy),
        (300, HealthStatus::Unknown),
        (404, HealthStatus::Unknown),
        (499, HealthStatus::Unknown),
        (500, HealthStatus::Unhealthy),
        (599, HealthStatus::Unhealthy),
        (600, HealthStatus::Unknown),
        (100, HealthStatus::Unknown),
    ];
    for (code, status) in cases {
        assert_eq!(HealthStatus::from(StatusCode::from_u16(code).unwrap()), status);
    }
}

#[test]
fn health_status_names_round_trip() {
    for status in [HealthStatus::Healthy, HealthStatus::Unhealthy, HealthStatus::Unknown] {
        assert_eq!(HealthStatus::from_name(status.to_text()), Some(status));
    }
    assert_eq!(HealthStatus::from_name("healthy"), None);
    assert_eq!(HealthStatus::from_name(""), None);
}

#[test]
fn unanswered_health_check_is_unknown() {
    let error = ClientError::Http {
        code: StatusCode::request_timeout(),
        message: "timed out".to_string(),
    };
    let result = check(Err(error));
    assert_eq!(result.to_json(), r#"{"status":"UNKNOWN","code":408,"reason":"timed out"}"#);
    let result = check(Err(ClientError::ModelNotFound { model_id: "m".to_string() }));
    assert_eq!(
        result.to_json(),
        r#"{"status":"UNKNOWN","code":404,"reason":"model not found: m"}"#
    );
}

#[test]
fn other_codes_without_a_phrase_have_no_reason() {
    let response = HealthResponse { status: StatusCode::from_u16(299).unwrap(), body: None };
    let result = health_of_response(response, None);
    assert_eq!(result.status, HealthStatus::Unknown);
    assert_eq!(result.code.as_u16(), 299);
    assert_eq!(result.reason, None);
}

#[test]
fn health_check_results_are_rendered_as_text() {
    let healthy = HealthCheckResult {
        status: HealthStatus::Healthy,
        code: StatusCode::ok(),
        reason: None,
    };
    assert_eq!(healthy.to_text(), "HEALTHY (200 OK)");
    let unknown = HealthCheckResult {
        status: HealthStatus::Unknown,
        code: StatusCode::not_found(),
        reason: Some("gone".to_string()),
    };
    assert_eq!(unknown.to_text(), "UNKNOWN (404 Not Found)\n\t\t\tgone");
}

#[test]
fn reasons_are_escaped_in_json() {
    let result = HealthCheckResult {
        status: HealthStatus::Unknown,
        code: StatusCode::ok(),
        reason: Some("a \"b\"\n".to_string()),
    };
    assert_eq!(result.to_json(), r#"{"status":"UNKNOWN","reason":"a \"b\"\n"}"#);
}

#[test]
fn every_character_has_its_escape() {
    for code in (0..0x300).chain([0x2028, 0xfffd, 0x1f600]) {
        let c = char::from_u32(code).unwrap();
        let escaped = match c {
            '"' => "\\\"".to_string(),
            '\\' => "\\\\".to_string(),
            '\n' => "\\n".to_string(),
            '\r' => "\\r".to_string(),
            '\t' => "\\t".to_string(),
            '\u{8}' => "\\b".to_string(),
            '\u{c}' => "\\f".to_string(),
            _ if code < 32 => format!("\\u{:04x}", code),
            _ => c.to_string(),
        };
        let result = HealthCheckResult {
            status: HealthStatus::Unknown,
            code: StatusCode::ok(),
            reason: Some(format!("a{}b", c)),
        };
        assert_eq!(
            result.to_json(),
            format!("{{\"status\":\"UNKNOWN\",\"reason\":\"a{}b\"}}", escaped)
        );
    }
}

fn result_of(status: HealthStatus) -> HealthCheckResult {
    HealthCheckResult { status, code: StatusCode::ok(), reason: None }
}

#[test]
fn cache_is_healthy_until_a_service_is_unhealthy() {
    let mut cache = HealthCheckCache::new();
    assert!(cache.healthy());
    assert!(cache.insert("a".to_string(), result_of(HealthStatus::Healthy)).is_none());
    assert!(cache.insert("b".to_string(), result_of(HealthStatus::Unknown)).is_none());
    assert!(cache.healthy());
    let before = cache.insert("a".to_string(), result_of(HealthStatus::Unhealthy));
    assert_eq!(before.unwrap().status, HealthStatus::Healthy);
    assert!(!cache.healthy());
    assert_eq!(cache.len(), 2);
    assert!(cache.insert("c".to_string(), result_of(HealthStatus::Healthy)).is_none());
    assert!(!cache.healthy());
    cache.insert("a".to_string(), result_of(HealthStatus::Healthy));
    assert!(cache.healthy());
    assert_eq!(cache.len(), 3);
    assert_eq!(cache.get("b").unwrap().status, HealthStatus::Unknown);
    assert!(cache.get("d").is_none());
}

#[test]
fn services_are_forgotten_and_listed() {
    let mut cache = HealthCheckCache::new();
    assert!(cache.is_empty());
    assert!(cache.remove("a").is_none());
    for name in ["a", "b", "c"] {
        cache.insert(name.to_string(), result_of(HealthStatus::Unhealthy));
    }
    cache.insert("b".to_string(), result_of(HealthStatus::Healthy));
    assert!(cache.contains_key("b"));
    let copy = cache.clone();
    assert_eq!(cache.remove("a").unwrap().status, HealthStatus::Unhealthy);
    assert!(!cache.contains_key("a"));
    assert!(cache.get("a").is_none());
    let names: Vec<&str> = (0..2).map(|i| cache.entry(i).unwrap().0.as_str()).collect();
    assert_eq!(names, ["b", "c"]);
    assert_eq!(cache.entry(0).unwrap().1.status, HealthStatus::Healthy);
    assert!(cache.entry(2).is_none());
    assert!(!cache.healthy());
    cache.remove("c");
    assert!(cache.healthy());
    assert!(!cache.is_empty());
    assert_eq!(copy.len(), 3);
    assert!(!copy.healthy());
    assert_eq!(copy.entry(0).unwrap().0, "a");
}

#[test]
fn odd_health_codes_are_reported() {
    let complaint = |code| unexpected_health_status(StatusCode::from_u16(code).unwrap());
    for code in [200, 400, 404, 499, 500, 503, 599] {
        assert_eq!(complaint(code), None);
    }
    assert_eq!(
        complaint(302).unwrap(),
        "unexpected http health check status code: 302 Found"
    );
    assert_eq!(
        complaint(204).unwrap(),
        "unexpected http health check status code: 204 No Content"
    );
    assert_eq!(
        complaint(600).unwrap(),
        "unexpected http health check status code: 600 <unknown status code>"
    );
}

#[test]
fn cache_is_rendered_as_json() {
    let mut cache = HealthCheckCache::with_capacity(2);
    assert_eq!(cache.to_text(), "{}");
    assert_eq!(HealthCheckCache::default().to_text(), "{}");
    cache.insert("a".to_string(), result_of(HealthStatus::Healthy));
    cache.insert(
        "b\"".to_string(),
        HealthCheckResult {
            status: HealthStatus::Unhealthy,
            code: StatusCode::service_unavailable(),
            reason: Some("down".to_string()),
        },
    );
    let text = cache.to_text();
    assert_eq!(
        text,
        "{\n  \"a\": {\n    \"status\": \"HEALTHY\"\n  },\n  \"b\\\"\": {\n    \"status\": \"UNHEALTHY\",\n    \"code\": 503,\n    \"reason\": \"down\"\n  }\n}"
    );
    let value: serde_json::Value = serde_json::from_str(&text).unwrap();
    assert_eq!(serde_json::to_string_pretty(&value).unwrap().len(), text.len());
}

#[test]
fn nlp_service_is_healthy_if_it_answers() {
    type Nlp = NlpClient<(), ()>;
    for response in [Ok(()), Err(Code::InvalidArgument), Err(Code::NotFound)] {
        let result = Nlp::health(response);
        assert_eq!(result.to_json(), r#"{"status":"HEALTHY"}"#);
    }
    let result = Nlp::health(Err(Code::Unavailable));
    assert_eq!(result.to_json(), r#"{"status":"UNHEALTHY","code":503}"#);
    let result = Nlp::health(Err(Code::Cancelled));
    assert_eq!(result.to_json(), r#"{"status":"UNHEALTHY","code":500}"#);
}

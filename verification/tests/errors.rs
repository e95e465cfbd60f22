use orchestrator_client::detector::{detector_headers, unexpected_response, DetectorError};
use orchestrator_client::errors::{is_io_error, ClientError, Failure};
use orchestrator_client::headers::{can_be_header_value, header_text};
use orchestrator_client::health::GrpcStatus;
use orchestrator_client::http_client::{response_error, HttpClient};
use orchestrator_client::orchestrator_errors::OrchestratorError;
use orchestrator_client::status::{grpc_to_http_code, Code, StatusCode};
use orchestrator_client::text::{bool_text, decimal_text};
use orchestrator_client::url::Url;

fn reported(failure: Failure) -> (u16, String) {
    let error = ClientError::from_failure(failure);
    (error.status_code().as_u16(), error.to_text())
}

fn client(is_timeout: bool, is_connection: bool, is_body: bool) -> Failure {
    Failure::Client { message: "m".to_string(), is_timeout, is_connection, is_body }
}

#[test]
fn failures_are_reported_with_their_code() {
    let text = |m: &str| m.to_string();
    assert_eq!(
        reported(Failure::Json(text("e"))),
        (400, text("failed to deserialize body: e"))
    );
    assert_eq!(
        reported(Failure::Request(text("e"))),
        (400, text("error processing request: e"))
    );
    assert_eq!(
        reported(Failure::Read(text("e"))),
        (500, text("unable to read response bytes: e"))
    );
    assert_eq!(
        reported(Failure::Decode(text("e"))),
        (400, text("failed to decode response body: e"))
    );
    assert_eq!(reported(client(true, false, true)), (408, text("m")));
    assert_eq!(reported(client(false, true, false)), (408, text("m")));
    assert_eq!(reported(client(false, false, true)), (400, text("m")));
    assert_eq!(reported(client(false, false, false)), (500, text("m")));
    assert_eq!(reported(Failure::Middleware(text("m"))), (500, text("m")));
    let response = |status| Failure::Response { status, message: "m".to_string() };
    assert_eq!(reported(response(Some(429))), (429, text("m")));
    assert_eq!(reported(response(None)), (500, text("m")));
    let status = GrpcStatus { code: Code::NotFound, message: text("none") };
    assert_eq!(reported(Failure::Grpc(status)), (404, text("none")));
    let missing = ClientError::ModelNotFound { model_id: text("x") };
    assert_eq!(missing.status_code(), StatusCode::not_found());
    assert_eq!(missing.to_text(), "model not found: x");
}

struct FailingReader(Option<std::io::Error>);

impl std::io::Read for FailingReader {
    fn read(&mut self, _buffer: &mut [u8]) -> std::io::Result<usize> {
        match self.0.take() {
            Some(error) => Err(error),
            None => Ok(0),
        }
    }
}

#[test]
fn outside_errors_are_taken_apart() {
    let json = serde_json::from_str::<u8>("x").unwrap_err();
    let expected = format!("failed to deserialize body: {:?}", json);
    let error = ClientError::from_json_error(&json);
    assert_eq!(error.to_text(), expected);
    assert_eq!(error.status_code(), StatusCode::bad_request());

    assert!(!is_io_error(&json));
    let broken = std::io::Error::new(std::io::ErrorKind::Other, "no more");
    let io = serde_json::from_reader::<_, u8>(FailingReader(Some(broken))).unwrap_err();
    assert!(is_io_error(&io));
    let error = ClientError::from_json_error(&io);
    assert!(error.to_text().starts_with("failed to deserialize body: "));
    assert!(error.to_text().contains("no more"));
    assert_eq!(error.status_code(), StatusCode::bad_request());
    assert_eq!(error.clone(), error);

    let request = http::Request::builder().uri("a b").body(()).unwrap_err();
    let expected = format!("error processing request: {:?}", request);
    let error = ClientError::from_http_error(&request);
    assert_eq!(error.to_text(), expected);
    assert_eq!(error.status_code(), StatusCode::bad_request());

    let middleware = tower_reqwest::Error::Middleware("broken".into());
    let error = ClientError::from_tower_error(&middleware);
    assert_eq!(error.to_text(), "broken");
    assert_eq!(error.status_code(), StatusCode::internal_server_error());

    let builder = reqwest::Client::new().get("not a url").build().unwrap_err();
    let expected = builder.to_string();
    let error = ClientError::from_reqwest_error(&builder);
    assert_eq!(error.to_text(), expected);
    assert_eq!(error.status_code(), StatusCode::internal_server_error());
    let builder = reqwest::Client::new().get("not a url").build().unwrap_err();
    let error = ClientError::from_tower_error(&tower_reqwest::Error::from(builder));
    assert_eq!(error.to_text(), expected);
    assert_eq!(error.status_code(), StatusCode::internal_server_error());

    let status = tonic::Status::new(tonic::Code::PermissionDenied, "no");
    let error = ClientError::from_grpc_status(&status);
    assert_eq!(
        error,
        ClientError::Grpc { code: StatusCode::forbidden(), message: "no".to_string() }
    );
}

#[test]
fn outside_errors_are_converted() {
    let json = || serde_json::from_str::<u8>("x").unwrap_err();
    assert_eq!(ClientError::from(json()), ClientError::from_json_error(&json()));
    let request = || http::Request::builder().uri("a b").body(()).unwrap_err();
    assert_eq!(ClientError::from(request()), ClientError::from_http_error(&request()));
    let builder = || reqwest::Client::new().get("not a url").build().unwrap_err();
    assert_eq!(ClientError::from(builder()), ClientError::from_reqwest_error(&builder()));
    let tower = || tower_reqwest::Error::from(builder());
    assert_eq!(ClientError::from(tower()), ClientError::from_tower_error(&tower()));
    let error = ClientError::from(tonic::Status::new(tonic::Code::NotFound, "gone"));
    assert_eq!(
        error,
        ClientError::Grpc { code: StatusCode::not_found(), message: "gone".to_string() }
    );
    assert_eq!(error.to_text(), "gone");
}

#[test]
fn grpc_codes_map_to_http_codes() {
    let codes = [
        200, 500, 500, 400, 408, 404, 500, 403, 500, 500, 500, 500, 501, 500, 503, 500, 401,
    ];
    for (number, http) in codes.into_iter().enumerate() {
        let code = Code::from_i32(number as i32);
        assert_eq!(grpc_to_http_code(code).as_u16(), http);
        assert_eq!(
            tonic::Code::from_i32(number as i32) as i32,
            number as i32,
        );
    }
    assert_eq!(Code::from_i32(17), Code::Unknown);
    assert_eq!(Code::from_i32(-1), Code::Unknown);
}

#[test]
fn status_codes_are_limited() {
    assert!(StatusCode::from_u16(99).is_none());
    assert!(StatusCode::from_u16(1000).is_none());
    assert_eq!(StatusCode::from_u16(100).unwrap().as_u16(), 100);
    assert_eq!(StatusCode::from_u16(999).unwrap().to_text(), "999 <unknown status code>");
    assert_eq!(StatusCode::not_implemented().to_text(), "501 Not Implemented");
    assert_eq!(StatusCode::from_u16(999).unwrap().canonical_reason(), None);
    assert_eq!(
        StatusCode::ok().to_text_with(&Some("Fine".to_string())),
        "200 Fine"
    );
    assert!(StatusCode::ok().is_success());
    assert!(StatusCode::unauthorized().is_client_error());
    assert!(StatusCode::service_unavailable().is_server_error());
}

#[test]
fn unexpected_responses_show_status_and_body() {
    type Client = HttpClient<()>;
    assert!(Client::is_expected(&StatusCode::ok()));
    assert!(!Client::is_expected(&StatusCode::from_u16(201).unwrap()));
    let error = Client::from_unexpected_response(
        StatusCode::service_unavailable(),
        Ok("say \"hi\"".to_string()),
    );
    assert_eq!(error.to_text(), r#"client response 503 - "say \"hi\"""#);
    assert_eq!(error.status_code(), StatusCode::service_unavailable());
    let error = Client::from_unexpected_response(
        StatusCode::service_unavailable(),
        Err(Failure::Read("gone".to_string())),
    );
    assert_eq!(error.to_text(), "unable to read response bytes: gone");
    assert_eq!(error.status_code(), StatusCode::internal_server_error());
    assert_eq!(Client::from_expected_response(Ok(5)), Ok(5));
    let error =
        Client::from_expected_response::<u8>(Err(Failure::Decode("e".to_string()))).unwrap_err();
    assert_eq!(error.status_code(), StatusCode::bad_request());
    let error = response_error(StatusCode::not_found(), "?");
    assert_eq!(error.to_text(), "client response 404 - ?");
}

#[test]
fn requests_carry_method_url_and_body() {
    let url = || Url::parse("http://host/path").unwrap();
    let client = HttpClient::new(url(), ());
    let mut headers = http::HeaderMap::new();
    headers.insert("accept", http::HeaderValue::from_static("*/*"));
    let request = client.get(url(), headers.clone(), Ok("{}".to_string())).unwrap().unwrap();
    assert_eq!(request.method, "GET");
    assert_eq!(request.url, url());
    assert_eq!(request.body, "{}");
    assert_eq!(request.headers.get("accept").unwrap(), "*/*");
    let request = client.post(url(), headers.clone(), Ok("1".to_string())).unwrap().unwrap();
    assert_eq!(request.method, "POST");
    let failed = client.post(url(), headers, Err(Failure::Json("e".to_string()))).unwrap();
    assert_eq!(failed.unwrap_err().to_text(), "failed to deserialize body: e");
}

#[test]
fn detector_errors_are_reported() {
    let error = DetectorError { code: 422, message: "bad text".to_string() }.into_client_error();
    assert_eq!(error.to_text(), "error response from detector: bad text");
    assert_eq!(error.status_code().as_u16(), 422);
    let error = unexpected_response(StatusCode::not_found(), None);
    assert_eq!(error.to_text(), "error response from detector: ");
    assert_eq!(error.status_code(), StatusCode::not_found());
    let body = DetectorError { code: 500, message: "x".to_string() };
    let error = unexpected_response(StatusCode::not_found(), Some(body));
    assert_eq!(error.to_text(), "error response from detector: x");
    assert_eq!(error.status_code(), StatusCode::internal_server_error());
}

#[test]
fn detector_id_is_appended() {
    let mut headers = http::HeaderMap::new();
    headers.insert("detector-id", http::HeaderValue::from_static("first"));
    headers.insert("accept", http::HeaderValue::from_static("*/*"));
    assert!(can_be_header_value("second"));
    let extended = detector_headers(headers, "second").unwrap();
    let ids: Vec<&str> =
        extended.get_all("detector-id").iter().map(|v| v.to_str().unwrap()).collect();
    assert_eq!(ids, ["first", "second"]);
    assert_eq!(extended.get("accept").unwrap(), "*/*");
    assert_eq!(extended.len(), 3);
}

#[test]
fn header_values_are_checked() {
    assert!(can_be_header_value(""));
    assert!(can_be_header_value("a\tb"));
    assert!(can_be_header_value("caf\u{e9}"));
    assert!(!can_be_header_value("a\nb"));
    assert!(!can_be_header_value("\u{7f}"));
    assert!(!can_be_header_value("\0"));
    for byte in 0u8..=127 {
        let text = (byte as char).to_string();
        let accepted = http::HeaderValue::from_str(&text).is_ok();
        assert_eq!(can_be_header_value(&text), accepted);
    }
    for byte in 0u8..=255 {
        let readable = http::HeaderValue::from_bytes(&[byte])
            .ok()
            .and_then(|value| value.to_str().ok().map(|text| text.to_string()));
        let text = header_text(&vec![byte]);
        if readable.is_some() {
            assert_eq!(text, readable);
        }
        if !(byte < 32 && byte != 9) && byte != 127 {
            assert_eq!(text, readable);
        }
    }
}

#[test]
fn orchestrator_errors_have_messages() {
    let id: u128 = 0x67e55044_10b1_426f_9247_bb680e5fe0c8;
    let cause = || ClientError::Http {
        code: StatusCode::internal_server_error(),
        message: "boom".to_string(),
    };
    let name = || "x".to_string();
    let uuid = "67e55044-10b1-426f-9247-bb680e5fe0c8";
    let cases = [
        (OrchestratorError::from(cause()), "boom".to_string()),
        (OrchestratorError::DetectorNotFound(name()), "detector `x` not found".to_string()),
        (
            OrchestratorError::DetectorRequestFailed {
                request_id: id,
                detector_id: name(),
                error: cause(),
            },
            format!("detector request {} failed for detector `x`: boom", uuid),
        ),
        (
            OrchestratorError::ChunkerRequestFailed {
                request_id: id,
                chunker_id: name(),
                error: cause(),
            },
            format!("chunker request {} failed for chunker `x`: boom", uuid),
        ),
        (
            OrchestratorError::GenerateRequestFailed {
                request_id: id,
                generation_model_id: name(),
                error: cause(),
            },
            format!("generate request {} failed for generation model `x`: boom", uuid),
        ),
        (
            OrchestratorError::TokenizeRequestFailed {
                request_id: id,
                generation_model_id: name(),
                error: cause(),
            },
            format!("tokenize request {} failed for generation model `x`: boom", uuid),
        ),
        (
            OrchestratorError::Unhealthy { message: name() },
            "orchestrator or configured clients are unhealthy: x".to_string(),
        ),
        (OrchestratorError::Other(name()), "x".to_string()),
        (OrchestratorError::Cancelled, "cancelled".to_string()),
        (OrchestratorError::of_task(true, "ignored"), "cancelled".to_string()),
        (OrchestratorError::of_task(false, "why"), "task panicked: why".to_string()),
    ];
    for (error, text) in cases {
        assert_eq!(error.to_text(), text);
        assert_eq!(error.clone(), error);
    }
}

#[test]
fn tasks_that_did_not_finish_are_told_apart() {
    let runtime = tokio::runtime::Builder::new_current_thread().build().unwrap();
    let cancelled = runtime.block_on(async {
        let task = tokio::spawn(std::future::pending::<()>());
        task.abort();
        task.await.unwrap_err()
    });
    assert_eq!(OrchestratorError::from_join_error(&cancelled), OrchestratorError::Cancelled);
    let panicked = runtime.block_on(async {
        tokio::spawn(async { panic!("out of luck") }).await.unwrap_err()
    });
    let error = OrchestratorError::from_join_error(&panicked);
    assert_eq!(OrchestratorError::from(cancelled), OrchestratorError::Cancelled);
    assert_eq!(error.to_text(), format!("task panicked: {}", panicked));
    assert!(error.to_text().ends_with("panicked with message \"out of luck\""));
    assert_eq!(OrchestratorError::from(panicked), error);
}

#[test]
fn numbers_are_written_in_decimal() {
    for n in [0, 7, 10, 99, 100, 65535, u128::MAX] {
        assert_eq!(decimal_text(n), n.to_string());
    }
    assert_eq!(bool_text(true), "true");
    assert_eq!(bool_text(false), "false");
}

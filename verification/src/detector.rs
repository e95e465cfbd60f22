//! Detectors: HTTP services that look for something in a text.

use crate::errors::ClientError;
use crate::headers::append_header;
use crate::status::StatusCode;
use vstd::prelude::*;

verus! {

/// The port of a detector that names none.
pub const DEFAULT_PORT: u16 = 8080;

/// The error that a detector reports.
#[derive(Debug)]
pub struct DetectorError {
    pub code: u16,
    pub message: String,
}

impl Clone for DetectorError {
    fn clone(&self) -> (copy: DetectorError)
        ensures
            copy == *self,
    {
        DetectorError { code: self.code, message: self.message.clone() }
    }
}

/// A client of a detector.
pub trait DetectorClient {

}

/// How an error of a detector is reported.
pub open spec fn detector_report(code: u16, message: Seq<char>) -> crate::errors::ClientErrorView {
    crate::errors::ClientErrorView::Http {
        code,
        message: "error response from detector: "@ + message,
    }
}

impl DetectorError {
    /// Reports the error. Its code has to be a status code.
    pub fn into_client_error(self) -> (error: ClientError)
        requires
            crate::status::is_status_code(self.code as int),
        ensures
            error@ == detector_report(self.code, self.message@),
    {
        let code: Option<StatusCode> = StatusCode::from_u16(self.code);
        ClientError::Http {
            code: code.unwrap(),
            message: "error response from detector: ".to_owned().concat(self.message.as_str()),
        }
    }

    /// The error of a response: what the body says, or the status code without a message.
    pub fn of_response(status: StatusCode, body: Option<DetectorError>) -> (error: DetectorError)
        ensures
            match body {
                Some(reported) => error == reported,
                None => error.code == status@ && error.message@ == ""@,
            },
    {
        match body {
            Some(reported) => reported,
            None => DetectorError { code: status.as_u16(), message: "".to_owned() },
        }
    }
}

/// Reports a response of a detector whose status was not `200`.
pub fn unexpected_response(status: StatusCode, body: Option<DetectorError>) -> (error: ClientError)
    requires
        body matches Some(reported) ==> crate::status::is_status_code(reported.code as int),
    ensures
        error@ == (match body {
            Some(reported) => detector_report(reported.code, reported.message@),
            None => detector_report(status@, ""@),
        }),
{
    let number: u16 = status.as_u16();
    assert(crate::status::is_status_code(number as int));
    DetectorError::of_response(status, body).into_client_error()
}

/// The headers of a request to a detector: the ones given, and the id of the detector.
/// `None` if the map cannot hold another name, which it can as long as there is room.
pub fn detector_headers(headers: http::HeaderMap, model_id: &str) -> (extended: Option<
    http::HeaderMap,
>)
    requires
        crate::headers::is_header_value(model_id@),
    ensures
        extended matches Some(e) ==> crate::headers::header_values(e)
            == crate::headers::header_values(headers).insert(
            "detector-id"@,
            crate::headers::all_values(
                crate::headers::header_values(headers),
                "detector-id"@,
            ).push(vstd::utf8::encode_utf8(model_id@)),
        ),
        crate::headers::has_room(crate::headers::header_values(headers)) ==> extended is Some,
        extended is None ==> crate::ambient::may_refuse(crate::headers::header_values(headers)),
{
    proof {
        reveal_strlit("detector-id");
    }
    let mut extended: http::HeaderMap = headers;
    if append_header(&mut extended, "detector-id", model_id.as_bytes()) {
        Some(extended)
    } else {
        None
    }
}

/// Adding the id of a detector changes no other header.
pub proof fn detector_id_changes_no_other_header(
    values: Map<Seq<char>, Seq<Seq<u8>>>,
    id: Seq<u8>,
    name: Seq<char>,
)
    requires
        name != "detector-id"@,
    ensures
        ({
            let extended = values.insert(
                "detector-id"@,
                crate::headers::all_values(values, "detector-id"@).push(id),
            );
            crate::headers::all_values(extended, name) == crate::headers::all_values(values, name)
        }),
{
}

/// The error of a detector is reported with its own code, and its message follows the same
/// words whatever it is.
pub proof fn detector_errors_keep_code_and_message(code: u16, message: Seq<char>)
    ensures
        detector_report(code, message) is Http,
        detector_report(code, message).status_code() == code,
        detector_report(code, message).text() == "error response from detector: "@ + message,
{
}

} // verus!

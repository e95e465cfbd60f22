//! HTTP status codes, gRPC status codes, and the mapping between them.

use crate::text::{decimal_text, join3};
use vstd::prelude::*;

verus! {

/// The smallest and largest HTTP status code.
pub open spec fn is_status_code(code: int) -> bool {
    100 <= code <= 999
}

/// What `http::StatusCode::canonical_reason` gives for a status code: the standard
/// phrase, or nothing where the code has none.
pub uninterp spec fn canonical_reason_of(code: u16) -> Option<Seq<char>>;

/// Calls `http::StatusCode::canonical_reason`. The result is a function of the code
/// alone; the phrases themselves are a table of the `http` crate.
#[verifier::external_body]
fn http_canonical_reason(code: u16) -> (reason: Option<String>)
    requires
        is_status_code(code as int),
    ensures
        crate::text::opt_text(reason) == canonical_reason_of(code),
{
    http::StatusCode::from_u16(code).unwrap().canonical_reason().map(|phrase| phrase.to_owned())
}

/// The status code printed with its phrase, as in `404 Not Found`.
pub open spec fn status_line(code: u16, reason: Option<Seq<char>>) -> Seq<char> {
    crate::text::decimal(code as nat) + " "@ + match reason {
        Some(phrase) => phrase,
        None => "<unknown status code>"@,
    }
}

/// An HTTP status code. Its view is the number.
#[derive(Debug, Clone, Copy, PartialEq, Eq, Structural)]
pub struct StatusCode {
    code: u16,
}

impl View for StatusCode {
    type V = u16;

    closed spec fn view(&self) -> u16 {
        self.code
    }
}

impl StatusCode {
    #[verifier::type_invariant]
    spec fn in_range(self) -> bool {
        is_status_code(self.code as int)
    }

    /// Converts a number to a status code. It must be at least 100 and less than 1000.
    pub fn from_u16(code: u16) -> (status: Option<StatusCode>)
        ensures
            status is Some <==> is_status_code(code as int),
            status matches Some(s) ==> s@ == code,
    {
        if 100 <= code && code <= 999 {
            Some(StatusCode { code })
        } else {
            None
        }
    }

    /// The number of the status code.
    pub fn as_u16(&self) -> (code: u16)
        ensures
            code == self@,
            is_status_code(code as int),
    {
        proof {
            use_type_invariant(self);
        }
        self.code
    }

    fn known(code: u16) -> (status: StatusCode)
        requires
            is_status_code(code as int),
        ensures
            status@ == code,
    {
        StatusCode { code }
    }

    /// `200 OK`
    pub fn ok() -> (status: StatusCode)
        ensures
            status@ == 200,
    {
        StatusCode::known(200)
    }

    /// `400 Bad Request`
    pub fn bad_request() -> (status: StatusCode)
        ensures
            status@ == 400,
    {
        StatusCode::known(400)
    }

    /// `401 Unauthorized`
    pub fn unauthorized() -> (status: StatusCode)
        ensures
            status@ == 401,
    {
        StatusCode::known(401)
    }

    /// `403 Forbidden`
    pub fn forbidden() -> (status: StatusCode)
        ensures
            status@ == 403,
    {
        StatusCode::known(403)
    }

    /// `404 Not Found`
    pub fn not_found() -> (status: StatusCode)
        ensures
            status@ == 404,
    {
        StatusCode::known(404)
    }

    /// `408 Request Timeout`
    pub fn request_timeout() -> (status: StatusCode)
        ensures
            status@ == 408,
    {
        StatusCode::known(408)
    }

    /// `500 Internal Server Error`
    pub fn internal_server_error() -> (status: StatusCode)
        ensures
            status@ == 500,
    {
        StatusCode::known(500)
    }

    /// `501 Not Implemented`
    pub fn not_implemented() -> (status: StatusCode)
        ensures
            status@ == 501,
    {
        StatusCode::known(501)
    }

    /// `503 Service Unavailable`
    pub fn service_unavailable() -> (status: StatusCode)
        ensures
            status@ == 503,
    {
        StatusCode::known(503)
    }

    /// `true` for the codes from 200 to 299.
    pub fn is_success(&self) -> (success: bool)
        ensures
            success == (200 <= self@ <= 299),
    {
        200 <= self.code && self.code <= 299
    }

    /// `true` for the codes from 400 to 499.
    pub fn is_client_error(&self) -> (client_error: bool)
        ensures
            client_error == (400 <= self@ <= 499),
    {
        400 <= self.code && self.code <= 499
    }

    /// `true` for the codes from 500 to 599.
    pub fn is_server_error(&self) -> (server_error: bool)
        ensures
            server_error == (500 <= self@ <= 599),
    {
        500 <= self.code && self.code <= 599
    }

    /// The standard phrase of the status code, if it has one.
    pub fn canonical_reason(&self) -> (reason: Option<String>)
        ensures
            crate::text::opt_text(reason) == canonical_reason_of(self@),
    {
        proof {
            use_type_invariant(self);
        }
        http_canonical_reason(self.code)
    }

    /// The status code followed by its phrase.
    pub fn to_text(&self) -> (text: String)
        ensures
            text@ == status_line(self@, canonical_reason_of(self@)),
    {
        let reason: Option<String> = self.canonical_reason();
        self.to_text_with(&reason)
    }

    /// The status code followed by the given phrase, or by a remark that it has none.
    pub fn to_text_with(&self, reason: &Option<String>) -> (text: String)
        ensures
            text@ == status_line(self@, crate::text::opt_text(*reason)),
    {
        let number: String = decimal_text(self.code as u128);
        match reason {
            Some(phrase) => join3(number.as_str(), " ", phrase.as_str()),
            None => join3(number.as_str(), " ", "<unknown status code>"),
        }
    }
}

/// gRPC status codes.
#[derive(Debug, Clone, Copy, PartialEq, Eq, Structural)]
pub enum Code {
    Okay,
    Cancelled,
    Unknown,
    InvalidArgument,
    DeadlineExceeded,
    NotFound,
    AlreadyExists,
    PermissionDenied,
    ResourceExhausted,
    FailedPrecondition,
    Aborted,
    OutOfRange,
    Unimplemented,
    Internal,
    Unavailable,
    DataLoss,
    Unauthenticated,
}

impl Code {
    /// The number of the code on the wire.
    pub open spec fn number(self) -> int {
        match self {
            Code::Okay => 0,
            Code::Cancelled => 1,
            Code::Unknown => 2,
            Code::InvalidArgument => 3,
            Code::DeadlineExceeded => 4,
            Code::NotFound => 5,
            Code::AlreadyExists => 6,
            Code::PermissionDenied => 7,
            Code::ResourceExhausted => 8,
            Code::FailedPrecondition => 9,
            Code::Aborted => 10,
            Code::OutOfRange => 11,
            Code::Unimplemented => 12,
            Code::Internal => 13,
            Code::Unavailable => 14,
            Code::DataLoss => 15,
            Code::Unauthenticated => 16,
        }
    }

    /// Reads a code from its number. Numbers that name no code are `Unknown`.
    pub fn from_i32(number: i32) -> (code: Code)
        ensures
            code == code_of_number(number),
    {
        match number {
            0 => Code::Okay,
            1 => Code::Cancelled,
            2 => Code::Unknown,
            3 => Code::InvalidArgument,
            4 => Code::DeadlineExceeded,
            5 => Code::NotFound,
            6 => Code::AlreadyExists,
            7 => Code::PermissionDenied,
            8 => Code::ResourceExhausted,
            9 => Code::FailedPrecondition,
            10 => Code::Aborted,
            11 => Code::OutOfRange,
            12 => Code::Unimplemented,
            13 => Code::Internal,
            14 => Code::Unavailable,
            15 => Code::DataLoss,
            16 => Code::Unauthenticated,
            _ => Code::Unknown,
        }
    }
}

/// The code with the given number; `Unknown` if there is none.
pub open spec fn code_of_number(number: i32) -> Code {
    match number {
        0 => Code::Okay,
        1 => Code::Cancelled,
        3 => Code::InvalidArgument,
        4 => Code::DeadlineExceeded,
        5 => Code::NotFound,
        6 => Code::AlreadyExists,
        7 => Code::PermissionDenied,
        8 => Code::ResourceExhausted,
        9 => Code::FailedPrecondition,
        10 => Code::Aborted,
        11 => Code::OutOfRange,
        12 => Code::Unimplemented,
        13 => Code::Internal,
        14 => Code::Unavailable,
        15 => Code::DataLoss,
        16 => Code::Unauthenticated,
        _ => Code::Unknown,
    }
}

/// The HTTP status code that stands for a gRPC status code.
pub open spec fn http_code_of(code: Code) -> u16 {
    match code {
        Code::InvalidArgument => 400,
        Code::Internal => 500,
        Code::NotFound => 404,
        Code::DeadlineExceeded => 408,
        Code::Unimplemented => 501,
        Code::Unauthenticated => 401,
        Code::PermissionDenied => 403,
        Code::Unavailable => 503,
        Code::Okay => 200,
        _ => 500,
    }
}

/// Returns equivalent http status code for grpc status code
pub fn grpc_to_http_code(value: Code) -> (status: StatusCode)
    ensures
        status@ == http_code_of(value),
{
    match value {
        Code::InvalidArgument => StatusCode::bad_request(),
        Code::Internal => StatusCode::internal_server_error(),
        Code::NotFound => StatusCode::not_found(),
        Code::DeadlineExceeded => StatusCode::request_timeout(),
        Code::Unimplemented => StatusCode::not_implemented(),
        Code::Unauthenticated => StatusCode::unauthorized(),
        Code::PermissionDenied => StatusCode::forbidden(),
        Code::Unavailable => StatusCode::service_unavailable(),
        Code::Okay => StatusCode::ok(),
        _ => StatusCode::internal_server_error(),
    }
}

/// A gRPC status maps to a successful HTTP status exactly when it is `Ok`; every other
/// one maps to a client or server error.
pub proof fn only_grpc_ok_maps_to_success(code: Code)
    ensures
        200 <= http_code_of(code) <= 299 <==> code == Code::Okay,
        code != Code::Okay ==> 400 <= http_code_of(code) <= 599,
{
}

/// Different gRPC codes have different numbers.
pub proof fn code_numbers_are_distinct(a: Code, b: Code)
    requires
        a.number() == b.number(),
    ensures
        a == b,
{
}

/// A code is read back from its number.
pub proof fn code_is_read_back_from_its_number(code: Code)
    ensures
        0 <= code.number() <= 16,
        code_of_number(code.number() as i32) == code,
{
}

/// Status codes are the numbers with three digits.
pub proof fn status_codes_have_three_digits(code: nat)
    ensures
        is_status_code(code as int) <==> crate::text::decimal(code).len() == 3,
{
    reveal_with_fuel(crate::text::decimal, 5);
    if code >= 1000 {
        crate::text::decimal_is_canonical(code / 1000);
    }
}

/// Which gRPC codes have an HTTP code of their own, and which: all others are internal
/// errors.
pub proof fn http_codes_tell_grpc_codes_apart(code: Code)
    ensures
        http_code_of(code) == 200 <==> code is Okay,
        http_code_of(code) == 400 <==> code is InvalidArgument,
        http_code_of(code) == 401 <==> code is Unauthenticated,
        http_code_of(code) == 403 <==> code is PermissionDenied,
        http_code_of(code) == 404 <==> code is NotFound,
        http_code_of(code) == 408 <==> code is DeadlineExceeded,
        http_code_of(code) == 501 <==> code is Unimplemented,
        http_code_of(code) == 503 <==> code is Unavailable,
        http_code_of(code) == 500 <==> !(code is Okay || code is InvalidArgument
            || code is Unauthenticated || code is PermissionDenied || code is NotFound
            || code is DeadlineExceeded || code is Unimplemented || code is Unavailable),
{
}

/// A number is read as the code that has it; a number that no code has is read as `Unknown`.
pub proof fn numbers_are_read_as_their_codes(number: i32)
    ensures
        0 <= number <= 16 ==> code_of_number(number).number() == number,
        !(0 <= number <= 16) ==> code_of_number(number) is Unknown,
{
}

/// A status line starts with the number, and the phrase follows it unchanged after a space.
/// A code without a phrase says so.
pub proof fn status_lines_show_number_and_phrase(code: u16, phrase: Seq<char>)
    ensures
        status_line(code, Some(phrase)) == crate::text::decimal(code as nat).push(' ') + phrase,
        status_line(code, None) == status_line(code, Some("<unknown status code>"@)),
{
    reveal_strlit(" ");
    assert(status_line(code, Some(phrase)) =~= crate::text::decimal(code as nat).push(' ') + phrase);
}

} // verus!

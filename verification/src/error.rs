//! The error of a call, and how a response that reports a failure becomes
//! one.
use crate::models::TencentCloudErrorResponse;
use crate::text::{decimal_text, u64_to_decimal};
use vstd::prelude::*;
use vstd::std_specs::convert::FromSpecImpl;
use vstd::string::*;

verus! {

#[verifier::external_type_specification]
#[verifier::external_body]
pub struct ExTransportError(reqwest::Error);

#[verifier::external_type_specification]
#[verifier::external_body]
pub struct ExJsonError(serde_json::Error);

/// Errors returned by the SDK.
#[derive(Debug)]
pub enum SdkError {
    /// The request could not be sent, or the response could not be read.
    Http(reqwest::Error),
    /// A body could not be encoded, or a response did not have the expected
    /// shape.
    Serde(serde_json::Error),
    /// The service answered with a status that is no success.
    Service { code: String, message: String, request_id: Option<String> },
}

impl From<reqwest::Error> for SdkError {
    fn from(error: reqwest::Error) -> (res: SdkError)
        ensures
            res == SdkError::Http(error),
    {
        SdkError::Http(error)
    }
}

impl FromSpecImpl<reqwest::Error> for SdkError {
    open spec fn obeys_from_spec() -> bool {
        true
    }

    open spec fn from_spec(error: reqwest::Error) -> SdkError {
        SdkError::Http(error)
    }
}

impl From<serde_json::Error> for SdkError {
    fn from(error: serde_json::Error) -> (res: SdkError)
        ensures
            res == SdkError::Serde(error),
    {
        SdkError::Serde(error)
    }
}

impl FromSpecImpl<serde_json::Error> for SdkError {
    open spec fn obeys_from_spec() -> bool {
        true
    }

    open spec fn from_spec(error: serde_json::Error) -> SdkError {
        SdkError::Serde(error)
    }
}

/// True for the statuses 200 to 299.
pub open spec fn is_success_status(status: u16) -> bool {
    200 <= status <= 299
}

/// True if the HTTP status reports success.
pub fn status_is_success(status: u16) -> (res: bool)
    ensures
        res == is_success_status(status),
{
    200 <= status && status <= 299
}

/// The code that stands for a failure without an error envelope: `HTTP_`
/// and the status.
pub open spec fn placeholder_code(status: u16) -> Seq<char> {
    "HTTP_"@ + decimal_text(status as int)
}

/// True if `error` is the service error of a response with this status,
/// body and error envelope, the envelope absent where the body could not be
/// read as one.
///
/// An envelope that carries an error gives its code, its message and the
/// request id. Any other response gives the placeholder code of the status,
/// with the body as the message and no request id.
pub open spec fn is_service_error_of(
    error: SdkError,
    status: u16,
    body: Seq<char>,
    envelope: Option<TencentCloudErrorResponse>,
) -> bool {
    &&& error matches SdkError::Service { code, message, request_id }
    &&& if envelope is Some && envelope->0.error is Some {
        &&& code@ == envelope->0.error->0.code@
        &&& message@ == envelope->0.error->0.message@
        &&& request_id == envelope->0.request_id
    } else {
        &&& code@ == placeholder_code(status)
        &&& message@ == body
        &&& request_id is None
    }
}

/// The error of a response whose status is no success.
pub fn service_error(
    status: u16,
    body: String,
    envelope: Option<TencentCloudErrorResponse>,
) -> (error: SdkError)
    ensures
        is_service_error_of(error, status, body@, envelope),
{
    match envelope {
        Some(TencentCloudErrorResponse { request_id, error: Some(content) }) => SdkError::Service {
            code: content.code,
            message: content.message,
            request_id,
        },
        _ => {
            let code = String::from_str("HTTP_").concat(u64_to_decimal(status as u64).as_str());
            SdkError::Service { code, message: body, request_id: None }
        },
    }
}

/// True if the envelope carries an error.
pub open spec fn carries_error(envelope: Option<TencentCloudErrorResponse>) -> bool {
    envelope is Some && envelope->0.error is Some
}

/// The error envelope of a response, of the two places where a body may
/// hold one: inside `Response`, or at the top level. The one inside
/// `Response` counts where it carries an error, the one at the top level
/// where it does not.
pub fn error_envelope(
    inside_response: Option<TencentCloudErrorResponse>,
    top_level: Option<TencentCloudErrorResponse>,
) -> (envelope: Option<TencentCloudErrorResponse>)
    ensures
        envelope == if carries_error(inside_response) {
            inside_response
        } else {
            top_level
        },
{
    match inside_response {
        Some(TencentCloudErrorResponse { request_id, error: Some(content) }) => Some(
            TencentCloudErrorResponse { request_id, error: Some(content) },
        ),
        _ => top_level,
    }
}

} // verus!

//! Responses, and the one shape that every error has.
use vstd::prelude::*;

use crate::dpop::{dpop_error_message, DpopError};
use crate::login::TokenResponse;
use crate::logout::LogoutResponse;
use crate::register::{ConfirmResponse, RegisterResponse};

verus! {

pub const OK: u16 = 200;

pub const CREATED: u16 = 201;

pub const BAD_REQUEST: u16 = 400;

pub const UNAUTHORIZED: u16 = 401;

pub const FORBIDDEN: u16 = 403;

pub const CONFLICT: u16 = 409;

pub const TOO_MANY_REQUESTS: u16 = 429;

pub const INTERNAL_SERVER_ERROR: u16 = 500;

/// The body of a response, to be written as a JSON object.
#[derive(Debug)]
pub enum ResponseBody {
    Error { error: String, message: String },
    Tokens(TokenResponse),
    Registered(RegisterResponse),
    Confirmed(ConfirmResponse),
    LoggedOut(LogoutResponse),
    Identity { user_id: String },
}

/// A response: its status, its body and, where the caller is asked to wait,
/// the value of the `retry-after` header.
#[derive(Debug)]
pub struct ApiResponse {
    pub status: u16,
    pub body: ResponseBody,
    pub retry_after: Option<String>,
}

/// Holds of an error response with that status, code and message.
pub open spec fn is_error(
    response: ApiResponse,
    status: u16,
    error: Seq<char>,
    message: Seq<char>,
) -> bool {
    &&& response.status == status
    &&& response.body matches ResponseBody::Error { error: code, message: text } && code@ == error
        && text@ == message
}

/// Holds of such a response that asks for no wait.
pub open spec fn is_plain_error(
    response: ApiResponse,
    status: u16,
    error: Seq<char>,
    message: Seq<char>,
) -> bool {
    is_error(response, status, error, message) && response.retry_after is None
}

/// An error response. Each endpoint chooses its own status.
pub fn error_response(status: u16, error: &str, message: &str) -> (r: ApiResponse)
    ensures
        is_plain_error(r, status, error@, message@),
{
    ApiResponse {
        status,
        body: ResponseBody::Error { error: error.to_string(), message: message.to_string() },
        retry_after: None,
    }
}

pub fn dpop_error_response(status: u16, err: &DpopError) -> (r: ApiResponse)
    ensures
        is_plain_error(r, status, "invalid_dpop_proof"@, dpop_error_message(*err)),
{
    error_response(status, "invalid_dpop_proof", err.message())
}

/// The response to a missing or invalid access token.
pub fn unauthorized() -> (r: ApiResponse)
    ensures
        is_plain_error(r, UNAUTHORIZED, "unauthorized"@, "missing or invalid access token"@),
{
    error_response(UNAUTHORIZED, "unauthorized", "missing or invalid access token")
}

/// The response to a failure of this service, in the words of the endpoint.
pub fn internal_error(message: &str) -> (r: ApiResponse)
    ensures
        is_plain_error(r, INTERNAL_SERVER_ERROR, "internal_error"@, message@),
{
    error_response(INTERNAL_SERVER_ERROR, "internal_error", message)
}

/// The response to a request body that could not be read as JSON, with the
/// status and the words of the reader.
pub fn invalid_json_response(status: u16, message: &str) -> (r: ApiResponse)
    ensures
        is_plain_error(r, status, "invalid_json"@, message@),
{
    error_response(status, "invalid_json", message)
}

/// A response that carries a result.
pub fn success_response(status: u16, body: ResponseBody) -> (r: ApiResponse)
    ensures
        r.status == status,
        r.body == body,
        r.retry_after is None,
{
    ApiResponse { status, body, retry_after: None }
}

} // verus!

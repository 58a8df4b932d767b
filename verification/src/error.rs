//! Errors that the profile endpoints answer a request with.

use vstd::prelude::*;
use vstd::string::*;

verus! {

/// The Matrix error code of an error response.
#[derive(Clone, Copy, Debug, PartialEq, Eq, Structural)]
pub enum ApiErrorCode {
    /// `M_BAD_JSON`: the request body is missing or is not the expected JSON.
    BadJson,
    /// `M_FORBIDDEN`: the authenticated user may not do what was asked.
    Forbidden,
    /// `M_NOT_FOUND`: what was asked for does not exist.
    NotFound,
}

/// The HTTP status code that answers an error with the given code.
pub open spec fn spec_status_code(code: ApiErrorCode) -> u16 {
    match code {
        ApiErrorCode::BadJson => 400,
        ApiErrorCode::Forbidden => 403,
        ApiErrorCode::NotFound => 404,
    }
}

/// The text sent for a malformed body when no other message is given.
pub open spec fn default_bad_json_message() -> Seq<char> {
    "Invalid or missing key-value pairs in JSON."@
}

impl ApiErrorCode {
    /// The HTTP status code of a response carrying this error code.
    pub fn status_code(&self) -> (status: u16)
        ensures
            status == spec_status_code(*self),
    {
        match self {
            ApiErrorCode::BadJson => 400,
            ApiErrorCode::Forbidden => 403,
            ApiErrorCode::NotFound => 404,
        }
    }

    /// The code as it is written in a response body.
    pub fn as_string(&self) -> (s: String)
        ensures
            *self == ApiErrorCode::BadJson ==> s@ == "M_BAD_JSON"@,
            *self == ApiErrorCode::Forbidden ==> s@ == "M_FORBIDDEN"@,
            *self == ApiErrorCode::NotFound ==> s@ == "M_NOT_FOUND"@,
    {
        match self {
            ApiErrorCode::BadJson => String::from_str("M_BAD_JSON"),
            ApiErrorCode::Forbidden => String::from_str("M_FORBIDDEN"),
            ApiErrorCode::NotFound => String::from_str("M_NOT_FOUND"),
        }
    }
}

/// An error response: a Matrix error code and a human-readable message.
#[derive(Clone, Debug)]
pub struct ApiError {
    /// The Matrix error code.
    pub errcode: ApiErrorCode,
    /// The message sent along with the code.
    pub error: String,
}

/// An error as the contracts see it: its code and its message.
pub struct ApiErrorView {
    pub errcode: ApiErrorCode,
    pub error: Seq<char>,
}

impl View for ApiError {
    type V = ApiErrorView;

    open spec fn view(&self) -> ApiErrorView {
        ApiErrorView { errcode: self.errcode, error: self.error@ }
    }
}

/// A not-found error with the given message.
pub open spec fn not_found_error(message: Seq<char>) -> ApiErrorView {
    ApiErrorView { errcode: ApiErrorCode::NotFound, error: message }
}

/// The error for a missing or malformed body, with the default message.
pub open spec fn bad_json_error() -> ApiErrorView {
    ApiErrorView { errcode: ApiErrorCode::BadJson, error: default_bad_json_message() }
}

impl ApiError {
    /// An error for a request body that is missing or malformed, with the
    /// given message or, without one, the default message.
    pub fn bad_json(message: Option<String>) -> (err: ApiError)
        ensures
            err.errcode == ApiErrorCode::BadJson,
            match message {
                Some(m) => err.error@ == m@,
                None => err.error@ == default_bad_json_message(),
            },
    {
        match message {
            Some(m) => ApiError { errcode: ApiErrorCode::BadJson, error: m },
            None => ApiError {
                errcode: ApiErrorCode::BadJson,
                error: String::from_str("Invalid or missing key-value pairs in JSON."),
            },
        }
    }

    /// An error for something that was asked for and does not exist.
    pub fn not_found(message: String) -> (err: ApiError)
        ensures
            err.errcode == ApiErrorCode::NotFound,
            err.error@ == message@,
    {
        ApiError { errcode: ApiErrorCode::NotFound, error: message }
    }

    /// An error for a request that the authenticated user may not make.
    pub fn unauthorized(message: String) -> (err: ApiError)
        ensures
            err.errcode == ApiErrorCode::Forbidden,
            err.error@ == message@,
    {
        ApiError { errcode: ApiErrorCode::Forbidden, error: message }
    }

    /// The HTTP status code of the response that carries this error.
    pub fn status_code(&self) -> (status: u16)
        ensures
            status == spec_status_code(self.errcode),
    {
        self.errcode.status_code()
    }
}

} // verus!

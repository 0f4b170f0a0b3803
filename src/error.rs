use vstd::prelude::*;
use crate::models::now_seconds;

verus! {

/// What a handler can fail with.
#[derive(Debug)]
pub enum AppError {
    NotFound,
    InvalidInput(String),
    InternalError(String),
}

/// Why a request produced no reply of its own: a failure of the routing
/// layer or of a handler.
#[derive(Debug)]
pub enum Rejection {
    /// No route matches the path.
    RouteNotFound,
    /// A handler failed.
    App(AppError),
    /// The route matches, but not the method.
    MethodNotAllowed,
    /// Anything else.
    Unhandled,
}

/// The body of an error reply.
#[derive(Debug)]
pub struct ErrorResponse {
    pub message: String,
    pub code: u16,
    pub timestamp: i64,
}

/// The HTTP status that answers `err`.
pub open spec fn status_of(err: &Rejection) -> u16 {
    match err {
        Rejection::RouteNotFound => 404,
        Rejection::App(AppError::NotFound) => 404,
        Rejection::App(AppError::InvalidInput(_)) => 400,
        Rejection::App(AppError::InternalError(_)) => 500,
        Rejection::MethodNotAllowed => 405,
        Rejection::Unhandled => 500,
    }
}

/// The message that answers `err`; internal details are never shown.
pub open spec fn message_of(err: &Rejection) -> Seq<char> {
    match err {
        Rejection::RouteNotFound => "Not Found"@,
        Rejection::App(AppError::NotFound) => "Todo not found"@,
        Rejection::App(AppError::InvalidInput(msg)) => msg@,
        Rejection::App(AppError::InternalError(_)) => "Internal Server Error"@,
        Rejection::MethodNotAllowed => "Method Not Allowed"@,
        Rejection::Unhandled => "Internal Server Error"@,
    }
}

/// The status and message that answer `err`.
pub fn error_status(err: &Rejection) -> (r: (u16, String))
    ensures
        r.0 == status_of(err),
        r.1@ == message_of(err),
{
    match err {
        Rejection::RouteNotFound => (404, "Not Found".to_string()),
        Rejection::App(AppError::NotFound) => (404, "Todo not found".to_string()),
        Rejection::App(AppError::InvalidInput(msg)) => (400, msg.clone()),
        Rejection::App(AppError::InternalError(_)) => (500, "Internal Server Error".to_string()),
        Rejection::MethodNotAllowed => (405, "Method Not Allowed".to_string()),
        Rejection::Unhandled => (500, "Internal Server Error".to_string()),
    }
}

/// The error reply to `err`, stamped with the current time.
pub fn handle_rejection(err: &Rejection) -> (r: ErrorResponse)
    ensures
        r.code == status_of(err),
        r.message@ == message_of(err),
{
    let (code, message) = error_status(err);
    ErrorResponse { message, code, timestamp: now_seconds() }
}

} // verus!

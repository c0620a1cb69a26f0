//! The failure boundary around every handler: whatever the handler ends in,
//! the caller gets a response, and no failure detail reaches the caller.

use crate::error::{opaque_payload_text, AppError};
use crate::reply::Reply;
use vstd::prelude::*;

verus! {

/// The body of every failure response.
pub open spec fn generic_failure_body() -> Seq<char> {
    "Internal server error"@
}

/// Turns the payload of an abnormal termination into an error: the payload's
/// text when it carries some, a fixed placeholder otherwise.
pub fn panic_handler(payload: Option<String>) -> (r: AppError)
    ensures
        r matches AppError::ApplicationPanic(d) && d@ == match payload {
            Some(p) => p@,
            None => opaque_payload_text(),
        },
{
    match payload {
        Some(p) => AppError::ApplicationPanic(p),
        None => AppError::ApplicationPanic(String::from_str("Box<Any>")),
    }
}

/// The response for any failure, whatever its kind.
pub fn error_handler(err: &AppError) -> (r: Reply)
    ensures
        r.is(500, generic_failure_body()),
{
    Reply::new(500, "Internal server error")
}

/// The response for a handler's outcome: a success passes through unchanged;
/// an application error or an abnormal termination becomes status 500 with
/// the generic body.
pub fn respond(outcome: Result<Reply, AppError>) -> (r: Reply)
    ensures
        match outcome {
            Ok(reply) => r == reply,
            Err(_) => r.is(500, generic_failure_body()),
        },
{
    match outcome {
        Ok(reply) => reply,
        Err(e) => error_handler(&e),
    }
}

} // verus!

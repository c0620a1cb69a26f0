//! The failures a handler can end in.

use vstd::prelude::*;

verus! {

#[derive(Debug)]
pub enum AppError {
    /// A downstream call could not complete.
    Hyper(hyper::Error),
    /// An outbound request could not be assembled.
    Http(hyper::http::Error),
    /// A generic application failure, with no detail.
    Application,
    /// A handler terminated abnormally; the text says how.
    ApplicationPanic(String),
}

/// The text that stands for a termination payload that carries no text.
pub open spec fn opaque_payload_text() -> Seq<char> {
    "Box<Any>"@
}

impl Default for AppError {
    fn default() -> (r: AppError)
        ensures
            r is Application,
    {
        AppError::Application
    }
}

impl From<hyper::Error> for AppError {
    fn from(e: hyper::Error) -> (r: AppError) {
        AppError::Hyper(e)
    }
}

impl vstd::std_specs::convert::FromSpecImpl<hyper::Error> for AppError {
    open spec fn obeys_from_spec() -> bool {
        true
    }

    open spec fn from_spec(e: hyper::Error) -> AppError {
        AppError::Hyper(e)
    }
}

impl From<hyper::http::Error> for AppError {
    fn from(e: hyper::http::Error) -> (r: AppError) {
        AppError::Http(e)
    }
}

impl vstd::std_specs::convert::FromSpecImpl<hyper::http::Error> for AppError {
    open spec fn obeys_from_spec() -> bool {
        true
    }

    open spec fn from_spec(e: hyper::http::Error) -> AppError {
        AppError::Http(e)
    }
}

/// Relies on hyper::Error's `Display`: a message about the failure.
#[verifier::external_body]
fn hyper_error_text(e: &hyper::Error) -> (r: String) {
    e.to_string()
}

/// Relies on hyper::http::Error's `Display`: a message about the failure.
#[verifier::external_body]
fn http_error_text(e: &hyper::http::Error) -> (r: String) {
    e.to_string()
}

impl AppError {
    /// A description of the failure, for the server's own log.
    pub fn description(&self) -> (r: String)
        ensures
            self is Application ==> r@ == "Unspecified application error"@,
            self matches AppError::ApplicationPanic(d) ==> r@ == d@,
    {
        match self {
            AppError::Hyper(e) => hyper_error_text(e),
            AppError::Http(e) => http_error_text(e),
            AppError::Application => String::from_str("Unspecified application error"),
            AppError::ApplicationPanic(d) => d.clone(),
        }
    }
}

} // verus!

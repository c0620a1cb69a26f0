//! Maps a request path to the handler that serves it, by exact match.

use crate::reply::Reply;
use crate::text::same_text;
use vstd::prelude::*;

verus! {

#[derive(PartialEq, Eq, Structural, Clone, Copy, Debug)]
pub enum Route {
    Index,
    Failure,
    Multi,
    Port,
    Panic,
    Pause,
    Shutdown,
    NotFound,
}

/// The handler for `path` (the path alone: no method, no query string).
pub open spec fn route_of(path: Seq<char>) -> Route {
    if path == "/"@ {
        Route::Index
    } else if path == "/error"@ {
        Route::Failure
    } else if path == "/multi"@ {
        Route::Multi
    } else if path == "/port"@ {
        Route::Port
    } else if path == "/panic"@ {
        Route::Panic
    } else if path == "/pause"@ {
        Route::Pause
    } else if path == "/shutdown"@ {
        Route::Shutdown
    } else {
        Route::NotFound
    }
}

pub fn router(path: &str) -> (r: Route)
    ensures
        r == route_of(path@),
{
    if same_text(path, "/") {
        Route::Index
    } else if same_text(path, "/error") {
        Route::Failure
    } else if same_text(path, "/multi") {
        Route::Multi
    } else if same_text(path, "/port") {
        Route::Port
    } else if same_text(path, "/panic") {
        Route::Panic
    } else if same_text(path, "/pause") {
        Route::Pause
    } else if same_text(path, "/shutdown") {
        Route::Shutdown
    } else {
        Route::NotFound
    }
}

/// The reply for a path that no handler serves.
pub fn not_found() -> (r: Reply)
    ensures
        r.is(404, "Not found"@),
{
    Reply::new(404, "Not found")
}

} // verus!

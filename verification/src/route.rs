//! Dispatch by exact request path.

use vstd::prelude::*;
use crate::text::str_eq;

verus! {

/// Where a request goes.
#[derive(Clone, Copy, Debug, PartialEq, Eq, Structural)]
pub enum Route {
    /// `/update`: the long-poll reload check.
    LongPoll,
    /// `/`: the rendered document.
    Page,
    /// `/style.css`: the embedded stylesheet.
    Stylesheet,
    /// Any other path while static serving is on.
    StaticAsset,
    /// Any other path while static serving is off.
    NotFound,
}

/// The dispatch rule: exact path match, with every unknown path either a
/// static-file candidate or a 404, depending on the static-serving flag.
pub open spec fn route_spec(path: Seq<char>, serve_static: bool) -> Route {
    if path == "/update"@ {
        Route::LongPoll
    } else if path == "/"@ {
        Route::Page
    } else if path == "/style.css"@ {
        Route::Stylesheet
    } else if serve_static {
        Route::StaticAsset
    } else {
        Route::NotFound
    }
}

/// Dispatches one request path.
pub fn route_request(path: &str, serve_static: bool) -> (r: Route)
    ensures
        r == route_spec(path@, serve_static),
{
    if str_eq(path, "/update") {
        Route::LongPoll
    } else if str_eq(path, "/") {
        Route::Page
    } else if str_eq(path, "/style.css") {
        Route::Stylesheet
    } else if serve_static {
        Route::StaticAsset
    } else {
        Route::NotFound
    }
}

} // verus!

//! Routes: what the path of a request target selects.

use crate::target::{path_of, path_part, same_bytes, wait_millis, wait_of};
use vstd::prelude::*;
use vstd::string::StringSliceAdditionalSpecFns;

verus! {

/// What a request target selects.
#[derive(Debug, Clone, Copy, PartialEq, Eq, Structural)]
pub enum Route {
    /// Capture the window.
    Screenshot,
    /// Run the body of the request as a script; with a `wait`, capture the
    /// window that many milliseconds after the script has run.
    Eval { wait: Option<u64> },
    /// Anything else: tell the client what the server offers.
    Usage,
}

/// The path that asks for a capture, as bytes.
pub open spec fn screenshot_path() -> Seq<u8> {
    "/screenshot".spec_bytes()
}

/// The path that asks for a script to be run, as bytes.
pub open spec fn eval_path() -> Seq<u8> {
    "/eval".spec_bytes()
}

/// The route of a target. Only the path decides; it must match exactly. The
/// query string matters to `/eval` alone, for the delay.
pub open spec fn route_of(target: Seq<u8>) -> Route {
    let path = path_part(target);
    if path == screenshot_path() {
        Route::Screenshot
    } else if path == eval_path() {
        Route::Eval { wait: wait_millis(target) }
    } else {
        Route::Usage
    }
}

/// Reads the route of `target`.
pub fn route(target: &[u8]) -> (route: Route)
    ensures
        route == route_of(target@),
{
    let path = path_of(target);
    if same_bytes(path, "/screenshot".as_bytes()) {
        Route::Screenshot
    } else if same_bytes(path, "/eval".as_bytes()) {
        Route::Eval { wait: wait_of(target) }
    } else {
        Route::Usage
    }
}

} // verus!

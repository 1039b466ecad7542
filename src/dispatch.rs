//! What a routed request needs: an immediate answer, or a collaborator call.
use crate::http::{envelope_pairs, internal_error, is_internal_error, pairs, preflight};
use crate::http::{HttpResponse, Method, STATUS_OK};
use crate::routing::{route, route_spec, Route, RouteView};
use vstd::prelude::*;
use vstd::string::*;

verus! {

pub open spec fn unsupported_path_message(path: Seq<char>) -> Seq<char> {
    "unsupported uri path: "@ + path
}

pub open spec fn unsupported_method_message() -> Seq<char> {
    "Invalid HTTP Method."@
}

pub open spec fn not_found_message(path: Seq<char>) -> Seq<char> {
    "route not found: "@ + path
}

/// Whether a route needs a call into the inference engine or the file store.
pub open spec fn needs_collaborator(r: RouteView) -> bool {
    match r {
        RouteView::Speech | RouteView::Upload | RouteView::List => true,
        RouteView::Retrieve { .. } | RouteView::RetrieveContent { .. } => true,
        RouteView::Download { .. } | RouteView::Delete { .. } => true,
        _ => false,
    }
}

/// Whether `resp` is the answer to a pre-flight request: status 200, the
/// envelope headers, and no body.
pub open spec fn is_preflight_answer(resp: HttpResponse) -> bool {
    &&& resp.status == STATUS_OK
    &&& pairs(resp.headers@) == envelope_pairs("application/json"@)
    &&& resp.body is Empty
}

/// Whether `resp` is the immediate answer owed to the route `r`: nothing for
/// a route that needs a collaborator; for the others, an empty success to a
/// pre-flight request and an internal error that says what was refused.
pub open spec fn is_immediate_answer(r: RouteView, resp: Option<HttpResponse>) -> bool {
    &&& (resp is None <==> needs_collaborator(r))
    &&& match r {
        RouteView::Preflight => resp matches Some(a) && is_preflight_answer(a),
        RouteView::UnsupportedPath { path } => resp matches Some(a) && is_internal_error(
            a,
            unsupported_path_message(path),
        ),
        RouteView::UnsupportedMethod => resp matches Some(a) && is_internal_error(
            a,
            unsupported_method_message(),
        ),
        RouteView::NotFound { path } => resp matches Some(a) && is_internal_error(
            a,
            not_found_message(path),
        ),
        _ => true,
    }
}

/// The answer to a route that needs no collaborator, or `None` for a route
/// that does.
pub fn immediate_response(r: &Route) -> (resp: Option<HttpResponse>)
    ensures
        is_immediate_answer(r@, resp),
{
    match r {
        Route::Preflight => Some(preflight()),
        Route::UnsupportedPath { path } => {
            let message = String::from_str("unsupported uri path: ").concat(path.as_str());
            Some(internal_error(message.as_str()))
        },
        Route::UnsupportedMethod => Some(internal_error("Invalid HTTP Method.")),
        Route::NotFound { path } => {
            let message = String::from_str("route not found: ").concat(path.as_str());
            Some(internal_error(message.as_str()))
        },
        _ => None,
    }
}

/// Routes a request and answers it at once where no collaborator is needed.
/// A pre-flight request, whatever its path, is answered here.
pub fn handle_request(method: Method, path: &str) -> (res: (Route, Option<HttpResponse>))
    ensures
        res.0@ == route_spec(method, path@),
        is_immediate_answer(res.0@, res.1),
        method == Method::Options ==> (res.1 matches Some(a) && is_preflight_answer(a)),
{
    let r = route(method, path);
    let resp = immediate_response(&r);
    (r, resp)
}

} // verus!

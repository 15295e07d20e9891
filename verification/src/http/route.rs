//! Routing of requests, and what is sent back.

use vstd::prelude::*;

use crate::http::error::{ApplicationError, RouteFailure};
use crate::text::same_text;

verus! {

/// A request, as far as routing reads it, with the rest of it as `body`.
#[derive(Debug)]
pub struct Request<B> {
    pub method: String,
    pub path: String,
    /// The query string of the URI, if it has one.
    pub query: Option<String>,
    pub body: B,
}

/// A response of the API itself.
#[derive(Debug, Clone, PartialEq, Eq)]
pub struct Response {
    pub status: u16,
    pub content_type: Option<String>,
    pub body: String,
}

/// What became of a request that was offered to the write endpoint.
pub enum RequestOrResponse<B, R> {
    /// It was no write, and is handed back.
    Request(Request<B>),
    /// It was a write, and this is its response.
    Response(R),
}

/// Where a request goes.
pub enum Route<B, R> {
    /// Nowhere: it has its response.
    Response(R),
    /// To the delete endpoint.
    Delete(Request<B>),
    /// To the query endpoint.
    Query(Request<B>),
}

/// Where a request goes, by its method and path, once it has been offered to
/// the write endpoint.
pub open spec fn routed<B, R>(written: Result<RequestOrResponse<B, R>, RouteFailure>) -> Result<
    Route<B, R>,
    ApplicationError,
> {
    match written {
        Err(source) => Err(ApplicationError::WriteError { source }),
        Ok(RequestOrResponse::Response(response)) => Ok(Route::Response(response)),
        Ok(RequestOrResponse::Request(req)) => if req.method@ == "POST"@ && req.path@
            == "/api/v2/delete"@ {
            Ok(Route::Delete(req))
        } else if req.method@ == "GET"@ && req.path@ == "/api/v3/query"@ {
            Ok(Route::Query(req))
        } else {
            Err(ApplicationError::RouteNotFound { method: req.method, path: req.path })
        },
    }
}

/// Routes a request that has been offered to the write endpoint.
pub fn route_request<B, R>(written: Result<RequestOrResponse<B, R>, RouteFailure>) -> (route: Result<
    Route<B, R>,
    ApplicationError,
>)
    ensures
        route == routed(written),
{
    match written {
        Err(source) => Err(ApplicationError::WriteError { source }),
        Ok(RequestOrResponse::Response(response)) => Ok(Route::Response(response)),
        Ok(RequestOrResponse::Request(req)) => {
            if same_text(&req.method, "POST") && same_text(&req.path, "/api/v2/delete") {
                Ok(Route::Delete(req))
            } else if same_text(&req.method, "GET") && same_text(&req.path, "/api/v3/query") {
                Ok(Route::Query(req))
            } else {
                Err(ApplicationError::RouteNotFound { method: req.method, path: req.path })
            }
        },
    }
}

} // verus!

//! Responses, the route table and the liveness probe.
use vstd::prelude::*;

use crate::text::same_text;

verus! {

pub const STATUS_OK: u16 = 200;

pub const STATUS_BAD_REQUEST: u16 = 400;

pub const STATUS_NOT_FOUND: u16 = 404;

pub const STATUS_METHOD_NOT_ALLOWED: u16 = 405;

pub const STATUS_INTERNAL_SERVER_ERROR: u16 = 500;

/// What a handler answers: a status code and a body.
pub struct Response {
    pub status: u16,
    pub body: Vec<u8>,
}

impl Response {
    /// A response with the given status and an empty body.
    pub fn empty(status: u16) -> (r: Response)
        ensures
            r.status == status,
            r.body@.len() == 0,
    {
        Response { status, body: Vec::new() }
    }

    /// Whether the status is in the 2xx class.
    pub fn is_success(&self) -> (r: bool)
        ensures
            r == (200 <= self.status < 300),
    {
        200 <= self.status && self.status < 300
    }

    /// The number of bytes in the body.
    pub fn content_length(&self) -> (r: usize)
        ensures
            r == self.body@.len(),
    {
        self.body.len()
    }
}

/// The request methods that the route table tells apart.
#[derive(Clone, Copy, Debug, PartialEq, Eq, Structural)]
pub enum Method {
    Get,
    Post,
    Other,
}

/// Where a request goes.
#[derive(Clone, Copy, Debug, PartialEq, Eq, Structural)]
pub enum Route {
    /// `GET /health_check`
    HealthCheck,
    /// `POST /subscriptions`
    Subscribe,
    /// A known path asked with a method it does not serve.
    MethodNotAllowed,
    /// No such path.
    NotFound,
}

pub open spec fn health_check_path() -> Seq<char> {
    seq!['/', 'h', 'e', 'a', 'l', 't', 'h', '_', 'c', 'h', 'e', 'c', 'k']
}

pub open spec fn subscriptions_path() -> Seq<char> {
    seq!['/', 's', 'u', 'b', 's', 'c', 'r', 'i', 'p', 't', 'i', 'o', 'n', 's']
}

/// The route table: each known path with the one method it serves.
pub open spec fn route_of(method: Method, path: Seq<char>) -> Route {
    if path == health_check_path() {
        if method == Method::Get {
            Route::HealthCheck
        } else {
            Route::MethodNotAllowed
        }
    } else if path == subscriptions_path() {
        if method == Method::Post {
            Route::Subscribe
        } else {
            Route::MethodNotAllowed
        }
    } else {
        Route::NotFound
    }
}

/// Finds the handler for a method and a path.
pub fn route(method: Method, path: &str) -> (r: Route)
    ensures
        r == route_of(method, path@),
{
    proof {
        reveal_strlit("/health_check");
        reveal_strlit("/subscriptions");
    }
    assert("/health_check"@ =~= health_check_path());
    assert("/subscriptions"@ =~= subscriptions_path());
    if same_text(path, "/health_check") {
        if method == Method::Get {
            Route::HealthCheck
        } else {
            Route::MethodNotAllowed
        }
    } else if same_text(path, "/subscriptions") {
        if method == Method::Post {
            Route::Subscribe
        } else {
            Route::MethodNotAllowed
        }
    } else {
        Route::NotFound
    }
}

/// The answer for a route that has no handler of its own.
pub fn unrouted_response(r: Route) -> (resp: Response)
    requires
        r == Route::MethodNotAllowed || r == Route::NotFound,
    ensures
        resp.status == (if r == Route::NotFound { STATUS_NOT_FOUND } else { STATUS_METHOD_NOT_ALLOWED }),
        resp.body@.len() == 0,
{
    if r == Route::NotFound {
        Response::empty(STATUS_NOT_FOUND)
    } else {
        Response::empty(STATUS_METHOD_NOT_ALLOWED)
    }
}

/// The liveness probe: always success, with an empty body. It takes no
/// store, so the store's health cannot change its answer.
pub fn health_check() -> (r: Response)
    ensures
        r.status == STATUS_OK,
        r.body@.len() == 0,
{
    Response::empty(STATUS_OK)
}

} // verus!

//! A middleware that lets every request through and traces the ones with a
//! handled method once they are answered.

use vstd::prelude::*;
use crate::http::Method;

verus! {

/// The middleware factory.
pub struct RequestHandler;

impl RequestHandler {
    /// The factory.
    pub fn new() -> (r: Self) {
        RequestHandler
    }

    /// The middleware around `service`.
    pub fn new_transform<S>(&self, service: S) -> (r: RequestHandlerMiddleware<S>)
        ensures
            r.inner() == service,
    {
        RequestHandlerMiddleware { service }
    }
}

/// The middleware: it passes each request to the service it wraps.
pub struct RequestHandlerMiddleware<S> {
    service: S,
}

impl<S> RequestHandlerMiddleware<S> {
    /// The wrapped service.
    pub closed spec fn inner(&self) -> S {
        self.service
    }

    /// The wrapped service.
    pub fn service(&self) -> (r: &S)
        ensures
            *r == self.inner(),
    {
        &self.service
    }
}

/// Whether the middleware traces an answered request with this method:
/// `GET`, `PUT`, `DELETE` and `HEAD` are traced, other methods are not.
pub fn traces(method: Method) -> (r: bool)
    ensures
        r == (method != Method::Other),
{
    match method {
        Method::Other => false,
        _ => true,
    }
}

} // verus!

//! Handlers: what answers a request once the router has chosen a route, and
//! what answers when it could choose none.

use vstd::prelude::*;

use crate::message::{Request, Response, ResponseView};
use crate::status::{StatusCode, METHOD_NOT_ALLOWED, NOT_FOUND, NOT_IMPLEMENTED};

verus! {

/// The handler of a route, or one of the handlers that the router itself
/// designates.
///
/// `H` is the type of the callables that routes are given: a function or a
/// closure that takes the request and the state of the route.
#[derive(Debug, PartialEq, Eq)]
pub enum Handler<H> {
    /// Answers that the route is not implemented. A route has this handler
    /// until it is given one.
    NotImplemented,
    /// Answers that no route knows the path.
    NotFound,
    /// Answers that the path is known, but not with the request's method.
    MethodNotSupported,
    /// A handler that a route was given.
    Custom(H),
}

impl<H: Copy> Clone for Handler<H> {
    fn clone(&self) -> (copy: Self)
        ensures
            copy == *self,
    {
        *self
    }
}

impl<H: Copy> Copy for Handler<H> {

}

/// What `default_404_handler` answers.
pub open spec fn not_found_answer() -> ResponseView {
    Response::plain_text_view(NOT_FOUND as int, "page not found"@)
}

/// What `method_not_supported_handler` answers.
pub open spec fn method_not_supported_answer() -> ResponseView {
    Response::plain_text_view(METHOD_NOT_ALLOWED as int, "method not supported"@)
}

/// What `not_implemented_handler` answers.
pub open spec fn not_implemented_answer() -> ResponseView {
    Response::plain_text_view(NOT_IMPLEMENTED as int, "not implemented"@)
}

/// Answers 404 to every request.
pub fn default_404_handler<T>(request: Request, state: Option<T>) -> (response: Response)
    ensures
        response@ == not_found_answer(),
{
    Response::plain_text(StatusCode::not_found(), "page not found")
}

/// Answers 405 to every request.
pub fn method_not_supported_handler<T>(request: Request, state: Option<T>) -> (response: Response)
    ensures
        response@ == method_not_supported_answer(),
{
    Response::plain_text(StatusCode::method_not_allowed(), "method not supported")
}

/// Answers 501 to every request.
pub fn not_implemented_handler<T>(request: Request, state: Option<T>) -> (response: Response)
    ensures
        response@ == not_implemented_answer(),
{
    Response::plain_text(StatusCode::not_implemented(), "not implemented")
}

impl<H> Handler<H> {
    /// Whether the handler may be called with `request` and `state`. The
    /// designated handlers accept everything.
    pub open spec fn accepts<T>(self, request: Request, state: Option<T>) -> bool where
        H: Fn(Request, Option<T>) -> Response,
     {
        match self {
            Handler::Custom(h) => call_requires(h, (request, state)),
            _ => true,
        }
    }

    /// Whether `response` is an answer of the handler to `request` and
    /// `state`.
    pub open spec fn answers<T>(self, request: Request, state: Option<T>, response: Response) -> bool where
        H: Fn(Request, Option<T>) -> Response,
     {
        match self {
            Handler::NotImplemented => response@ == not_implemented_answer(),
            Handler::NotFound => response@ == not_found_answer(),
            Handler::MethodNotSupported => response@ == method_not_supported_answer(),
            Handler::Custom(h) => call_ensures(h, (request, state), response),
        }
    }

    /// Calls the handler.
    pub fn call<T>(&self, request: Request, state: Option<T>) -> (response: Response) where
        H: Fn(Request, Option<T>) -> Response,

        requires
            self.accepts(request, state),
        ensures
            self.answers(request, state, response),
    {
        match self {
            Handler::NotImplemented => not_implemented_handler(request, state),
            Handler::NotFound => default_404_handler(request, state),
            Handler::MethodNotSupported => method_not_supported_handler(request, state),
            Handler::Custom(h) => h(request, state),
        }
    }
}

} // verus!

//! The service: a router together with what answers when the router finds
//! no route.

use std::sync::Arc;
use vstd::prelude::*;

use crate::message::{Request, Response, ResponseView};
use crate::method::Method;
use crate::route::state_cloned;
use crate::router::Router;
use crate::status::{StatusCode, INTERNAL_SERVER_ERROR, METHOD_NOT_ALLOWED, NOT_FOUND};

verus! {

/// `Arc::clone` gives another handle on the value that `handle` holds: the
/// value itself is neither copied nor changed.
#[verifier::external_body]
fn share<A>(handle: &Arc<A>) -> (other: Arc<A>)
    ensures
        other == *handle,
{
    Arc::clone(handle)
}

/// What answers a request for which the router found no route.
///
/// `E` is the type of the callables that may take the place of the default:
/// a function or a closure from the status of the failure to a response.
#[derive(Debug, PartialEq, Eq)]
pub enum ErrorHandler<E> {
    /// Answers as [`default_error_handler`] does.
    Default,
    /// A handler of the caller's.
    Custom(E),
}

impl<E: Copy> Clone for ErrorHandler<E> {
    fn clone(&self) -> (copy: Self)
        ensures
            copy == *self,
    {
        *self
    }
}

impl<E: Copy> Copy for ErrorHandler<E> {

}

/// What the default error handler answers to the status with the number
/// `status`: a fixed text, with 404 for 404 and with 500 for every other
/// status.
pub open spec fn default_error_answer(status: int) -> ResponseView {
    Response::sized_view(
        if status == NOT_FOUND {
            NOT_FOUND as int
        } else {
            INTERNAL_SERVER_ERROR as int
        },
        "Routing error: page not found"@,
    )
}

impl<E: Fn(StatusCode) -> Response> ErrorHandler<E> {
    /// Whether the handler may be called with the status that has the
    /// number `status`. The default accepts every status.
    pub open spec fn accepts(self, status: int) -> bool {
        match self {
            ErrorHandler::Default => true,
            ErrorHandler::Custom(e) => forall|code: StatusCode|
                code@ == status ==> call_requires(e, (code,)),
        }
    }

    /// Whether `response` is an answer of the handler to the status that
    /// has the number `status`.
    pub open spec fn answers(self, status: int, response: Response) -> bool {
        match self {
            ErrorHandler::Default => response@ == default_error_answer(status),
            ErrorHandler::Custom(e) => exists|code: StatusCode|
                code@ == status && call_ensures(e, (code,), response),
        }
    }

    /// Calls the handler.
    pub fn call(&self, status: StatusCode) -> (response: Response)
        requires
            self.accepts(status@),
        ensures
            self.answers(status@, response),
    {
        match self {
            ErrorHandler::Default => default_error_handler(status),
            ErrorHandler::Custom(e) => e(status),
        }
    }
}

/// Answers a failed search with a fixed text. A search that found no
/// pattern for the path is answered with 404. Every other status is
/// answered with 500, so a request that was refused for its method is
/// answered as an internal error, not with 405: a service that is to answer
/// 405 needs an error handler of its own.
pub fn default_error_handler(status_code: StatusCode) -> (response: Response)
    ensures
        response@ == default_error_answer(status_code@),
{
    let answer_status = if status_code.as_u16() == NOT_FOUND {
        StatusCode::not_found()
    } else {
        StatusCode::internal_server_error()
    };
    Response::sized(answer_status, "Routing error: page not found")
}

/// A router as a service: each request is answered by the handler of the
/// route that serves it, or by the error handler where no route does.
///
/// The table is shared by the service and its clones.
#[derive(Debug)]
pub struct RouterService<H, T, E> {
    pub router: Arc<Router<H, T>>,
    pub error_handler: ErrorHandler<E>,
}

impl<H, T, E> RouterService<H, T, E> {
    /// A service on `router` that answers failures as
    /// [`default_error_handler`] does.
    pub fn new(router: Router<H, T>) -> (service: RouterService<H, T, E>)
        ensures
            *service.router == router,
            service.error_handler == ErrorHandler::<E>::Default,
    {
        RouterService { router: Arc::new(router), error_handler: ErrorHandler::Default }
    }
}

impl<H, T, E: Copy> Clone for RouterService<H, T, E> {
    /// Another service on the same table, with the same error handler.
    fn clone(&self) -> (duplicate: Self)
        ensures
            duplicate == *self,
    {
        RouterService { router: share(&self.router), error_handler: self.error_handler }
    }
}

impl<H, T, E: Copy> RouterService<H, T, E> {
    /// A service for one more connection: a clone of this one.
    pub fn new_service(&self) -> (duplicate: RouterService<H, T, E>)
        ensures
            duplicate == *self,
    {
        self.clone()
    }
}

impl<H, T, E> RouterService<H, T, E> {
    /// A service and its duplicate go on sharing one table, whatever
    /// becomes of the error handler of either. Let `duplicate` be a clone
    /// of `service`, and let its error handler be replaced by
    /// `replacement`. Then `service` has the error handler that it had, and
    /// both still know the same paths and answer each request by the route
    /// at the same position.
    pub proof fn lemma_duplicates_share_the_table(
        service: Self,
        duplicate: Self,
        replacement: ErrorHandler<E>,
        method: Method,
        path: Seq<char>,
    )
        requires
            duplicate == service,
        ensures
            ({
                let changed = RouterService { error_handler: replacement, ..duplicate };
                &&& changed.error_handler == replacement
                &&& service.error_handler == duplicate.error_handler
                &&& changed.router@ == service.router@
                &&& changed.router.knows_path(path) == service.router.knows_path(path)
                &&& changed.router.offers(method, path) == service.router.offers(method, path)
                &&& forall|i: int|
                    changed.router.selects(method, path, i) == service.router.selects(
                        method,
                        path,
                        i,
                    )
            }),
    {
    }
}

impl<H, T, E> RouterService<H, T, E> where
    H: Copy + Fn(Request, Option<T>) -> Response,
    T: Clone,
    E: Fn(StatusCode) -> Response,
 {
    /// Whether the service may be called with `request`: every handler of
    /// the table accepts the request, whatever the state, and the error
    /// handler accepts the two statuses of a failed search.
    pub open spec fn accepts(&self, request: Request) -> bool {
        &&& forall|i: int, state: Option<T>|
            0 <= i < self.router@.len() ==> #[trigger] self.router@[i].handler.accepts(
                request,
                state,
            )
        &&& self.error_handler.accepts(NOT_FOUND as int)
        &&& self.error_handler.accepts(METHOD_NOT_ALLOWED as int)
    }

    /// Whether `response` is an answer of the service to `request`: an
    /// answer of the handler of the route that serves the request, called
    /// with a clone of that route's state; or, where no route serves it, an
    /// answer of the error handler to 404 (no pattern matches the path) or
    /// to 405 (some do, but not with the method).
    pub open spec fn answers(&self, request: Request, response: Response) -> bool {
        if self.router.offers(request.method, request.path@) {
            exists|i: int, state: Option<T>|
                {
                    &&& self.router.selects(request.method, request.path@, i)
                    &&& state_cloned(self.router@[i].state, state)
                    &&& #[trigger] self.router@[i].handler.answers(request, state, response)
                }
        } else if self.router.knows_path(request.path@) {
            self.error_handler.answers(METHOD_NOT_ALLOWED as int, response)
        } else {
            self.error_handler.answers(NOT_FOUND as int, response)
        }
    }

    /// Answers a request for `request_path` whose method is none that a
    /// route can have. No route serves such a request, so the error handler
    /// answers: to 405 where some pattern matches the path, to 404 where
    /// none does.
    pub fn refuse(&self, request_path: &str) -> (response: Response)
        requires
            self.error_handler.accepts(NOT_FOUND as int),
            self.error_handler.accepts(METHOD_NOT_ALLOWED as int),
        ensures
            self.error_handler.answers(
                if self.router.knows_path(request_path@) {
                    METHOD_NOT_ALLOWED as int
                } else {
                    NOT_FOUND as int
                },
                response,
            ),
    {
        let matching_routes = self.router.find_matching_routes(request_path);
        proof {
            self.router.lemma_matching_is_sound(request_path@);
        }
        let status_code = if matching_routes.len() == 0 {
            StatusCode::not_found()
        } else {
            StatusCode::method_not_allowed()
        };
        self.error_handler.call(status_code)
    }

    /// Answers `request`. The handler of the route that serves the request
    /// is called with the request and a clone of the state of the route,
    /// and what it answers is returned as it is. Where no route serves the
    /// request, the error handler is called with the status of the failed
    /// search.
    pub fn call(&self, request: Request) -> (response: Response)
        requires
            self.accepts(request),
        ensures
            self.answers(request, response),
    {
        match self.router.find_handler(&request) {
            Ok((handler, state)) => {
                let ghost i = choose|i: int|
                    {
                        &&& self.router.selects(request.method, request.path@, i)
                        &&& handler == self.router@[i].handler
                        &&& state_cloned(self.router@[i].state, state)
                    };
                assert(self.router@[i].handler.accepts(request, state));
                let response = handler.call(request, state);
                assert(self.router@[i].handler.answers(request, state, response));
                response
            },
            Err(status_code) => self.error_handler.call(status_code),
        }
    }
}

} // verus!

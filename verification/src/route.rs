//! Routes, and the builder that makes one.

use vstd::prelude::*;
use vstd::string::*;

use crate::handlers::Handler;
use crate::method::Method;
use crate::path::{Path, PatternError};

verus! {

/// One binding of a method and a path pattern to a handler, with the state
/// that the handler is called with.
#[derive(Debug)]
pub struct Route<H, T> {
    /// The method that a request must have.
    pub method: Method,
    /// The pattern that the path of a request must match.
    pub path: Path,
    /// What answers the requests that the route serves.
    pub handler: Handler<H>,
    /// What the handler is given besides the request: a copy of this value
    /// for each call.
    pub state: Option<T>,
}

/// Whether `copy` is what cloning `state` may give: nothing for nothing,
/// and a clone of the value for a value.
pub open spec fn state_cloned<T: Clone>(state: Option<T>, copy: Option<T>) -> bool {
    match (state, copy) {
        (Some(a), Some(b)) => cloned(a, b),
        (None, None) => true,
        _ => false,
    }
}

/// The state that a search hands out is the state that the route was given,
/// for every type of state whose clones are equal to what they were cloned
/// from.
pub proof fn lemma_state_round_trip<T: Clone>(registered: Option<T>, handed_out: Option<T>)
    requires
        state_cloned(registered, handed_out),
        forall|a: T, b: T| cloned(a, b) ==> a == b,
    ensures
        handed_out == registered,
{
}

impl<H, T> Route<H, T> {
    /// Whether the route's pattern matches `path`.
    pub open spec fn matches_path(&self, path: Seq<char>) -> bool {
        self.path.matches(path)
    }

    /// Whether the route serves the requests for `path` with `method`: its
    /// pattern matches the path and its method is the request's.
    pub open spec fn serves(&self, method: Method, path: Seq<char>) -> bool {
        self.matches_path(path) && self.method == method
    }

    /// Whether `copy` is a copy of the route: the same method, the same
    /// pattern text and the same handler, and a clone of the state.
    pub open spec fn copies_to(&self, copy: Self) -> bool where T: Clone {
        &&& copy.method == self.method
        &&& self.path.same_as(copy.path)
        &&& copy.handler == self.handler
        &&& state_cloned(self.state, copy.state)
    }

    /// Whether the route is as `from` seeds it: the given method, the
    /// pattern written as `pattern`, the handler that answers "not
    /// implemented", and no state.
    pub open spec fn is_seed(&self, method: Method, pattern: Seq<char>) -> bool {
        &&& self.method == method
        &&& self.path.is_compiled_from(pattern)
        &&& self.handler == Handler::<H>::NotImplemented
        &&& self.state is None
    }

    /// Starts a route for `method` on a pattern that is compiled already.
    /// The route has the handler that answers "not implemented", and no
    /// state.
    pub fn with_path(method: Method, path: Path) -> (builder: RouteBuilder<H, T>)
        ensures
            builder@ == (Route::<H, T> {
                method,
                path,
                handler: Handler::NotImplemented,
                state: None,
            }),
    {
        RouteBuilder::new(Route { method, path, handler: Handler::NotImplemented, state: None })
    }

    /// Starts a route for `method` and the pattern `path`. The pattern is
    /// compiled here: one that does not compile is refused now, and no
    /// route is made of it.
    pub fn from(method: Method, path: &str) -> (res: Result<RouteBuilder<H, T>, PatternError>)
        ensures
            match res {
                Ok(builder) => builder@.is_seed(method, path@),
                Err(e) => e.pattern@ == path@,
            },
    {
        match Path::new(path) {
            Ok(path) => Ok(Route::with_path(method, path)),
            Err(e) => Err(e),
        }
    }

    /// Starts a route for OPTIONS requests.
    pub fn options(path: &str) -> (res: Result<RouteBuilder<H, T>, PatternError>)
        ensures
            match res {
                Ok(builder) => builder@.is_seed(Method::Options, path@),
                Err(e) => e.pattern@ == path@,
            },
    {
        Route::from(Method::Options, path)
    }

    /// Starts a route for GET requests.
    pub fn get(path: &str) -> (res: Result<RouteBuilder<H, T>, PatternError>)
        ensures
            match res {
                Ok(builder) => builder@.is_seed(Method::Get, path@),
                Err(e) => e.pattern@ == path@,
            },
    {
        Route::from(Method::Get, path)
    }

    /// Starts a route for POST requests.
    pub fn post(path: &str) -> (res: Result<RouteBuilder<H, T>, PatternError>)
        ensures
            match res {
                Ok(builder) => builder@.is_seed(Method::Post, path@),
                Err(e) => e.pattern@ == path@,
            },
    {
        Route::from(Method::Post, path)
    }

    /// Starts a route for PUT requests.
    pub fn put(path: &str) -> (res: Result<RouteBuilder<H, T>, PatternError>)
        ensures
            match res {
                Ok(builder) => builder@.is_seed(Method::Put, path@),
                Err(e) => e.pattern@ == path@,
            },
    {
        Route::from(Method::Put, path)
    }

    /// Starts a route for DELETE requests.
    pub fn delete(path: &str) -> (res: Result<RouteBuilder<H, T>, PatternError>)
        ensures
            match res {
                Ok(builder) => builder@.is_seed(Method::Delete, path@),
                Err(e) => e.pattern@ == path@,
            },
    {
        Route::from(Method::Delete, path)
    }

    /// Starts a route for HEAD requests.
    pub fn head(path: &str) -> (res: Result<RouteBuilder<H, T>, PatternError>)
        ensures
            match res {
                Ok(builder) => builder@.is_seed(Method::Head, path@),
                Err(e) => e.pattern@ == path@,
            },
    {
        Route::from(Method::Head, path)
    }

    /// Starts a route for TRACE requests.
    pub fn trace(path: &str) -> (res: Result<RouteBuilder<H, T>, PatternError>)
        ensures
            match res {
                Ok(builder) => builder@.is_seed(Method::Trace, path@),
                Err(e) => e.pattern@ == path@,
            },
    {
        Route::from(Method::Trace, path)
    }

    /// Starts a route for CONNECT requests.
    pub fn connect(path: &str) -> (res: Result<RouteBuilder<H, T>, PatternError>)
        ensures
            match res {
                Ok(builder) => builder@.is_seed(Method::Connect, path@),
                Err(e) => e.pattern@ == path@,
            },
    {
        Route::from(Method::Connect, path)
    }

    /// Starts a route for PATCH requests.
    pub fn patch(path: &str) -> (res: Result<RouteBuilder<H, T>, PatternError>)
        ensures
            match res {
                Ok(builder) => builder@.is_seed(Method::Patch, path@),
                Err(e) => e.pattern@ == path@,
            },
    {
        Route::from(Method::Patch, path)
    }

    /// The route that nothing was said about: GET on the pattern `/`, not
    /// implemented, without state.
    pub fn default() -> (res: Result<Route<H, T>, PatternError>)
        ensures
            match res {
                Ok(route) => route.is_seed(Method::Get, "/"@),
                Err(e) => e.pattern@ == "/"@,
            },
    {
        match Route::from(Method::Get, "/") {
            Ok(builder) => Ok(builder.route),
            Err(e) => Err(e),
        }
    }

    /// What `describe` writes.
    pub open spec fn description(&self) -> Seq<char> {
        "Route {method: "@ + self.method.name() + ", path: "@ + self.path@ + "}"@
    }

    /// The route in words: its method and its pattern.
    pub fn describe(&self) -> (text: String)
        ensures
            text@ == self.description(),
    {
        let mut text = String::from_str("Route {method: ");
        text.append(self.method.as_str());
        text.append(", path: ");
        text.append(self.path.as_str());
        text.append("}");
        text
    }
}

impl<H: Copy, T: Clone> Clone for Route<H, T> {
    /// A copy of the route: the same method, pattern and handler, and a
    /// clone of the state.
    fn clone(&self) -> (copy: Self)
        ensures
            self.copies_to(copy),
    {
        Route {
            method: self.method,
            path: self.path.clone(),
            handler: self.handler,
            state: self.state.clone(),
        }
    }
}

/// A route in the making: it has its method and pattern, and waits for its
/// state and its handler.
///
/// The view of a builder is the route as it stands.
#[derive(Debug)]
pub struct RouteBuilder<H, T> {
    route: Route<H, T>,
}

impl<H, T> View for RouteBuilder<H, T> {
    type V = Route<H, T>;

    closed spec fn view(&self) -> Route<H, T> {
        self.route
    }
}

impl<H, T> RouteBuilder<H, T> {
    /// A builder that goes on from `route`.
    pub fn new(route: Route<H, T>) -> (builder: RouteBuilder<H, T>)
        ensures
            builder@ == route,
    {
        RouteBuilder { route }
    }

    /// Gives the route its state. State given earlier is replaced.
    pub fn with_state(self, state: T) -> (builder: RouteBuilder<H, T>)
        ensures
            builder@ == (Route { state: Some(state), ..self@ }),
    {
        let mut route = self.route;
        route.state = Some(state);
        RouteBuilder { route }
    }

    /// Gives the route its handler, and with it completes the route.
    pub fn using(self, handler: H) -> (route: Route<H, T>)
        ensures
            route == (Route { handler: Handler::Custom(handler), ..self@ }),
    {
        let mut route = self.route;
        route.handler = Handler::Custom(handler);
        route
    }
}

} // verus!

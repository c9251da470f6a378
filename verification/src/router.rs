//! The router: an ordered table of routes, and the search for the route
//! that serves a request.

use vstd::prelude::*;

use crate::handlers::Handler;
use crate::message::Request;
use crate::method::Method;
use crate::order::{
    is_first, lemma_filtered_comes_from, lemma_filtered_keeps, lemma_first_exists,
    lemma_first_is_unique, lemma_first_of_filtered, targets,
};
use crate::route::{lemma_state_round_trip, state_cloned, Route};
use crate::status::{StatusCode, METHOD_NOT_ALLOWED, NOT_FOUND};

verus! {

/// What a search of the table gives: the thing found, or the status that
/// says why nothing was.
pub type HttpResult<A> = Result<A, StatusCode>;

/// An ordered table of routes. It is made once, by a
/// [`RouterBuilder`](crate::builder::RouterBuilder), and never changes.
///
/// The view of a router is its table: the routes in the order in which they
/// were registered.
#[derive(Debug)]
pub struct Router<H, T> {
    routes: Vec<Route<H, T>>,
}

impl<H, T> View for Router<H, T> {
    type V = Seq<Route<H, T>>;

    closed spec fn view(&self) -> Seq<Route<H, T>> {
        self.routes@
    }
}

impl<H, T> Router<H, T> {
    /// The test "the route's pattern matches `path`".
    pub open spec fn by_path(path: Seq<char>) -> spec_fn(Route<H, T>) -> bool {
        |route: Route<H, T>| route.matches_path(path)
    }

    /// The test "the route has the method `method`".
    pub open spec fn by_method(method: Method) -> spec_fn(Route<H, T>) -> bool {
        |route: Route<H, T>| route.method == method
    }

    /// The test "the route serves requests for `path` with `method`".
    pub open spec fn by_request(method: Method, path: Seq<char>) -> spec_fn(Route<H, T>) -> bool {
        |route: Route<H, T>| route.serves(method, path)
    }

    /// The routes whose pattern matches `path`, whatever their method, in
    /// the order of the table.
    pub open spec fn matching(&self, path: Seq<char>) -> Seq<Route<H, T>> {
        self@.filter(Self::by_path(path))
    }

    /// Whether the pattern of some route matches `path`.
    pub open spec fn knows_path(&self, path: Seq<char>) -> bool {
        exists|i: int| 0 <= i < self@.len() && (#[trigger] self@[i]).matches_path(path)
    }

    /// Whether some route serves requests for `path` with `method`.
    pub open spec fn offers(&self, method: Method, path: Seq<char>) -> bool {
        exists|i: int| 0 <= i < self@.len() && (#[trigger] self@[i]).serves(method, path)
    }

    /// Whether the route at position `i` is the one that answers requests
    /// for `path` with `method`: it serves them, and no route before it
    /// does.
    pub open spec fn selects(&self, method: Method, path: Seq<char>, i: int) -> bool {
        &&& 0 <= i < self@.len()
        &&& self@[i].serves(method, path)
        &&& forall|j: int| 0 <= j < i ==> !(#[trigger] self@[j]).serves(method, path)
    }

    /// Whether `res` is what a search for `path` with `method` gives:
    ///
    /// - the handler of the route that answers, with a clone of its state;
    /// - 404 where no pattern matches the path;
    /// - 405 where some pattern matches the path, but no route serves the
    ///   request.
    pub open spec fn finds(
        &self,
        method: Method,
        path: Seq<char>,
        res: HttpResult<(Handler<H>, Option<T>)>,
    ) -> bool where T: Clone {
        match res {
            Ok((handler, state)) => exists|i: int|
                {
                    &&& self.selects(method, path, i)
                    &&& handler == self@[i].handler
                    &&& state_cloned(self@[i].state, state)
                },
            Err(status) => if self.knows_path(path) {
                !self.offers(method, path) && status@ == METHOD_NOT_ALLOWED
            } else {
                status@ == NOT_FOUND
            },
        }
    }

    /// Whether `k` is the position of the earliest of `routes` that has the
    /// method `method`.
    pub open spec fn is_first_with_method(routes: Seq<&Route<H, T>>, method: Method, k: int) -> bool {
        &&& 0 <= k < routes.len()
        &&& routes[k].method == method
        &&& forall|j: int| 0 <= j < k ==> (#[trigger] routes[j]).method != method
    }

    pub(crate) fn from_routes(routes: Vec<Route<H, T>>) -> (router: Router<H, T>)
        ensures
            router@ == routes@,
    {
        Router { routes }
    }

    /// The routes whose pattern matches `request_path`, in the order of the
    /// table. The method of a route plays no part.
    pub fn find_matching_routes(&self, request_path: &str) -> (found: Vec<&Route<H, T>>)
        ensures
            targets(found@) == self.matching(request_path@),
    {
        let ghost keep = Self::by_path(request_path@);
        let mut found: Vec<&Route<H, T>> = Vec::new();
        let mut i: usize = 0;
        proof {
            assert(self@.take(0) =~= Seq::empty());
            Seq::<Route<H, T>>::empty().lemma_filter_len(keep);
            assert(targets(found@) =~= self@.take(0).filter(keep));
        }
        while i < self.routes.len()
            invariant
                i <= self.routes.len(),
                self@ == self.routes@,
                keep == Self::by_path(request_path@),
                targets(found@) == self@.take(i as int).filter(keep),
            decreases self.routes.len() - i,
        {
            let route = &self.routes[i];
            let ghost before = found@;
            if route.path.is_match(request_path) {
                found.push(route);
                proof {
                    assert(targets(found@) =~= targets(before).push(*route));
                }
            }
            proof {
                assert(self@.take(i + 1) =~= self@.take(i as int).push(*route));
                self@.take(i as int).lemma_filter_push(*route, keep);
            }
            i += 1;
        }
        proof {
            assert(self@.take(i as int) =~= self@);
        }
        found
    }
}

impl<H: Copy, T: Clone> Router<H, T> {
    /// The handler and the state of the earliest of `routes` that has the
    /// method `method`, or `None` where none of them has it. The state is
    /// handed out as a clone.
    pub fn find_for_method(&self, routes: &[&Route<H, T>], method: &Method) -> (res: Option<
        (Handler<H>, Option<T>),
    >)
        ensures
            res is None <==> forall|k: int|
                0 <= k < routes@.len() ==> (#[trigger] routes@[k]).method != *method,
            res matches Some((handler, state)) ==> exists|k: int|
                {
                    &&& Self::is_first_with_method(routes@, *method, k)
                    &&& handler == routes@[k].handler
                    &&& state_cloned(routes@[k].state, state)
                },
    {
        let mut k: usize = 0;
        while k < routes.len()
            invariant
                k <= routes@.len(),
                forall|j: int| 0 <= j < k ==> (#[trigger] routes@[j]).method != *method,
            decreases routes@.len() - k,
        {
            let route = routes[k];
            if route.method == *method {
                let state = route.state.clone();
                assert(Self::is_first_with_method(routes@, *method, k as int));
                return Some((route.handler, state));
            }
            k += 1;
        }
        None
    }

    /// The handler that answers `request`, with a clone of the state of its
    /// route.
    ///
    /// The routes whose pattern matches the path of the request are taken
    /// in the order of the table, and the earliest of them that has the
    /// method of the request answers. Where no pattern matches the path,
    /// the search fails with 404; where some do, but none of those routes
    /// has the method, with 405.
    pub fn find_handler(&self, request: &Request) -> (res: HttpResult<(Handler<H>, Option<T>)>)
        ensures
            self.finds(request.method, request.path@, res),
            self.offers(request.method, request.path@) <==> res is Ok,
            !self.knows_path(request.path@) <==> (res matches Err(status) && status@ == NOT_FOUND),
            self.knows_path(request.path@) && !self.offers(request.method, request.path@) <==> (
            res matches Err(status) && status@ == METHOD_NOT_ALLOWED),
    {
        let matching_routes = self.find_matching_routes(request.path());
        let method = request.method();
        proof {
            self.lemma_matching_is_sound(request.path@);
        }
        if matching_routes.len() == 0 {
            Err(StatusCode::not_found())
        } else {
            match self.find_for_method(matching_routes.as_slice(), &method) {
                Some((handler, state)) => {
                    proof {
                        let k = choose|k: int|
                            {
                                &&& Self::is_first_with_method(matching_routes@, method, k)
                                &&& handler == matching_routes@[k].handler
                                &&& state_cloned(matching_routes@[k].state, state)
                            };
                        let i = self.lemma_first_of_matching(
                            matching_routes@,
                            method,
                            request.path@,
                            k,
                        );
                    }
                    Ok((handler, state))
                },
                None => {
                    proof {
                        self.lemma_none_of_matching(matching_routes@, method, request.path@);
                    }
                    Err(StatusCode::method_not_allowed())
                },
            }
        }
    }

    /// The handler that answers `request`, whatever the table holds: that
    /// of the route that `find_handler` finds, or, where it finds none, the
    /// handler that answers "not found" (no pattern matches the path) or
    /// "method not supported" (some do, but not with the method).
    pub fn find_handler_with_defaults(&self, request: &Request) -> (handler: Handler<H>)
        ensures
            !self.knows_path(request.path@) ==> handler == Handler::<H>::NotFound,
            self.knows_path(request.path@) && !self.offers(request.method, request.path@)
                ==> handler == Handler::<H>::MethodNotSupported,
            self.offers(request.method, request.path@) ==> exists|i: int|
                self.selects(request.method, request.path@, i) && handler == self@[i].handler,
    {
        let matching_routes = self.find_matching_routes(request.path());
        let method = request.method();
        proof {
            self.lemma_matching_is_sound(request.path@);
        }
        if matching_routes.len() == 0 {
            Handler::NotFound
        } else {
            match self.find_for_method(matching_routes.as_slice(), &method) {
                Some((handler, state)) => {
                    proof {
                        let k = choose|k: int|
                            {
                                &&& Self::is_first_with_method(matching_routes@, method, k)
                                &&& handler == matching_routes@[k].handler
                                &&& state_cloned(matching_routes@[k].state, state)
                            };
                        let i = self.lemma_first_of_matching(
                            matching_routes@,
                            method,
                            request.path@,
                            k,
                        );
                    }
                    handler
                },
                None => {
                    proof {
                        self.lemma_none_of_matching(matching_routes@, method, request.path@);
                    }
                    Handler::MethodNotSupported
                },
            }
        }
    }
}

impl<H: Copy, T: Clone> Clone for Router<H, T> {
    /// A copy of the table, route by route.
    fn clone(&self) -> (copy: Self)
        ensures
            self.copies_to(copy),
    {
        let mut routes: Vec<Route<H, T>> = Vec::new();
        let mut i: usize = 0;
        while i < self.routes.len()
            invariant
                i <= self.routes.len(),
                routes@.len() == i,
                forall|j: int| 0 <= j < i ==> (#[trigger] self.routes@[j]).copies_to(routes@[j]),
            decreases self.routes.len() - i,
        {
            routes.push(self.routes[i].clone());
            i += 1;
        }
        Router { routes }
    }
}

impl<H, T> Router<H, T> {
    /// Whether `copy` is a copy of the router: as many routes, and each a
    /// copy of the route at its position.
    pub open spec fn copies_to(&self, copy: Self) -> bool where T: Clone {
        &&& copy@.len() == self@.len()
        &&& forall|i: int| 0 <= i < self@.len() ==> (#[trigger] self@[i]).copies_to(copy@[i])
    }

    /// A copy of a router finds what the router finds: the same patterns
    /// are known, and each request is answered by the route at the same
    /// position.
    pub proof fn lemma_copy_resolves_alike(&self, copy: Self, method: Method, path: Seq<char>) where
        T: Clone,

        requires
            self.copies_to(copy),
        ensures
            copy.knows_path(path) == self.knows_path(path),
            copy.offers(method, path) == self.offers(method, path),
            forall|i: int| copy.selects(method, path, i) == self.selects(method, path, i),
    {
        assert forall|i: int| 0 <= i < self@.len() implies {
            &&& (#[trigger] copy@[i]).matches_path(path) == self@[i].matches_path(path)
            &&& copy@[i].serves(method, path) == self@[i].serves(method, path)
        } by {
            assert(self@[i].copies_to(copy@[i]));
        }
        if self.knows_path(path) {
            let i = choose|i: int| 0 <= i < self@.len() && (#[trigger] self@[i]).matches_path(path);
            assert(copy@[i].matches_path(path));
        }
        if self.offers(method, path) {
            let i = choose|i: int| 0 <= i < self@.len() && (#[trigger] self@[i]).serves(method, path);
            assert(copy@[i].serves(method, path));
        }
    }

    /// The route that answers a request is the earliest that serves it,
    /// whatever comes behind it. Let the routes at `a` and at `b` both match
    /// `path`, `a` before `b`, and let the route at `a` have the method of
    /// the request. Then a route answers, and it stands at `a` or before
    /// it, never at `b`, whether or not the route at `b` has the method
    /// too. Where no route before `a` serves the request, the route at `a`
    /// answers.
    pub proof fn lemma_first_match_wins(&self, method: Method, path: Seq<char>, a: int, b: int)
        requires
            0 <= a < b < self@.len(),
            self@[a].matches_path(path),
            self@[b].matches_path(path),
            self@[a].method == method,
        ensures
            exists|i: int| self.selects(method, path, i),
            forall|i: int| self.selects(method, path, i) ==> i <= a && i != b,
            (forall|j: int| 0 <= j < a ==> !(#[trigger] self@[j]).serves(method, path))
                ==> self.selects(method, path, a),
    {
        let serves = Self::by_request(method, path);
        let first = lemma_first_exists(self@, serves, a);
        assert(self.selects(method, path, first));
        assert forall|i: int| self.selects(method, path, i) implies i <= a && i != b by {
            lemma_first_is_unique(self@, serves, i, first);
        }
    }

    /// Every request that some route serves has exactly one route that
    /// answers it.
    pub proof fn lemma_one_route_answers(&self, method: Method, path: Seq<char>)
        requires
            self.offers(method, path),
        ensures
            exists|i: int| self.selects(method, path, i),
            forall|i: int, j: int|
                self.selects(method, path, i) && self.selects(method, path, j) ==> i == j,
    {
        let serves = Self::by_request(method, path);
        let some = choose|i: int| 0 <= i < self@.len() && (#[trigger] self@[i]).serves(method, path);
        let first = lemma_first_exists(self@, serves, some);
        assert(self.selects(method, path, first));
        assert forall|i: int, j: int|
            self.selects(method, path, i) && self.selects(method, path, j) implies i == j by {
            lemma_first_is_unique(self@, serves, i, j);
        }
    }

    /// A search of a table has one result. Two results of a search for the
    /// same path with the same method fail with the same status, or come
    /// from the same route: they hold its handler, and each holds a clone
    /// of its state.
    pub proof fn lemma_search_is_deterministic(
        &self,
        method: Method,
        path: Seq<char>,
        first: HttpResult<(Handler<H>, Option<T>)>,
        second: HttpResult<(Handler<H>, Option<T>)>,
    ) where T: Clone
        requires
            self.finds(method, path, first),
            self.finds(method, path, second),
        ensures
            match (first, second) {
                (Ok((handler1, state1)), Ok((handler2, state2))) => {
                    &&& handler1 == handler2
                    &&& exists|i: int|
                        {
                            &&& self.selects(method, path, i)
                            &&& state_cloned(self@[i].state, state1)
                            &&& state_cloned(self@[i].state, state2)
                        }
                },
                (Err(status1), Err(status2)) => status1 == status2,
                _ => false,
            },
    {
        let serves = Self::by_request(method, path);
        match (first, second) {
            (Ok((handler1, state1)), Ok((handler2, state2))) => {
                let i = choose|i: int|
                    {
                        &&& self.selects(method, path, i)
                        &&& handler1 == self@[i].handler
                        &&& state_cloned(self@[i].state, state1)
                    };
                let j = choose|j: int|
                    {
                        &&& self.selects(method, path, j)
                        &&& handler2 == self@[j].handler
                        &&& state_cloned(self@[j].state, state2)
                    };
                lemma_first_is_unique(self@, serves, i, j);
            },
            (Err(status1), Err(status2)) => {
                StatusCode::lemma_number_identifies(status1, status2);
            },
            (Ok((handler, state)), Err(_)) => {
                let i = choose|i: int|
                    {
                        &&& self.selects(method, path, i)
                        &&& handler == self@[i].handler
                        &&& state_cloned(self@[i].state, state)
                    };
                assert(self@[i].serves(method, path));
            },
            (Err(_), Ok((handler, state))) => {
                let i = choose|i: int|
                    {
                        &&& self.selects(method, path, i)
                        &&& handler == self@[i].handler
                        &&& state_cloned(self@[i].state, state)
                    };
                assert(self@[i].serves(method, path));
            },
        }
    }

    /// The state that a route was given comes back with its handler. Let
    /// the route at `i` answer the request, and let it hold the state
    /// `registered`. Then a search finds the handler of that route, with a
    /// state that is a clone of `registered`, and that is `registered`
    /// itself for every type of state whose clones are equal to what they
    /// were cloned from.
    pub proof fn lemma_state_comes_back(
        &self,
        method: Method,
        path: Seq<char>,
        i: int,
        registered: T,
        res: HttpResult<(Handler<H>, Option<T>)>,
    ) where T: Clone
        requires
            self.selects(method, path, i),
            self@[i].state == Some(registered),
            self.finds(method, path, res),
        ensures
            res matches Ok((handler, Some(state))) && handler == self@[i].handler && cloned(
                registered,
                state,
            ),
            (forall|a: T, b: T| cloned(a, b) ==> a == b) ==> res == Ok::<
                (Handler<H>, Option<T>),
                StatusCode,
            >((self@[i].handler, Some(registered))),
    {
        assert(self@[i].serves(method, path));
        match res {
            Ok((handler, state)) => {
                let j = choose|j: int|
                    {
                        &&& self.selects(method, path, j)
                        &&& handler == self@[j].handler
                        &&& state_cloned(self@[j].state, state)
                    };
                lemma_first_is_unique(self@, Self::by_request(method, path), i, j);
                if forall|a: T, b: T| cloned(a, b) ==> a == b {
                    lemma_state_round_trip(self@[i].state, state);
                }
            },
            Err(_) => {},
        }
    }

    /// Some route knows `path` exactly when the list of the routes that
    /// match it is not empty.
    pub proof fn lemma_matching_is_sound(&self, path: Seq<char>)
        ensures
            self.knows_path(path) <==> self.matching(path).len() > 0,
    {
        let keep = Self::by_path(path);
        if self.knows_path(path) {
            let i = choose|i: int| 0 <= i < self@.len() && (#[trigger] self@[i]).matches_path(path);
            let k = lemma_filtered_keeps(self@, keep, keep, i);
        }
        if self.matching(path).len() > 0 {
            let i = lemma_filtered_comes_from(self@, keep, 0);
            assert(self@[i].matches_path(path));
        }
    }

    /// Where none of the routes that match `path` has the method, no route
    /// serves the request.
    proof fn lemma_none_of_matching(&self, found: Seq<&Route<H, T>>, method: Method, path: Seq<char>)
        requires
            targets(found) == self.matching(path),
            forall|k: int| 0 <= k < found.len() ==> (#[trigger] found[k]).method != method,
        ensures
            !self.offers(method, path),
    {
        if self.offers(method, path) {
            let i = choose|i: int| 0 <= i < self@.len() && (#[trigger] self@[i]).serves(method, path);
            let k = lemma_filtered_keeps(self@, Self::by_path(path), Self::by_method(method), i);
            assert(targets(found)[k] == *found[k]);
            assert(found[k].method != method);
        }
    }

    /// The earliest of the routes that match `path` to have the method is
    /// the earliest route of the table that serves the request.
    proof fn lemma_first_of_matching(
        &self,
        found: Seq<&Route<H, T>>,
        method: Method,
        path: Seq<char>,
        k: int,
    ) -> (i: int)
        requires
            targets(found) == self.matching(path),
            Self::is_first_with_method(found, method, k),
        ensures
            self.selects(method, path, i),
            self@[i] == *found[k],
            self.offers(method, path),
    {
        let with_method = Self::by_method(method);
        assert(is_first(targets(found), with_method, k)) by {
            assert forall|j: int| 0 <= j < k implies !with_method(#[trigger] targets(found)[j]) by {
                assert(found[j].method != method);
            }
        }
        let i = lemma_first_of_filtered(self@, Self::by_path(path), with_method, k);
        assert(targets(found)[k] == *found[k]);
        assert forall|j: int| 0 <= j < i implies !(#[trigger] self@[j]).serves(method, path) by {
            let both = |a: Route<H, T>| Self::by_path(path)(a) && with_method(a);
            assert(!both(self@[j]));
        }
        i
    }
}

} // verus!

//! The builder of a router.

use vstd::prelude::*;

use crate::route::Route;
use crate::router::Router;

verus! {

/// Gathers routes in the order in which they are added, and makes a
/// [`Router`] of them.
///
/// The view of a builder is the sequence of the routes added so far.
#[derive(Debug)]
pub struct RouterBuilder<H, T> {
    routes: Vec<Route<H, T>>,
}

impl<H, T> View for RouterBuilder<H, T> {
    type V = Seq<Route<H, T>>;

    closed spec fn view(&self) -> Seq<Route<H, T>> {
        self.routes@
    }
}

impl<H, T> RouterBuilder<H, T> {
    /// A builder without routes.
    pub fn new() -> (builder: RouterBuilder<H, T>)
        ensures
            builder@ == Seq::<Route<H, T>>::empty(),
    {
        RouterBuilder { routes: Vec::new() }
    }

    /// Adds `route` behind the routes added so far.
    pub fn add(self, route: Route<H, T>) -> (builder: RouterBuilder<H, T>)
        ensures
            builder@ == self@.push(route),
    {
        let mut routes = self.routes;
        routes.push(route);
        RouterBuilder { routes }
    }

    /// Makes the router. Its table is the routes of the builder, in the
    /// order in which they were added.
    pub fn build(self) -> (router: Router<H, T>)
        ensures
            router@ == self@,
    {
        Router::from_routes(self.routes)
    }
}

impl<H, T> Default for RouterBuilder<H, T> {
    fn default() -> (builder: RouterBuilder<H, T>)
        ensures
            builder@ == Seq::<Route<H, T>>::empty(),
    {
        RouterBuilder::new()
    }
}

} // verus!

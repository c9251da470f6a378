//! A small HTTP request router.
//!
//! A [`Router`] is an ordered table of [`Route`]s. Each route binds an HTTP
//! method and a path pattern to a handler and an optional piece of state. A
//! request is served by the earliest route whose pattern matches the request
//! path and whose method equals the request method.
//!
//! Path patterns are regular expressions and are compiled by the `regex`
//! crate; everything else in this crate is verified.

pub mod builder;
pub mod handlers;
pub mod message;
pub mod method;
pub mod order;
pub mod path;
pub mod route;
pub mod router;
pub mod service;
pub mod status;

pub use self::builder::RouterBuilder;
pub use self::handlers::Handler;
pub use self::message::{Request, Response};
pub use self::method::Method;
pub use self::path::{Path, PatternError};
pub use self::route::{Route, RouteBuilder};
pub use self::router::{HttpResult, Router};
pub use self::service::{ErrorHandler, RouterService};
pub use self::status::StatusCode;

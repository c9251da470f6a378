use std::sync::Arc;

use hyper_router::service::default_error_handler;
use hyper_router::{
    ErrorHandler, Method, Request, Response, Route, RouterBuilder, RouterService, StatusCode,
};

type State = &'static str;
type H = fn(Request, Option<State>) -> Response;
type E = fn(StatusCode) -> Response;

fn h1(request: Request, state: Option<State>) -> Response {
    Response::plain_text(
        StatusCode::ok(),
        &format!("H1 {} {}", request.path, state.unwrap_or("-")),
    )
}

fn strict(status: StatusCode) -> Response {
    Response::sized(status, "refused")
}

fn service() -> RouterService<H, State, E> {
    RouterService::new(
        RouterBuilder::new()
            .add(Route::get("^/x$").unwrap().with_state("s").using(h1 as H))
            .add(Route::post("^/y$").unwrap().using(h1 as H))
            .build(),
    )
}

#[test]
fn default_error_handler_answers_404_for_not_found() {
    let response = default_error_handler(StatusCode::not_found());
    assert_eq!(response.status.as_u16(), 404);
    assert_eq!(response.body, "Routing error: page not found");
    assert_eq!(response.content_length, Some(29));
    assert_eq!(response.content_type, None);
}

#[test]
fn default_error_handler_answers_500_for_every_other_status() {
    for code in [405u16, 500, 501, 200, 100, 999] {
        let response = default_error_handler(StatusCode::from_u16(code).unwrap());
        assert_eq!(response.status.as_u16(), 500);
        assert_eq!(response.body, "Routing error: page not found");
        assert_eq!(response.content_length, Some(29));
    }
}

#[test]
fn service_calls_the_resolved_handler_with_request_and_state() {
    let service = service();
    let response = service.call(Request::new(Method::Get, "/x"));
    assert_eq!(response.status.as_u16(), 200);
    assert_eq!(response.body, "H1 /x s");
    assert_eq!(response.content_type, Some("text/plain".to_string()));
    let response = service.call(Request::new(Method::Post, "/y"));
    assert_eq!(response.body, "H1 /y -");
}

#[test]
fn service_answers_failures_with_the_default_error_handler() {
    let service = service();
    assert_eq!(service.error_handler, ErrorHandler::Default);
    let response = service.call(Request::new(Method::Get, "/nowhere"));
    assert_eq!(response.status.as_u16(), 404);
    assert_eq!(response.body, "Routing error: page not found");
    let response = service.call(Request::new(Method::Delete, "/x"));
    assert_eq!(response.status.as_u16(), 500);
    assert_eq!(response.body, "Routing error: page not found");
}

#[test]
fn method_not_allowed_reaches_a_custom_error_handler_as_405() {
    let mut service = service();
    service.error_handler = ErrorHandler::Custom(strict as E);
    let response = service.call(Request::new(Method::Delete, "/x"));
    assert_eq!(response.status.as_u16(), 405);
    assert_eq!(response.body, "refused");
    let response = service.call(Request::new(Method::Get, "/nowhere"));
    assert_eq!(response.status.as_u16(), 404);
    assert_eq!(response.body, "refused");
}

#[test]
fn error_handler_call_dispatches() {
    let default: ErrorHandler<E> = ErrorHandler::Default;
    assert_eq!(default.call(StatusCode::method_not_allowed()).status.as_u16(), 500);
    assert_eq!(default.clone().call(StatusCode::not_found()).status.as_u16(), 404);
    let custom: ErrorHandler<E> = ErrorHandler::Custom(strict);
    assert_eq!(custom.call(StatusCode::not_implemented()).status.as_u16(), 501);
}

#[test]
fn duplicates_are_independent_and_share_the_table() {
    let first = service();
    let mut duplicate = first.clone();
    assert!(Arc::ptr_eq(&first.router, &duplicate.router));
    duplicate.error_handler = ErrorHandler::Custom(strict as E);

    assert_eq!(first.error_handler, ErrorHandler::Default);
    let missing = Request::new(Method::Put, "/x");
    assert_eq!(first.call(missing.clone()).status.as_u16(), 500);
    assert_eq!(duplicate.call(missing).status.as_u16(), 405);

    for (method, path) in [(Method::Get, "/x"), (Method::Post, "/y")] {
        let a = first.call(Request::new(method, path));
        let b = duplicate.call(Request::new(method, path));
        assert_eq!(a.status, b.status);
        assert_eq!(a.body, b.body);
    }
    for (method, path) in [(Method::Get, "/x"), (Method::Get, "/y"), (Method::Get, "/z")] {
        let request = Request::new(method, path);
        let a = first.router.find_handler(&request).map(|(_, state)| state);
        let b = duplicate.router.find_handler(&request).map(|(_, state)| state);
        assert_eq!(a, b);
    }
}

#[test]
fn new_service_is_a_clone() {
    let mut first = service();
    first.error_handler = ErrorHandler::Custom(strict as E);
    let next = first.new_service();
    assert!(Arc::ptr_eq(&first.router, &next.router));
    assert_eq!(next.error_handler, first.error_handler);
    assert_eq!(next.call(Request::new(Method::Get, "/x")).body, "H1 /x s");
    assert_eq!(next.call(Request::new(Method::Head, "/x")).status.as_u16(), 405);
}

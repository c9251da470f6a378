use hyper_router::handlers::{
    default_404_handler, method_not_supported_handler, not_implemented_handler,
};
use hyper_router::{Handler, Method, Path, Request, Response, Route, StatusCode};

#[test]
fn method_names_round_trip() {
    let all = [
        (Method::Options, "OPTIONS"),
        (Method::Get, "GET"),
        (Method::Post, "POST"),
        (Method::Put, "PUT"),
        (Method::Delete, "DELETE"),
        (Method::Head, "HEAD"),
        (Method::Trace, "TRACE"),
        (Method::Connect, "CONNECT"),
        (Method::Patch, "PATCH"),
    ];
    for (method, name) in all {
        assert_eq!(method.as_str(), name);
        assert_eq!(Method::from_bytes(name.as_bytes()), Some(method));
    }
}

#[test]
fn unknown_method_names_are_refused() {
    for name in ["", "get", "GETT", "GE", "PROPFIND", "POST ", " PUT", "PATCHY", "OPTION"] {
        assert_eq!(Method::from_bytes(name.as_bytes()), None);
    }
    assert_eq!(Method::from_bytes(&[0x47, 0x45, 0xff]), None);
}

#[test]
fn status_numbers() {
    assert_eq!(StatusCode::ok().as_u16(), 200);
    assert_eq!(StatusCode::not_found().as_u16(), 404);
    assert_eq!(StatusCode::method_not_allowed().as_u16(), 405);
    assert_eq!(StatusCode::internal_server_error().as_u16(), 500);
    assert_eq!(StatusCode::not_implemented().as_u16(), 501);
    assert_eq!(hyper_router::status::NOT_FOUND, 404);
    assert_eq!(hyper_router::status::METHOD_NOT_ALLOWED, 405);
}

#[test]
fn status_range() {
    assert_eq!(StatusCode::from_u16(99), None);
    assert_eq!(StatusCode::from_u16(0), None);
    assert_eq!(StatusCode::from_u16(1000), None);
    assert_eq!(StatusCode::from_u16(u16::MAX), None);
    assert_eq!(StatusCode::from_u16(100).unwrap().as_u16(), 100);
    assert_eq!(StatusCode::from_u16(999).unwrap().as_u16(), 999);
    assert_eq!(StatusCode::from_u16(404), Some(StatusCode::not_found()));
}

#[test]
fn request_keeps_method_and_path() {
    let request = Request::new(Method::Head, "/where");
    assert_eq!(request.method(), Method::Head);
    assert_eq!(request.path(), "/where");
    let copy = request.clone();
    assert_eq!(copy.method, Method::Head);
    assert_eq!(copy.path, "/where");
}

#[test]
fn sized_response_declares_the_length_in_bytes() {
    let response = Response::sized(StatusCode::ok(), "héllo");
    assert_eq!(response.status, StatusCode::ok());
    assert_eq!(response.content_length, Some(6));
    assert_eq!(response.content_type, None);
    assert_eq!(response.body, "héllo");
    let empty = Response::sized(StatusCode::not_found(), "");
    assert_eq!(empty.content_length, Some(0));
}

#[test]
fn plain_text_response_declares_its_type() {
    let response = Response::plain_text(StatusCode::internal_server_error(), "broken");
    assert_eq!(response.status.as_u16(), 500);
    assert_eq!(response.content_length, Some(6));
    assert_eq!(response.content_type, Some("text/plain".to_string()));
    assert_eq!(response.body, "broken");
    let copy = response.clone();
    assert_eq!(copy.status.as_u16(), 500);
    assert_eq!(copy.content_length, Some(6));
    assert_eq!(copy.content_type, Some("text/plain".to_string()));
    assert_eq!(copy.body, "broken");
}

#[test]
fn designated_handlers_answer_as_documented() {
    let request = || Request::new(Method::Get, "/");
    let response = default_404_handler::<u8>(request(), None);
    assert_eq!(response.status.as_u16(), 404);
    assert_eq!(response.body, "page not found");
    assert_eq!(response.content_length, Some(14));
    assert_eq!(response.content_type, Some("text/plain".to_string()));

    let response = method_not_supported_handler(request(), Some(1u8));
    assert_eq!(response.status.as_u16(), 405);
    assert_eq!(response.body, "method not supported");
    assert_eq!(response.content_length, Some(20));

    let response = not_implemented_handler::<u8>(request(), None);
    assert_eq!(response.status.as_u16(), 501);
    assert_eq!(response.body, "not implemented");
    assert_eq!(response.content_length, Some(15));
}

#[test]
fn handler_calls_what_it_holds() {
    fn echo(request: Request, state: Option<u32>) -> Response {
        Response::sized(StatusCode::ok(), &format!("{} {}", request.path, state.unwrap()))
    }
    type Echo = fn(Request, Option<u32>) -> Response;
    let custom: Handler<Echo> = Handler::Custom(echo);
    let response = custom.call(Request::new(Method::Get, "/p"), Some(7));
    assert_eq!(response.body, "/p 7");
    let copy = custom.clone();
    assert_eq!(copy.call(Request::new(Method::Get, "/q"), Some(8)).body, "/q 8");

    let not_found: Handler<Echo> = Handler::NotFound;
    assert_eq!(not_found.call(Request::new(Method::Get, "/p"), Some(7)).status.as_u16(), 404);
    let unsupported: Handler<Echo> = Handler::MethodNotSupported;
    assert_eq!(unsupported.call(Request::new(Method::Get, "/p"), None).status.as_u16(), 405);
    let missing: Handler<Echo> = Handler::NotImplemented;
    assert_eq!(missing.call(Request::new(Method::Get, "/p"), None).status.as_u16(), 501);
}

#[test]
fn handler_may_be_a_closure() {
    let greeting = "hi";
    let handler = move |_: Request, name: Option<&str>| {
        Response::sized(StatusCode::ok(), &format!("{} {}", greeting, name.unwrap()))
    };
    let route = Route::get("/greet").unwrap().with_state("you").using(handler);
    let router = hyper_router::RouterBuilder::new().add(route).build();
    let request = Request::new(Method::Get, "/greet");
    let (found, state) = router.find_handler(&request).ok().unwrap();
    assert_eq!(found.call(request, state).body, "hi you");
}

#[test]
fn path_compiles_matches_and_keeps_its_text() {
    let path = Path::new("b+c").unwrap();
    assert_eq!(path.as_str(), "b+c");
    assert!(path.is_match("abbbcd"));
    assert!(path.is_match("bc"));
    assert!(!path.is_match("bd"));
    assert!(!path.is_match(""));
    let copy = path.clone();
    assert_eq!(copy.as_str(), "b+c");
    assert!(copy.is_match("abbbcd"));
    assert!(!copy.is_match("bd"));
}

#[test]
fn path_refuses_a_malformed_pattern() {
    let refused = Path::new("a{2,1}").err().unwrap();
    assert_eq!(refused.pattern, "a{2,1}");
    assert_eq!(refused.clone().pattern, "a{2,1}");
    assert!(Path::new("").is_ok());
}

#[test]
fn path_from_compiled_takes_either_outcome() {
    let path = Path::from_compiled("x", regex::Regex::new("x")).unwrap();
    assert_eq!(path.as_str(), "x");
    assert!(path.is_match("axb"));
    let refused = Path::from_compiled("(", regex::Regex::new("(")).err().unwrap();
    assert_eq!(refused.pattern, "(");
}

#[test]
fn route_on_a_compiled_path() {
    type H = fn(Request, Option<u8>) -> Response;
    fn h(_: Request, _: Option<u8>) -> Response {
        Response::sized(StatusCode::ok(), "")
    }
    let route: Route<H, u8> = Route::with_path(Method::Trace, Path::new("^/t$").unwrap()).using(h);
    assert_eq!(route.method, Method::Trace);
    assert_eq!(route.path.as_str(), "^/t$");
    assert_eq!(route.state, None);
}

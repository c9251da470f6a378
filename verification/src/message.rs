//! What the router sees of a request, and what a handler answers.

use vstd::prelude::*;
use vstd::string::*;
use vstd::utf8::*;

use crate::method::Method;
use crate::status::StatusCode;

verus! {

/// An incoming request: its method and the path that it asks for.
#[derive(Debug)]
pub struct Request {
    pub method: Method,
    pub path: String,
}

impl Request {
    /// A request for `path` with the given method.
    pub fn new(method: Method, path: &str) -> (request: Request)
        ensures
            request.method == method,
            request.path@ == path@,
    {
        Request { method, path: path.to_owned() }
    }

    /// The request's method.
    pub fn method(&self) -> (method: Method)
        ensures
            method == self.method,
    {
        self.method
    }

    /// The path that the request asks for.
    pub fn path(&self) -> (path: &str)
        ensures
            path@ == self.path@,
    {
        self.path.as_str()
    }
}

impl Clone for Request {
    fn clone(&self) -> (copy: Request)
        ensures
            copy.method == self.method,
            copy.path@ == self.path@,
    {
        Request { method: self.method, path: self.path.clone() }
    }
}

/// The response to a request.
#[derive(Debug)]
pub struct Response {
    pub status: StatusCode,
    /// The length of the body in bytes, where the response declares it.
    pub content_length: Option<u64>,
    /// The media type of the body, where the response declares it.
    pub content_type: Option<String>,
    pub body: String,
}

/// A response as a mathematical value.
pub struct ResponseView {
    pub status: int,
    pub content_length: Option<u64>,
    pub content_type: Option<Seq<char>>,
    pub body: Seq<char>,
}

impl View for Response {
    type V = ResponseView;

    open spec fn view(&self) -> ResponseView {
        ResponseView {
            status: self.status@,
            content_length: self.content_length,
            content_type: match self.content_type {
                Some(media_type) => Some(media_type@),
                None => None,
            },
            body: self.body@,
        }
    }
}

impl Clone for Response {
    fn clone(&self) -> (copy: Response)
        ensures
            copy@ == self@,
    {
        Response {
            status: self.status,
            content_length: self.content_length,
            content_type: match &self.content_type {
                Some(media_type) => Some(media_type.clone()),
                None => None,
            },
            body: self.body.clone(),
        }
    }
}

impl Response {
    /// What `sized` answers: the body with its length in bytes, and no
    /// media type.
    pub open spec fn sized_view(status: int, body: Seq<char>) -> ResponseView {
        ResponseView {
            status,
            content_length: Some(encode_utf8(body).len() as u64),
            content_type: None,
            body,
        }
    }

    /// What `plain_text` answers: the body with its length in bytes, as
    /// plain text.
    pub open spec fn plain_text_view(status: int, body: Seq<char>) -> ResponseView {
        ResponseView { content_type: Some("text/plain"@), ..Self::sized_view(status, body) }
    }

    /// A response that carries `body` and declares its length.
    pub fn sized(status: StatusCode, body: &str) -> (response: Response)
        ensures
            response@ == Self::sized_view(status@, body@),
    {
        let length = body.as_bytes().len();
        Response {
            status,
            content_length: Some(length as u64),
            content_type: None,
            body: body.to_owned(),
        }
    }

    /// A response that carries `body` as plain text and declares its length.
    pub fn plain_text(status: StatusCode, body: &str) -> (response: Response)
        ensures
            response@ == Self::plain_text_view(status@, body@),
    {
        let length = body.as_bytes().len();
        Response {
            status,
            content_length: Some(length as u64),
            content_type: Some("text/plain".to_owned()),
            body: body.to_owned(),
        }
    }
}

} // verus!

//! HTTP responses as plain values: a status, an optional content type and a
//! text body.

use vstd::prelude::*;

verus! {

/// The status codes this service answers with.
#[derive(Clone, Copy, Debug, PartialEq, Eq, Structural)]
pub enum StatusCode {
    /// 200 OK
    Success,
    /// 400 Bad Request
    BadRequest,
    /// 500 Internal Server Error
    InternalServerError,
    /// 504 Gateway Timeout
    GatewayTimeout,
}

impl View for StatusCode {
    type V = int;

    /// The number on the status line.
    open spec fn view(&self) -> int {
        match self {
            StatusCode::Success => 200,
            StatusCode::BadRequest => 400,
            StatusCode::InternalServerError => 500,
            StatusCode::GatewayTimeout => 504,
        }
    }
}

impl StatusCode {
    /// The number on the status line.
    pub fn code(&self) -> (n: u16)
        ensures
            n == self@,
    {
        match self {
            StatusCode::Success => 200,
            StatusCode::BadRequest => 400,
            StatusCode::InternalServerError => 500,
            StatusCode::GatewayTimeout => 504,
        }
    }
}

/// A complete response, ready to be put on the wire by the HTTP layer.
#[derive(Clone, Debug, PartialEq, Eq)]
pub struct Response {
    pub status: StatusCode,
    /// The `Content-Type` header, where the handler sets one.
    pub content_type: Option<String>,
    pub body: String,
}

/// What a `Response` says: the status number, the content type and the body
/// as text.
pub struct ResponseView {
    pub status: int,
    pub content_type: Option<Seq<char>>,
    pub body: Seq<char>,
}

impl View for Response {
    type V = ResponseView;

    open spec fn view(&self) -> ResponseView {
        ResponseView {
            status: self.status@,
            content_type: match self.content_type {
                Some(t) => Some(t@),
                None => None,
            },
            body: self.body@,
        }
    }
}

impl ResponseView {
    /// 200 with `body` and no content type.
    pub open spec fn ok(body: Seq<char>) -> ResponseView {
        ResponseView { status: 200, content_type: None, body }
    }

    /// 200 with `body`, declared as `application/json`.
    pub open spec fn ok_json(body: Seq<char>) -> ResponseView {
        ResponseView { status: 200, content_type: Some("application/json"@), body }
    }
}

impl Response {
    /// Answers 200 with `body` and sets no content type.
    pub fn ok(body: String) -> (r: Response)
        ensures
            r@ == ResponseView::ok(body@),
    {
        Response { status: StatusCode::Success, content_type: None, body }
    }

    /// Answers 200 with `body`, declared as `application/json`.
    pub fn ok_json(body: String) -> (r: Response)
        ensures
            r@ == ResponseView::ok_json(body@),
    {
        Response {
            status: StatusCode::Success,
            content_type: Some(String::from_str("application/json")),
            body,
        }
    }
}

} // verus!

//! The failures a request handler can report, and the total mapping from
//! each of them to the response the client sees.

use crate::response::{Response, ResponseView, StatusCode};
use vstd::prelude::*;

verus! {

/// A failure detected while handling a request.
#[derive(Clone, Debug, PartialEq, Eq)]
pub enum ErrorVariant {
    /// A failure on the server's side, not caused by the caller's input.
    InternalError,
    /// The request was malformed or invalid.
    BadClientData,
    /// A backend did not answer in time.
    Timeout,
    /// The caller's input failed validation on the named field.
    ValidationError { field: String },
}

/// An `ErrorVariant` with its field name as text.
pub enum ErrorVariantView {
    InternalError,
    BadClientData,
    Timeout,
    ValidationError { field: Seq<char> },
}

impl View for ErrorVariant {
    type V = ErrorVariantView;

    open spec fn view(&self) -> ErrorVariantView {
        match self {
            ErrorVariant::InternalError => ErrorVariantView::InternalError,
            ErrorVariant::BadClientData => ErrorVariantView::BadClientData,
            ErrorVariant::Timeout => ErrorVariantView::Timeout,
            ErrorVariant::ValidationError { field } => ErrorVariantView::ValidationError {
                field: field@,
            },
        }
    }
}

impl ErrorVariantView {
    /// The status number the failure is answered with.
    pub open spec fn status(self) -> int {
        match self {
            ErrorVariantView::InternalError => 500,
            ErrorVariantView::BadClientData => 400,
            ErrorVariantView::Timeout => 504,
            ErrorVariantView::ValidationError { .. } => 400,
        }
    }

    /// The text that explains the failure to the client.
    pub open spec fn message(self) -> Seq<char> {
        match self {
            ErrorVariantView::InternalError => "internal error"@,
            ErrorVariantView::BadClientData => "bad request"@,
            ErrorVariantView::Timeout => "timeout"@,
            ErrorVariantView::ValidationError { field } => "Validation error on field: "@ + field,
        }
    }

    /// The whole response: the status, `text/html; charset=utf-8` as content
    /// type, and the message as body.
    pub open spec fn response(self) -> ResponseView {
        ResponseView {
            status: self.status(),
            content_type: Some("text/html; charset=utf-8"@),
            body: self.message(),
        }
    }
}

impl ErrorVariant {
    /// The status the failure is answered with.
    pub fn status_code(&self) -> (code: StatusCode)
        ensures
            code@ == self@.status(),
    {
        match self {
            ErrorVariant::InternalError => StatusCode::InternalServerError,
            ErrorVariant::BadClientData => StatusCode::BadRequest,
            ErrorVariant::Timeout => StatusCode::GatewayTimeout,
            ErrorVariant::ValidationError { .. } => StatusCode::BadRequest,
        }
    }

    /// The text that explains the failure to the client.
    pub fn to_string(&self) -> (text: String)
        ensures
            text@ == self@.message(),
    {
        match self {
            ErrorVariant::InternalError => String::from_str("internal error"),
            ErrorVariant::BadClientData => String::from_str("bad request"),
            ErrorVariant::Timeout => String::from_str("timeout"),
            ErrorVariant::ValidationError { field } => {
                let mut text = String::from_str("Validation error on field: ");
                text.append(field.as_str());
                text
            },
        }
    }

    /// Classifies the failure: the response that reports it to the client.
    /// Never fails, and reads nothing but `self`.
    pub fn error_response(&self) -> (r: Response)
        ensures
            r@ == self@.response(),
    {
        Response {
            status: self.status_code(),
            content_type: Some(String::from_str("text/html; charset=utf-8")),
            body: self.to_string(),
        }
    }
}

/// Classification is a function of the failure alone: two responses that
/// `error_response` may give for equal failures agree in status, content type
/// and body, and so in every byte of the body's UTF-8 encoding.
pub proof fn lemma_error_response_deterministic(
    a: ErrorVariant,
    b: ErrorVariant,
    ra: Response,
    rb: Response,
)
    requires
        a@ == b@,
        ra@ == a@.response(),
        rb@ == b@.response(),
    ensures
        ra@ == rb@,
        vstd::utf8::encode_utf8(ra@.body) == vstd::utf8::encode_utf8(rb@.body),
{
}

/// Every failure is answered with one of the three error statuses and with
/// the HTML content type.
pub proof fn lemma_error_response_total(e: ErrorVariantView)
    ensures
        e.response().status == 400 || e.response().status == 500 || e.response().status == 504,
        e.response().status == 500 <==> e is InternalError,
        e.response().status == 504 <==> e is Timeout,
        e.response().status == 400 <==> (e is BadClientData || e is ValidationError),
        e.response().content_type == Some("text/html; charset=utf-8"@),
{
}

/// A failure that carries a name and answers with the fixed text `my error`.
#[derive(Clone, Copy, Debug, PartialEq, Eq)]
pub struct MyError {
    pub name: &'static str,
}

/// A `MyError` with its name as text.
pub struct MyErrorView {
    pub name: Seq<char>,
}

impl View for MyError {
    type V = MyErrorView;

    open spec fn view(&self) -> MyErrorView {
        MyErrorView { name: self.name@ }
    }
}

impl MyError {
    /// The text shown for the failure, whatever its name.
    pub fn to_string(&self) -> (text: String)
        ensures
            text@ == "my error"@,
    {
        String::from_str("my error")
    }
}

} // verus!

//! The pure core of a small web service: every handler is a function from
//! the values extracted from a request to a `Response` value, and every
//! failure is an `ErrorVariant` that `error_response` maps to its status
//! line, content type and body.

pub mod decimal;
pub mod errors;
pub mod handlers;
pub mod response;
pub mod state;

//! The request handlers, each as a function from the values extracted from
//! the request to the response or the failure it answers with.

use crate::decimal::{decimal, push_decimal_digits};
use crate::errors::{ErrorVariant, ErrorVariantView, MyError};
use crate::response::{Response, ResponseView};
use vstd::prelude::*;

verus! {

/// The query of `user_get`.
#[derive(Clone, Copy, Debug, PartialEq, Eq)]
pub struct Info {
    pub age: u32,
}

/// The form of `user_post`.
#[derive(Clone, Debug, PartialEq, Eq)]
pub struct UserInfo {
    pub name: String,
}

/// An object that is answered as JSON.
#[derive(Clone, Copy, Debug, PartialEq, Eq)]
pub struct MyObj {
    pub name: &'static str,
}

/// The body of `user_get` for the given path and query values.
pub open spec fn user_get_body(id: int, name: Seq<char>, age: int) -> Seq<char> {
    "Hello "@ + name + "! id:["@ + decimal(id) + "], age:["@ + decimal(age) + "]"@
}

/// The body of `user_post` for the given name.
pub open spec fn user_post_body(name: Seq<char>) -> Seq<char> {
    "Hello "@ + name + "!"@
}

/// The landing page.
pub fn index() -> (r: Response)
    ensures
        r@ == ResponseView::ok("Hey there!"@),
{
    Response::ok(String::from_str("Hey there!"))
}

/// Greets the user named in the path, `args.1`, and repeats the id from the
/// path, `args.0`, and the age from the query.
pub fn user_get(args: &(u32, String), info: &Info) -> (r: Response)
    ensures
        r@ == ResponseView::ok(user_get_body(args.0 as int, args.1@, info.age as int)),
{
    let mut body = String::from_str("Hello ");
    body.append(args.1.as_str());
    body.append("! id:[");
    push_decimal_digits(&mut body, args.0);
    body.append("], age:[");
    push_decimal_digits(&mut body, info.age);
    body.append("]");
    Response::ok(body)
}

/// Greets the user named in the form.
pub fn user_post(info: &UserInfo) -> (r: Response)
    ensures
        r@ == ResponseView::ok(user_post_body(info.name@)),
{
    let mut body = String::from_str("Hello ");
    body.append(info.name.as_str());
    body.append("!");
    Response::ok(body)
}

/// The object that the custom route answers with.
pub fn custom() -> (obj: MyObj)
    ensures
        obj.name@ == "user"@,
{
    MyObj { name: "user" }
}

/// The response that the stream route sends as a single chunk.
pub fn stream() -> (r: Response)
    ensures
        r@ == ResponseView::ok_json("stream"@),
{
    Response::ok_json(String::from_str("stream"))
}

/// Always fails, with a `MyError` named `test fail`.
pub fn fail() -> (r: Result<&'static str, MyError>)
    ensures
        r matches Err(e) && e.name@ == "test fail"@,
{
    Err(MyError { name: "test fail" })
}

/// Always fails, as a malformed request.
pub fn bad_data() -> (r: Result<&'static str, ErrorVariant>)
    ensures
        r matches Err(e) && e@ == ErrorVariantView::BadClientData,
{
    Err(ErrorVariant::BadClientData)
}

/// Validates the user's input and reports a failure of validation as one on
/// the field `name`. Validation always fails, so this does too.
pub fn user_error() -> (r: Result<&'static str, ErrorVariant>)
    ensures
        r matches Err(e) && e@ == (ErrorVariantView::ValidationError { field: "name"@ }),
{
    match validate_user_input_error() {
        Ok(()) => Ok("success!"),
        Err(_) => Err(ErrorVariant::ValidationError { field: String::from_str("name") }),
    }
}

/// Rejects the input, with a `MyError` named `input error`.
pub fn validate_user_input_error() -> (r: Result<(), MyError>)
    ensures
        r matches Err(e) && e.name@ == "input error"@,
{
    Err(MyError { name: "input error" })
}

} // verus!

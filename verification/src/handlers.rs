//! The two handlers: a greeter that answers with a greeting read from the
//! request body, and a ping that answers "Pong" unconditionally.

use vstd::prelude::*;
use vstd::string::StringExecFns;
use crate::json::{json_name_string, json_well_formed, lookup_name};
use crate::request::{Body, BodyView};

verus! {

/// The one failure a handler can report: the textual body was not valid
/// JSON. It is not answered with a greeting; the invocation boundary
/// surfaces it to the hosting runtime as a failed invocation.
#[derive(Debug, Clone, Copy, PartialEq, Eq, Structural)]
pub enum HandlerError {
    MalformedJson,
}

/// The greeting built from the optional `name` string: the value of the
/// field when it was present as a string, a fixed fallback otherwise.
pub open spec fn greeting_of(name: Option<Seq<char>>) -> Seq<char> {
    match name {
        Some(n) => "Hello, "@ + n,
        None => "Hello, "@ + "mysterious person"@,
    }
}

/// What the greeter answers for each request body.
pub open spec fn greet_spec(b: BodyView) -> Result<Seq<char>, HandlerError> {
    match b {
        BodyView::Empty => Ok("No body provided"@),
        BodyView::Binary(_) => Ok("Body should be text"@),
        BodyView::Text(t) => if json_well_formed(t) {
            Ok(greeting_of(json_name_string(t)))
        } else {
            Err(HandlerError::MalformedJson)
        },
    }
}

/// What the ping handler answers: "Pong", whatever the request holds.
pub open spec fn ping_spec(b: BodyView) -> Result<Seq<char>, HandlerError> {
    Ok("Pong"@)
}

/// A handler's response, seen mathematically: the body as a character
/// sequence on success, the error unchanged on failure.
pub open spec fn resp_view(r: Result<String, HandlerError>) -> Result<Seq<char>, HandlerError> {
    match r {
        Ok(s) => Ok(s@),
        Err(e) => Err(e),
    }
}

/// Concatenates the greeting prefix with the name, or with the fallback
/// when no name was found.
fn build_greeting(name: Option<String>) -> (r: String)
    ensures
        r@ == greeting_of(name.deep_view()),
{
    let prefix: String = "Hello, ".to_owned();
    match name {
        Some(n) => prefix.concat(n.as_str()),
        None => prefix.concat("mysterious person"),
    }
}

/// The greeter handler. An absent body and a binary body are answered with
/// fixed texts; a textual body is parsed as JSON and answered with a
/// greeting, or refused as malformed.
pub fn greet(body: &Body) -> (r: Result<String, HandlerError>)
    ensures
        resp_view(r) == greet_spec(body@),
{
    match body {
        Body::Empty => Ok("No body provided".to_owned()),
        Body::Binary(_) => Ok("Body should be text".to_owned()),
        Body::Text(text) => match lookup_name(text.as_str()) {
            Ok(name) => Ok(build_greeting(name)),
            Err(_) => Err(HandlerError::MalformedJson),
        },
    }
}

/// The ping handler: it succeeds on every request, and the request is
/// ignored entirely.
pub fn ping(request: &Body) -> (r: Result<String, HandlerError>)
    ensures
        resp_view(r) == ping_spec(request@),
{
    Ok("Pong".to_owned())
}

/// Invoking the greeter twice with the same request yields the same
/// response both times: its contract pins the response as a function of the
/// request alone, so any two responses to one request are equal.
pub proof fn lemma_greet_idempotent(
    b: BodyView,
    r1: Result<Seq<char>, HandlerError>,
    r2: Result<Seq<char>, HandlerError>,
)
    requires
        r1 == greet_spec(b),
        r2 == greet_spec(b),
    ensures
        r1 == r2,
{
}

/// Invoking the ping handler twice with the same request yields the same
/// response both times; indeed any two requests get one and the same
/// response.
pub proof fn lemma_ping_idempotent(
    b1: BodyView,
    b2: BodyView,
    r1: Result<Seq<char>, HandlerError>,
    r2: Result<Seq<char>, HandlerError>,
)
    requires
        r1 == ping_spec(b1),
        r2 == ping_spec(b2),
    ensures
        r1 == r2,
{
}

} // verus!

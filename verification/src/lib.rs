//! Two minimal, stateless request handlers for a serverless platform: a
//! greeter that reads an optional `name` field from a JSON request body and
//! answers with a greeting, and a ping that answers "Pong" unconditionally.
//! The surrounding runtime adapter delivers one request and takes one
//! response per invocation; everything the handlers decide is here.

pub mod handlers;
pub mod json;
pub mod request;

//! The request-dispatch core of an API-testing tool, with its behaviour
//! stated in contracts and proved.
//!
//! A request is a declarative specification: method, URL template,
//! parameters, headers, authentication, body and settings. Sending it means
//! resolving the placeholders against the environment, assembling the call
//! that the transport makes, running that call without blocking, and
//! writing the outcome back into the request's result slot.
//!
//! This library takes every decision of that process and performs none of
//! its effects. The caller owns the network, the file system and the clock:
//! it does what `dispatch::App::send_request` hands out and reports back
//! through `attach_files` and `complete`.
//!
//! - `request`: the request and its result slot.
//! - `environment`: placeholders and their substitution.
//! - `entries`: which entries of a list are sent, and in what order.
//! - `client`: what the transport client of a send is built with.
//! - `body`, `files`: the body encoder and the names of attached files.
//! - `assemble`: the call of a request.
//! - `response`: from what the transport hands back to the result fields.
//! - `dispatch`: the single-flight protocol of a request slot.
//! - `limits`: how long a text may be that is handed to the URL parser.
//! - `bindings`: what is taken on trust about the code this library calls.
//! - `text`: character-level helpers.

pub mod assemble;
pub mod bindings;
pub mod body;
pub mod client;
pub mod dispatch;
pub mod entries;
pub mod environment;
pub mod files;
pub mod limits;
pub mod request;
pub mod response;
pub mod text;

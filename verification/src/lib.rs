//! A minimal HTTP/1.1 greeting responder, verified.
//!
//! Every connection receives the same fixed `200 OK` response carrying a
//! greeting body; the request is read only to log its request line.  This
//! crate holds the verified core: request-line extraction, wire-exact
//! response synthesis, log-line formatting, and port configuration.  The
//! sockets and threads that drive it live outside the library.

use vstd::prelude::*;

pub mod config;
pub mod extract;
pub mod logging;
pub mod response;

verus! {

use crate::response::{build_response, response_bytes};
use vstd::string::StringExecFns;
use vstd::utf8::encode_utf8;

/// The fixed greeting text served to every connection.
pub open spec fn greeting_text() -> Seq<char> {
    "Hello, World!"@
}

/// Greeting source: the fixed body returned for every request.
pub fn greeting() -> (r: String)
    ensures
        r@ == greeting_text(),
{
    String::from_str("Hello, World!")
}

/// The complete wire response every connection receives: the fixed head
/// with an exact `Content-Length`, then the greeting body.
pub fn greeting_response() -> (r: Vec<u8>)
    ensures
        r@ == response_bytes(encode_utf8(greeting_text())),
{
    let body = greeting();
    build_response(body.as_str().as_bytes())
}

} // verus!

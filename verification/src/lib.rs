//! A request-authentication interceptor: a composable pipeline stage that
//! reads the `user_id` and `token` headers of each inbound request, normalizes
//! them into a typed authentication context, attaches that context to the
//! request, and forwards the request to the next stage unchanged otherwise.
//!
//! Parsing is deliberately permissive: malformed or missing headers never
//! fail a request here; they degrade to sentinel values (`0`, `""`), leaving
//! the trust decision to downstream authorization logic.

use vstd::prelude::*;

pub mod context;
pub mod middleware;
pub mod parse;
pub mod probe;
pub mod token;

pub use context::AuthContext;
pub use middleware::{Auth, AuthMiddleware};

verus! {

/// The byte content of an optional header value.
pub open spec fn header_view(h: Option<Vec<u8>>) -> Option<Seq<u8>> {
    match h {
        Some(v) => Some(v@),
        None => None,
    }
}

} // verus!

//! The per-request authentication context.
//!
//! Exactly one context is created per inbound request, from the two identity
//! headers, and attached to the request before the next stage runs; it is
//! never mutated afterwards.

use vstd::prelude::*;

verus! {

use crate::header_view;
use crate::parse::{parse_user_id, parsed_user_id};
use crate::token::{decode_token, decoded_token};

/// The identity evidence this interceptor attaches to a request: the two
/// entries it populates in the request's attribute bag, keyed `user_id` and
/// `auth_key`.
pub struct AuthContext {
    /// Caller-asserted numeric identity; `0` stands for "no identity
    /// asserted" as well as "malformed identity".
    pub user_id: i64,
    /// Caller-supplied opaque credential; empty when absent or unreadable.
    pub auth_key: String,
}

/// The mathematical content of an [`AuthContext`].
#[verifier::ext_equal]
pub struct CtxModel {
    pub user_id: int,
    pub auth_key: Seq<char>,
}

impl View for AuthContext {
    type V = CtxModel;

    open spec fn view(&self) -> CtxModel {
        CtxModel { user_id: self.user_id as int, auth_key: self.auth_key@ }
    }
}

/// The context a request with the given header values must end up carrying.
pub open spec fn derived_context(
    user_id_header: Option<Seq<u8>>,
    token_header: Option<Seq<u8>>,
) -> CtxModel {
    CtxModel {
        user_id: parsed_user_id(user_id_header),
        auth_key: decoded_token(token_header),
    }
}

impl AuthContext {
    /// Builds the context for a request carrying the given raw header
    /// values. Never fails: malformed input degrades to the sentinels.
    pub fn from_headers(
        user_id_header: &Option<Vec<u8>>,
        token_header: &Option<Vec<u8>>,
    ) -> (r: AuthContext)
        ensures
            r@ == derived_context(header_view(*user_id_header), header_view(*token_header)),
    {
        AuthContext {
            user_id: parse_user_id(user_id_header),
            auth_key: decode_token(token_header),
        }
    }
}

} // verus!

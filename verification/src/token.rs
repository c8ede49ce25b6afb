//! Permissive UTF-8 reading of the `token` header.
//!
//! A header value is taken as UTF-8 text; bytes that are not valid UTF-8 —
//! and an absent header — degrade to the sentinel empty string.

use vstd::prelude::*;

verus! {

use crate::header_view;
use vstd::utf8::{decode_utf8, encode_utf8, valid_utf8};
use vstd::utf8::{encode_utf8_decode_utf8, encode_utf8_valid_utf8};

/// The `auth_key` a request asserts: the token header's text, with the
/// sentinel empty string when the header is absent or not valid UTF-8.
pub open spec fn decoded_token(h: Option<Seq<u8>>) -> Seq<char> {
    match h {
        Some(b) => if valid_utf8(b) {
            decode_utf8(b)
        } else {
            Seq::<char>::empty()
        },
        None => Seq::<char>::empty(),
    }
}

/// Relies on core::str::from_utf8: it succeeds exactly on input that is
/// valid UTF-8, and then returns the text those bytes encode.
#[verifier::external_body]
fn bytes_as_str(b: &[u8]) -> (r: Option<&str>)
    ensures
        r is Some <==> valid_utf8(b@),
        (r matches Some(s) ==> s@ == decode_utf8(b@)),
{
    core::str::from_utf8(b).ok()
}

/// Reads the `token` header: its UTF-8 text, or the sentinel empty string
/// when the header is absent or not valid UTF-8.
pub fn decode_token(h: &Option<Vec<u8>>) -> (r: String)
    ensures
        r@ == decoded_token(header_view(*h)),
{
    match h {
        Some(v) => match bytes_as_str(v.as_slice()) {
            Some(s) => s.to_owned(),
            None => String::new(),
        },
        None => String::new(),
    }
}

/// Law: a token header carrying the UTF-8 encoding of the text `t` yields an
/// `auth_key` equal to `t`; an absent header yields the empty string.
pub proof fn lemma_token_exact(t: Seq<char>)
    ensures
        decoded_token(Some(encode_utf8(t))) == t,
        decoded_token(None::<Seq<u8>>) == Seq::<char>::empty(),
{
    encode_utf8_valid_utf8(t);
    encode_utf8_decode_utf8(t);
}

/// Law: a token header whose bytes are not valid UTF-8 — and an absent
/// header — yield the sentinel empty string.
pub proof fn lemma_token_sentinel(h: Option<Seq<u8>>)
    requires
        (h matches Some(b) ==> !valid_utf8(b)),
    ensures
        decoded_token(h) == Seq::<char>::empty(),
{
}

} // verus!

//! Signing for real-time-messaging session and conversation operations.
//!
//! The crate builds the canonical colon-joined message for an operation
//! (open a session; start a conversation; add or remove members), signs it
//! with HMAC-SHA1 under a caller-supplied key, and renders the result either
//! as a readable record line or as the action-specific JSON command object.

use vstd::prelude::*;

pub mod action;
pub mod decimal;
pub mod lex;
pub mod members;
pub mod message;
pub mod nonce;
pub mod record;
pub mod segments;
pub mod signer;

verus! {

/// The character sequences of a sequence of strings, element for element.
pub open spec fn views_of(s: Seq<String>) -> Seq<Seq<char>> {
    Seq::new(s.len(), |i: int| s[i]@)
}

} // verus!

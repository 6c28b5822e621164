//! Message identifiers: the Keccak-256 digest of a message's canonical bytes.

use vstd::prelude::*;
use sha3::Digest;
use crate::message::{Message, MessageView, encoding, encode};

verus! {

/// The width of a message identifier, in bytes.
pub const MESSAGE_ID_LEN: usize = 32;

/// The Keccak-256 digest of `bytes`.
pub uninterp spec fn keccak256(bytes: Seq<u8>) -> Seq<u8>;

/// The identifier of `m`: the digest of its canonical bytes.
pub open spec fn message_id(m: MessageView) -> Seq<u8> {
    keccak256(encoding(m))
}

/// Calls `sha3::Keccak256::digest`. Trusted: the result is the Keccak-256
/// digest of the input, a function of the input bytes alone, and it is 32
/// bytes long.
#[verifier::external_body]
fn keccak256_digest(bytes: &Vec<u8>) -> (digest: Vec<u8>)
    ensures
        digest@ == keccak256(bytes@),
        digest@.len() == MESSAGE_ID_LEN,
{
    sha3::Keccak256::digest(bytes.as_slice()).to_vec()
}

/// Computes the identifier of `message`.
pub fn identify(message: &Message) -> (id: Vec<u8>)
    ensures
        id@ == message_id(message@),
        id@.len() == MESSAGE_ID_LEN,
{
    let bytes = encode(message);
    keccak256_digest(&bytes)
}

/// Two well-formed messages share an identifier only if they are the same
/// message, or if their distinct canonical bytes collide under Keccak-256.
pub proof fn law_identifiers_differ_up_to_collision(m1: MessageView, m2: MessageView)
    requires
        m1.well_formed(),
        m2.well_formed(),
        m1 != m2,
        message_id(m1) == message_id(m2),
    ensures
        encoding(m1) != encoding(m2),
        keccak256(encoding(m1)) == keccak256(encoding(m2)),
{
    if encoding(m1) == encoding(m2) {
        crate::message::law_encoding_injective(m1, m2);
    }
}

} // verus!

//! The interchain message and its canonical binary form.
//!
//! A message is laid out as one version byte, the nonce, the origin domain,
//! the sender, the destination domain, the recipient and the body. The three
//! numbers take four bytes each, most significant first; the two addresses
//! take `ADDRESS_LEN` bytes each; the body takes the rest.

use vstd::prelude::*;
use crate::bytes::{be_u32, u32_of_be, lemma_u32_of_be_u32, lemma_be_u32_of_be};
use crate::bytes::{push_be_u32, read_be_u32, push_all, copy_range};
use crate::error::MailboxError;

verus! {

/// The protocol version that this mailbox writes and accepts.
pub const MAILBOX_VERSION: u8 = 3;

/// The width of a canonical address, in bytes.
pub const ADDRESS_LEN: usize = 32;

/// The length of everything that precedes the body of an encoded message.
pub const HEADER_LEN: usize = 77;

/// The envelope that travels between chains.
#[derive(Clone, Debug, PartialEq, Eq)]
pub struct Message {
    pub version: u8,
    pub nonce: u32,
    pub origin_domain: u32,
    pub sender: Vec<u8>,
    pub destination_domain: u32,
    pub recipient: Vec<u8>,
    pub body: Vec<u8>,
}

/// A message as a mathematical value.
pub struct MessageView {
    pub version: u8,
    pub nonce: u32,
    pub origin_domain: u32,
    pub sender: Seq<u8>,
    pub destination_domain: u32,
    pub recipient: Seq<u8>,
    pub body: Seq<u8>,
}

impl View for Message {
    type V = MessageView;

    open spec fn view(&self) -> MessageView {
        MessageView {
            version: self.version,
            nonce: self.nonce,
            origin_domain: self.origin_domain,
            sender: self.sender@,
            destination_domain: self.destination_domain,
            recipient: self.recipient@,
            body: self.body@,
        }
    }
}

impl MessageView {
    /// Both addresses have the canonical width.
    pub open spec fn well_formed(self) -> bool {
        &&& self.sender.len() == ADDRESS_LEN
        &&& self.recipient.len() == ADDRESS_LEN
    }
}

impl Message {
    /// Whether both addresses have the canonical width.
    pub fn is_well_formed(&self) -> (yes: bool)
        ensures
            yes == self@.well_formed(),
    {
        self.sender.len() == ADDRESS_LEN && self.recipient.len() == ADDRESS_LEN
    }
}

/// The canonical bytes of `m`.
pub open spec fn encoding(m: MessageView) -> Seq<u8> {
    seq![m.version] + be_u32(m.nonce) + be_u32(m.origin_domain) + m.sender + be_u32(
        m.destination_domain,
    ) + m.recipient + m.body
}

/// The message that `bytes` spell, if they are long enough to hold one.
pub open spec fn decoding(bytes: Seq<u8>) -> Option<MessageView> {
    if bytes.len() < HEADER_LEN {
        None
    } else {
        Some(
            MessageView {
                version: bytes[0],
                nonce: u32_of_be(bytes.subrange(1, 5)),
                origin_domain: u32_of_be(bytes.subrange(5, 9)),
                sender: bytes.subrange(9, 41),
                destination_domain: u32_of_be(bytes.subrange(41, 45)),
                recipient: bytes.subrange(45, 77),
                body: bytes.subrange(77, bytes.len() as int),
            },
        )
    }
}

/// Decoding the canonical bytes of a well-formed message gives the message
/// back.
pub proof fn law_decode_inverts_encode(m: MessageView)
    requires
        m.well_formed(),
    ensures
        decoding(encoding(m)) == Some(m),
{
    let bytes = encoding(m);
    lemma_u32_of_be_u32(m.nonce);
    lemma_u32_of_be_u32(m.origin_domain);
    lemma_u32_of_be_u32(m.destination_domain);
    assert(bytes.len() == HEADER_LEN + m.body.len());
    assert(bytes.subrange(1, 5) =~= be_u32(m.nonce));
    assert(bytes.subrange(5, 9) =~= be_u32(m.origin_domain));
    assert(bytes.subrange(9, 41) =~= m.sender);
    assert(bytes.subrange(41, 45) =~= be_u32(m.destination_domain));
    assert(bytes.subrange(45, 77) =~= m.recipient);
    assert(bytes.subrange(77, bytes.len() as int) =~= m.body);
}

/// Whatever decodes is well formed, and encodes to the bytes it came from.
pub proof fn law_encode_inverts_decode(bytes: Seq<u8>)
    requires
        decoding(bytes) is Some,
    ensures
        decoding(bytes).unwrap().well_formed(),
        encoding(decoding(bytes).unwrap()) == bytes,
{
    let m = decoding(bytes).unwrap();
    lemma_be_u32_of_be(bytes.subrange(1, 5));
    lemma_be_u32_of_be(bytes.subrange(5, 9));
    lemma_be_u32_of_be(bytes.subrange(41, 45));
    assert(encoding(m) =~= bytes);
}

/// Two well-formed messages with the same canonical bytes are the same
/// message: the encoding is injective.
pub proof fn law_encoding_injective(m1: MessageView, m2: MessageView)
    requires
        m1.well_formed(),
        m2.well_formed(),
        encoding(m1) == encoding(m2),
    ensures
        m1 == m2,
{
    law_decode_inverts_encode(m1);
    law_decode_inverts_encode(m2);
}

/// Writes `message` in its canonical binary form.
pub fn encode(message: &Message) -> (bytes: Vec<u8>)
    ensures
        bytes@ == encoding(message@),
{
    let mut bytes: Vec<u8> = Vec::new();
    bytes.push(message.version);
    push_be_u32(&mut bytes, message.nonce);
    push_be_u32(&mut bytes, message.origin_domain);
    push_all(&mut bytes, &message.sender);
    push_be_u32(&mut bytes, message.destination_domain);
    push_all(&mut bytes, &message.recipient);
    push_all(&mut bytes, &message.body);
    assert(bytes@ =~= encoding(message@));
    bytes
}

/// Reads a message from its canonical binary form. Fails with
/// `MalformedMessage` exactly when `bytes` are shorter than a header.
pub fn decode(bytes: &Vec<u8>) -> (result: Result<Message, MailboxError>)
    ensures
        match decoding(bytes@) {
            Some(m) => result is Ok && result->Ok_0@ == m,
            None => result is Err && result->Err_0 == MailboxError::MalformedMessage,
        },
{
    proof {
        }
    if bytes.len() < HEADER_LEN {
        return Err(MailboxError::MalformedMessage);
    }
    let message = Message {
        version: bytes[0],
        nonce: read_be_u32(bytes, 1),
        origin_domain: read_be_u32(bytes, 5),
        sender: copy_range(bytes, 9, 41),
        destination_domain: read_be_u32(bytes, 41),
        recipient: copy_range(bytes, 45, 77),
        body: copy_range(bytes, 77, bytes.len()),
    };
    Ok(message)
}

} // verus!

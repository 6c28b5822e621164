//! The messages that callers and administrators send to a mailbox, and the
//! answers it gives. Addresses and identifiers are plain bytes here; how
//! they are spelled on the wire is the business of whoever carries them.

use vstd::prelude::*;

verus! {

/// What a mailbox is created from.
#[derive(Clone, Debug, PartialEq, Eq)]
pub struct InstantiateMsg {
    /// The human-readable prefix of addresses on the local chain.
    pub hrp: String,
    /// The account that administers the mailbox.
    pub owner: String,
    /// The domain of the local chain.
    pub domain: u32,
}

/// What a mailbox can be asked to do.
#[allow(inconsistent_fields)]
#[derive(Clone, Debug, PartialEq, Eq)]
pub enum ExecuteMsg {
    /// Make `ism` the default verification module.
    SetDefaultIsm { ism: String },
    /// Make `hook` the default hook.
    SetDefaultHook { hook: String },
    /// Send `msg_body` to `recipient_addr` on `dest_domain`, through `hook`
    /// if it is given, which receives `metadata`.
    Dispatch {
        dest_domain: u32,
        recipient_addr: Vec<u8>,
        msg_body: Vec<u8>,
        hook: Option<String>,
        metadata: Option<Vec<u8>>,
    },
    /// Deliver the encoded `message`, which `metadata` proves authentic.
    Process { metadata: Vec<u8>, message: Vec<u8> },
}

/// The receipt of a dispatch.
#[derive(Clone, Debug, PartialEq, Eq)]
pub struct DispatchResponse {
    pub message_id: Vec<u8>,
}

/// What a mailbox can be asked about.
#[derive(Clone, Debug, PartialEq, Eq)]
pub enum QueryMsg {
    Base(MailboxQueryMsg),
}

/// The read-only questions of the mailbox itself.
#[derive(Clone, Debug, PartialEq, Eq)]
pub enum MailboxQueryMsg {
    Hrp {  },
    LocalDomain {  },
    MessageDelivered { id: Vec<u8> },
    DefaultIsm {  },
    DefaultHook {  },
    RecipientIsm { recipient_addr: Vec<u8> },
}

/// The address prefix of the local chain.
#[derive(Clone, Debug, PartialEq, Eq)]
pub struct HrpResponse {
    pub hrp: String,
}

/// The domain of the local chain.
#[derive(Clone, Debug, PartialEq, Eq)]
pub struct LocalDomainResponse {
    pub local_domain: u32,
}

/// Whether a message has been delivered.
#[derive(Clone, Debug, PartialEq, Eq)]
pub struct MessageDeliveredResponse {
    pub delivered: bool,
}

/// The default verification module.
#[derive(Clone, Debug, PartialEq, Eq)]
pub struct DefaultIsmResponse {
    pub default_ism: String,
}

/// The default hook.
#[derive(Clone, Debug, PartialEq, Eq)]
pub struct DefaultHookResponse {
    pub default_hook: String,
}

/// The verification module that judges messages for a recipient.
#[derive(Clone, Debug, PartialEq, Eq)]
pub struct RecipientIsmResponse {
    pub ism: String,
}

/// The answer to a `MailboxQueryMsg`, one variant for each question.
#[derive(Clone, Debug, PartialEq, Eq)]
pub enum QueryResponse {
    Hrp(HrpResponse),
    LocalDomain(LocalDomainResponse),
    MessageDelivered(MessageDeliveredResponse),
    DefaultIsm(DefaultIsmResponse),
    DefaultHook(DefaultHookResponse),
    RecipientIsm(RecipientIsmResponse),
}

} // verus!

//! What can go wrong in the mailbox, and what its collaborators report.

use vstd::prelude::*;

verus! {

/// Why a call into the mailbox failed. Every failure leaves the mailbox as it
/// was before the call, except `HandlerExecutionFailed`: by then the message
/// has been recorded as delivered, and stays so.
#[derive(Clone, Copy, Debug, PartialEq, Eq, Structural)]
pub enum MailboxError {
    /// The bytes are too short to hold a message.
    MalformedMessage,
    /// The message carries another protocol version than this mailbox speaks.
    UnsupportedVersion,
    /// The message is addressed to another domain.
    WrongDestination,
    /// The message has been delivered before.
    AlreadyDelivered,
    /// The verification module did not accept the message; the call may be
    /// repeated with other metadata.
    VerificationFailed,
    /// Neither the recipient nor the mailbox names a verification module.
    NoIsmConfigured,
    /// Neither the caller nor the mailbox names a hook.
    NoHookConfigured,
    /// The hook failed, and with it the dispatch.
    HookExecutionFailed,
    /// The recipient's handler failed.
    HandlerExecutionFailed,
    /// Every nonce has been handed out; no dispatch will succeed again.
    NonceExhausted,
    /// The recipient address does not have the canonical width.
    InvalidRecipient,
}

/// What a hook reports when it fails.
#[derive(Clone, Debug, PartialEq, Eq)]
pub struct HookError {
    pub reason: String,
}

/// What a verification module reports when it cannot reach a verdict.
#[derive(Clone, Debug, PartialEq, Eq)]
pub struct IsmError {
    pub reason: String,
}

/// What a recipient's handler reports when it fails.
#[derive(Clone, Debug, PartialEq, Eq)]
pub struct HandlerError {
    pub reason: String,
}

} // verus!

//! The life of a mailbox as a whole: what holds after any series of calls.

use vstd::prelude::*;
use crate::digest::message_id;
use crate::dispatch::{DispatchIntent, dispatch_outcome};
use crate::error::MailboxError;
use crate::message::{MAILBOX_VERSION, decoding};
use crate::process::process_outcome;
use crate::routing::RoutingView;
use crate::state::MailboxView;

verus! {

/// One completed call on a mailbox, with what its collaborators did.
pub enum MailboxEvent {
    /// A dispatch, and whether its hook succeeded.
    Dispatch { intent: DispatchIntent, hook_succeeded: bool },
    /// A process call, whether the verification module accepted, and
    /// whether the handler succeeded.
    Process { metadata: Seq<u8>, encoded: Seq<u8>, verified: bool, handled: bool },
    /// The owner sets the default verification module.
    SetDefaultIsm { ism: Seq<char> },
    /// The owner sets the default hook.
    SetDefaultHook { hook: Seq<char> },
    /// A recipient gets a verification module of its own.
    SetRecipientIsm { recipient: Seq<u8>, ism: Seq<char> },
}

/// The state that `event` leaves a mailbox in.
pub open spec fn after_event(s: MailboxView, event: MailboxEvent) -> MailboxView {
    match event {
        MailboxEvent::Dispatch { intent, hook_succeeded } => dispatch_outcome(
            s,
            intent,
            hook_succeeded,
        ).0,
        MailboxEvent::Process { metadata, encoded, verified, handled } => process_outcome(
            s,
            metadata,
            encoded,
            verified,
            handled,
        ).0,
        MailboxEvent::SetDefaultIsm { ism } => MailboxView {
            routing: RoutingView { default_ism: Some(ism), ..s.routing },
            ..s
        },
        MailboxEvent::SetDefaultHook { hook } => MailboxView {
            routing: RoutingView { default_hook: Some(hook), ..s.routing },
            ..s
        },
        MailboxEvent::SetRecipientIsm { recipient, ism } => MailboxView {
            routing: RoutingView {
                recipient_isms: s.routing.recipient_isms.insert(recipient, ism),
                ..s.routing
            },
            ..s
        },
    }
}

/// The state that a series of events leaves a mailbox in.
pub open spec fn after_events(s: MailboxView, events: Seq<MailboxEvent>) -> MailboxView
    decreases events.len(),
{
    if events.len() == 0 {
        s
    } else {
        after_event(after_events(s, events.drop_last()), events.last())
    }
}

/// Whatever happens to a mailbox, its domain stays what it was created
/// with, its nonce counter never moves back, and its ledger never loses an
/// entry.
pub proof fn law_lifecycle(s: MailboxView, events: Seq<MailboxEvent>)
    ensures
        after_events(s, events).local_domain == s.local_domain,
        after_events(s, events).hrp == s.hrp,
        after_events(s, events).owner == s.owner,
        after_events(s, events).nonce_counter >= s.nonce_counter,
        s.delivered.subset_of(after_events(s, events).delivered),
    decreases events.len(),
{
    if events.len() > 0 {
        law_lifecycle(s, events.drop_last());
    }
}

/// A delivered message is never taken up again: whatever has happened
/// since, a process call with its bytes fails with `AlreadyDelivered` and
/// changes nothing.
pub proof fn law_delivered_is_final(
    s: MailboxView,
    events: Seq<MailboxEvent>,
    metadata: Seq<u8>,
    encoded: Seq<u8>,
    verified: bool,
    handled: bool,
)
    requires
        decoding(encoded) is Some,
        decoding(encoded).unwrap().version == MAILBOX_VERSION,
        decoding(encoded).unwrap().destination_domain == s.local_domain,
        s.delivered.contains(message_id(decoding(encoded).unwrap())),
    ensures
        process_outcome(after_events(s, events), metadata, encoded, verified, handled) == (
            after_events(s, events),
            Err::<(), MailboxError>(MailboxError::AlreadyDelivered),
        ),
{
    law_lifecycle(s, events);
}

/// A mailbox that has run out of nonces never dispatches again: whatever
/// has happened since, a dispatch fails with `NonceExhausted` and changes
/// nothing.
pub proof fn law_exhausted_is_final(
    s: MailboxView,
    events: Seq<MailboxEvent>,
    intent: DispatchIntent,
    hook_succeeded: bool,
)
    requires
        s.nonce_counter == u32::MAX,
    ensures
        dispatch_outcome(after_events(s, events), intent, hook_succeeded) == (
            after_events(s, events),
            Err::<Seq<u8>, MailboxError>(MailboxError::NonceExhausted),
        ),
{
    law_lifecycle(s, events);
}

} // verus!

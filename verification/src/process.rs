//! The inbound processor: it admits a message once, after the verification
//! module of its recipient has accepted it, and then hands it to the
//! recipient's handler.

use vstd::prelude::*;
use crate::digest::{identify, message_id};
use crate::dispatch::{DispatchIntent, dispatch_plan, outbound_message};
use crate::error::{HandlerError, IsmError, MailboxError};
use crate::message::{Message, MessageView, ADDRESS_LEN, MAILBOX_VERSION};
use crate::message::{decode, decoding, encoding};
use crate::message::law_decode_inverts_encode;
use crate::routing::resolved_ism;
use crate::state::{Mailbox, MailboxView};

verus! {

/// A verification that a process call asks for.
#[derive(Clone, Debug, PartialEq, Eq)]
pub struct IsmCall {
    pub ism: String,
    pub metadata: Vec<u8>,
    pub message: Message,
    pub message_id: Vec<u8>,
}

/// A verification request as a mathematical value.
pub struct IsmCallView {
    pub ism: Seq<char>,
    pub metadata: Seq<u8>,
    pub message: MessageView,
    pub message_id: Seq<u8>,
}

impl View for IsmCall {
    type V = IsmCallView;

    open spec fn view(&self) -> IsmCallView {
        IsmCallView {
            ism: self.ism@,
            metadata: self.metadata@,
            message: self.message@,
            message_id: self.message_id@,
        }
    }
}

/// A handler invocation that a delivery asks for.
#[derive(Clone, Debug, PartialEq, Eq)]
pub struct HandlerCall {
    pub recipient: Vec<u8>,
    pub origin_domain: u32,
    pub sender: Vec<u8>,
    pub body: Vec<u8>,
}

/// A handler invocation as a mathematical value.
pub struct HandlerCallView {
    pub recipient: Seq<u8>,
    pub origin_domain: u32,
    pub sender: Seq<u8>,
    pub body: Seq<u8>,
}

impl View for HandlerCall {
    type V = HandlerCallView;

    open spec fn view(&self) -> HandlerCallView {
        HandlerCallView {
            recipient: self.recipient@,
            origin_domain: self.origin_domain,
            sender: self.sender@,
            body: self.body@,
        }
    }
}

/// The handler invocation that delivers `m`.
pub open spec fn handler_call_for(m: MessageView) -> HandlerCallView {
    HandlerCallView {
        recipient: m.recipient,
        origin_domain: m.origin_domain,
        sender: m.sender,
        body: m.body,
    }
}

/// Whether a verification module accepted: it must have answered, and
/// answered yes.
pub open spec fn accepted(verdict: Result<bool, IsmError>) -> bool {
    verdict matches Ok(yes) && yes
}

/// Whether a mailbox in state `s` may take up the message `m` with
/// identifier `id`, and if so which module must verify it. The checks come
/// in this order: the version, the destination, the ledger, the routing.
pub open spec fn admission(s: MailboxView, m: MessageView, id: Seq<u8>) -> Result<
    Seq<char>,
    MailboxError,
> {
    if m.version != MAILBOX_VERSION {
        Err(MailboxError::UnsupportedVersion)
    } else if m.destination_domain != s.local_domain {
        Err(MailboxError::WrongDestination)
    } else if s.delivered.contains(id) {
        Err(MailboxError::AlreadyDelivered)
    } else {
        resolved_ism(s.routing, m.recipient)
    }
}

/// What a process call decides before any verification runs: the error
/// that stops it, or the verification to ask for.
pub open spec fn verification_plan(s: MailboxView, metadata: Seq<u8>, encoded: Seq<u8>) -> Result<
    IsmCallView,
    MailboxError,
> {
    match decoding(encoded) {
        None => Err(MailboxError::MalformedMessage),
        Some(m) => match admission(s, m, message_id(m)) {
            Err(e) => Err(e),
            Ok(ism) => Ok(IsmCallView { ism, metadata, message: m, message_id: message_id(m) }),
        },
    }
}

/// The state after the verdict on `m` is in, and the handler invocation
/// that follows. The message is recorded as delivered exactly when it was
/// admissible and the verdict accepts it; otherwise nothing changes.
pub open spec fn delivery(s: MailboxView, m: MessageView, id: Seq<u8>, verified: bool) -> (
    MailboxView,
    Result<HandlerCallView, MailboxError>,
) {
    match admission(s, m, id) {
        Err(e) => (s, Err(e)),
        Ok(_) => if verified {
            (s.with_delivered(id), Ok(handler_call_for(m)))
        } else {
            (s, Err(MailboxError::VerificationFailed))
        },
    }
}

/// The state after a whole process call and what it returns, given whether
/// the verification module accepted and whether the handler succeeded. The
/// message is recorded as delivered exactly when it was admitted and
/// verified, whatever the handler then did.
pub open spec fn process_outcome(
    s: MailboxView,
    metadata: Seq<u8>,
    encoded: Seq<u8>,
    verified: bool,
    handled: bool,
) -> (MailboxView, Result<(), MailboxError>) {
    match verification_plan(s, metadata, encoded) {
        Err(e) => (s, Err(e)),
        Ok(call) => if !verified {
            (s, Err(MailboxError::VerificationFailed))
        } else if !handled {
            (s.with_delivered(call.message_id), Err(MailboxError::HandlerExecutionFailed))
        } else {
            (s.with_delivered(call.message_id), Ok(()))
        },
    }
}

/// How often a process call invokes the recipient's handler: once if the
/// message is admitted and verified, else never.
pub open spec fn handler_invocations(
    s: MailboxView,
    metadata: Seq<u8>,
    encoded: Seq<u8>,
    verified: bool,
) -> nat {
    if verification_plan(s, metadata, encoded) is Ok && verified {
        1
    } else {
        0
    }
}

/// Checks whether the mailbox may take up `message`, whose identifier is
/// `message_id`, and picks the module that must verify it.
pub fn check_admission(mailbox: &Mailbox, message: &Message, message_id: &Vec<u8>) -> (result:
    Result<String, MailboxError>)
    ensures
        match admission(mailbox@, message@, message_id@) {
            Ok(ism) => result is Ok && result->Ok_0@ == ism,
            Err(e) => result is Err && result->Err_0 == e,
        },
{
    if message.version != MAILBOX_VERSION {
        return Err(MailboxError::UnsupportedVersion);
    }
    if message.destination_domain != mailbox.local_domain() {
        return Err(MailboxError::WrongDestination);
    }
    if mailbox.is_delivered(message_id) {
        return Err(MailboxError::AlreadyDelivered);
    }
    mailbox.resolve_ism(&message.recipient)
}

/// Starts a process call: decodes the message, checks that the mailbox may
/// take it up, and names the verification to run. The mailbox is only read.
pub fn begin_process(mailbox: &Mailbox, metadata: Vec<u8>, message: &Vec<u8>) -> (result: Result<
    IsmCall,
    MailboxError,
>)
    ensures
        match verification_plan(mailbox@, metadata@, message@) {
            Ok(call) => result is Ok && result->Ok_0@ == call,
            Err(e) => result is Err && result->Err_0 == e,
        },
{
    let message = match decode(message) {
        Ok(message) => message,
        Err(e) => {
            return Err(e);
        },
    };
    let message_id = identify(&message);
    match check_admission(mailbox, &message, &message_id) {
        Ok(ism) => Ok(IsmCall { ism, metadata, message, message_id }),
        Err(e) => Err(e),
    }
}

/// Takes the verdict on `message`, whose identifier is `message_id`, as
/// `deliver` does for the identifier it computes.
pub(crate) fn settle_verdict(
    mailbox: &mut Mailbox,
    message: Message,
    message_id: Vec<u8>,
    verdict: Result<bool, IsmError>,
) -> (result: Result<HandlerCall, MailboxError>)
    ensures
        final(mailbox)@ == delivery(
            old(mailbox)@,
            message@,
            message_id@,
            accepted(verdict),
        ).0,
        match delivery(old(mailbox)@, message@, message_id@, accepted(verdict)).1 {
            Ok(call) => result is Ok && result->Ok_0@ == call,
            Err(e) => result is Err && result->Err_0 == e,
        },
{
    match check_admission(mailbox, &message, &message_id) {
        Ok(_) => {},
        Err(e) => {
            return Err(e);
        },
    }
    let verified: bool = match verdict {
        Ok(yes) => yes,
        Err(_) => false,
    };
    if !verified {
        return Err(MailboxError::VerificationFailed);
    }
    mailbox.record_delivery(message_id);
    Ok(
        HandlerCall {
            recipient: message.recipient,
            origin_domain: message.origin_domain,
            sender: message.sender,
            body: message.body,
        },
    )
}

/// Takes the verdict of the verification module on `message`. The
/// admission checks are made again, so that the look into the ledger and
/// the entry made in it are one step. If the message is still admissible
/// and the verdict accepts it, its identifier is recorded and the handler
/// invocation is returned; the entry is made before the handler runs. In
/// every other case the mailbox is as it was.
pub fn deliver(mailbox: &mut Mailbox, message: Message, verdict: Result<bool, IsmError>) -> (result:
    Result<HandlerCall, MailboxError>)
    ensures
        final(mailbox)@ == delivery(
            old(mailbox)@,
            message@,
            message_id(message@),
            accepted(verdict),
        ).0,
        match delivery(old(mailbox)@, message@, message_id(message@), accepted(verdict)).1 {
            Ok(call) => result is Ok && result->Ok_0@ == call,
            Err(e) => result is Err && result->Err_0 == e,
        },
{
    let message_id = identify(&message);
    settle_verdict(mailbox, message, message_id, verdict)
}

/// Ends a process call with what the handler returned. A failed handler
/// fails the call; the message stays delivered.
pub fn conclude_process(outcome: Result<(), HandlerError>) -> (result: Result<(), MailboxError>)
    ensures
        result == match outcome {
            Ok(_) => Ok::<(), MailboxError>(()),
            Err(_) => Err::<(), MailboxError>(MailboxError::HandlerExecutionFailed),
        },
{
    match outcome {
        Ok(_) => Ok(()),
        Err(_) => Err(MailboxError::HandlerExecutionFailed),
    }
}

/// The verification modules that a mailbox can reach, by name.
pub trait IsmRegistry {
    /// Asks the module named `ism` whether `message` is authentic.
    fn verify(&mut self, ism: &String, metadata: &Vec<u8>, message: &Message) -> Result<
        bool,
        IsmError,
    >;
}

/// The recipients that a mailbox can reach, by address.
pub trait RecipientRegistry {
    /// Hands a delivered message to the handler of `recipient`.
    fn handle(
        &mut self,
        recipient: &Vec<u8>,
        origin_domain: u32,
        sender: &Vec<u8>,
        body: &Vec<u8>,
    ) -> Result<(), HandlerError>;
}

/// Processes an inbound message: decodes and checks it, has it verified,
/// records it as delivered, and hands it to its recipient. Whatever the
/// verification module and the handler do, the result is one that
/// `process_outcome` allows: that of a verification that fails, that of a
/// handler that fails, or that of a call in which both succeed.
pub fn process<I: IsmRegistry, R: RecipientRegistry>(
    mailbox: &mut Mailbox,
    isms: &mut I,
    recipients: &mut R,
    metadata: Vec<u8>,
    message: Vec<u8>,
) -> (result: Result<(), MailboxError>)
    ensures
        ({
            let end = (final(mailbox)@, result);
            ||| end == process_outcome(old(mailbox)@, metadata@, message@, false, false)
            ||| end == process_outcome(old(mailbox)@, metadata@, message@, true, false)
            ||| end == process_outcome(old(mailbox)@, metadata@, message@, true, true)
        }),
{
    let call = match begin_process(mailbox, metadata, &message) {
        Ok(call) => call,
        Err(e) => {
            return Err(e);
        },
    };
    let verdict = isms.verify(&call.ism, &call.metadata, &call.message);
    let handler_call = match settle_verdict(mailbox, call.message, call.message_id, verdict) {
        Ok(handler_call) => handler_call,
        Err(e) => {
            return Err(e);
        },
    };
    let outcome = recipients.handle(
        &handler_call.recipient,
        handler_call.origin_domain,
        &handler_call.sender,
        &handler_call.body,
    );
    conclude_process(outcome)
}

/// A process call changes nothing but the ledger, and the ledger only
/// grows: what was delivered stays delivered.
pub proof fn law_ledger_only_grows(
    s: MailboxView,
    metadata: Seq<u8>,
    encoded: Seq<u8>,
    verified: bool,
    handled: bool,
)
    ensures
        ({
            let after = process_outcome(s, metadata, encoded, verified, handled).0;
            &&& after == (MailboxView { delivered: after.delivered, ..s })
            &&& s.delivered.subset_of(after.delivered)
        }),
{
}

/// Exactly-once delivery. If a message is admitted and verified, it is
/// recorded, whether or not the handler then succeeds; and from then on
/// every process call with the same bytes fails with `AlreadyDelivered`,
/// changes nothing and invokes no handler. So over the two calls the
/// handler runs once.
pub proof fn law_delivered_once(
    s: MailboxView,
    metadata: Seq<u8>,
    other_metadata: Seq<u8>,
    encoded: Seq<u8>,
    handled: bool,
    verified_again: bool,
    handled_again: bool,
)
    requires
        verification_plan(s, metadata, encoded) is Ok,
    ensures
        ({
            let (after, result) = process_outcome(s, metadata, encoded, true, handled);
            &&& handled ==> result is Ok
            &&& after.delivered.contains(message_id(decoding(encoded).unwrap()))
            &&& process_outcome(after, other_metadata, encoded, verified_again, handled_again) == (
                after,
                Err::<(), MailboxError>(MailboxError::AlreadyDelivered),
            )
            &&& handler_invocations(s, metadata, encoded, true) + handler_invocations(
                after,
                other_metadata,
                encoded,
                verified_again,
            ) == 1
        }),
{
}

/// A message of the right version that is addressed to another domain is
/// refused with `WrongDestination` before any verification is asked for,
/// and the mailbox is left as it is.
pub proof fn law_wrong_destination_is_refused(
    s: MailboxView,
    metadata: Seq<u8>,
    encoded: Seq<u8>,
    verified: bool,
    handled: bool,
)
    requires
        decoding(encoded) is Some,
        decoding(encoded).unwrap().version == MAILBOX_VERSION,
        decoding(encoded).unwrap().destination_domain != s.local_domain,
    ensures
        verification_plan(s, metadata, encoded) == Err::<IsmCallView, MailboxError>(
            MailboxError::WrongDestination,
        ),
        process_outcome(s, metadata, encoded, verified, handled) == (
            s,
            Err::<(), MailboxError>(MailboxError::WrongDestination),
        ),
{
}

/// A message of another version is refused with `UnsupportedVersion`, and
/// the mailbox is left as it is.
pub proof fn law_unsupported_version_is_refused(
    s: MailboxView,
    metadata: Seq<u8>,
    encoded: Seq<u8>,
    verified: bool,
    handled: bool,
)
    requires
        decoding(encoded) is Some,
        decoding(encoded).unwrap().version != MAILBOX_VERSION,
    ensures
        verification_plan(s, metadata, encoded) == Err::<IsmCallView, MailboxError>(
            MailboxError::UnsupportedVersion,
        ),
        process_outcome(s, metadata, encoded, verified, handled) == (
            s,
            Err::<(), MailboxError>(MailboxError::UnsupportedVersion),
        ),
{
}

/// A verification that fails leaves the mailbox as it is, so the same
/// message can be processed again, with whatever metadata: it is still
/// admissible, and is delivered once a verification accepts it.
pub proof fn law_failed_verification_is_retriable(
    s: MailboxView,
    metadata: Seq<u8>,
    other_metadata: Seq<u8>,
    encoded: Seq<u8>,
    handled: bool,
)
    requires
        verification_plan(s, metadata, encoded) is Ok,
    ensures
        ({
            let (after, result) = process_outcome(s, metadata, encoded, false, handled);
            &&& after == s
            &&& result == Err::<(), MailboxError>(MailboxError::VerificationFailed)
            &&& handler_invocations(s, metadata, encoded, false) == 0
            &&& verification_plan(after, other_metadata, encoded) is Ok
            &&& process_outcome(after, other_metadata, encoded, true, true).1 is Ok
        }),
{
}

/// What one mailbox dispatches, the mailbox of the destination domain
/// admits: the message decodes to what was sent, and is handed to the
/// module that verifies for its recipient, unless it was delivered before
/// or no module is configured.
pub proof fn law_dispatched_message_is_admissible(
    origin: MailboxView,
    intent: DispatchIntent,
    destination: MailboxView,
    metadata: Seq<u8>,
)
    requires
        intent.sender.len() == ADDRESS_LEN,
        dispatch_plan(origin, intent) is Ok,
        destination.local_domain == intent.dest_domain,
    ensures
        ({
            let sent = outbound_message(origin, intent);
            let plan = verification_plan(destination, metadata, encoding(sent));
            &&& decoding(encoding(sent)) == Some(sent)
            &&& dispatch_plan(origin, intent).unwrap().message_id == message_id(sent)
            &&& plan is Err ==> plan->Err_0 == MailboxError::AlreadyDelivered || plan->Err_0
                == MailboxError::NoIsmConfigured
            &&& plan is Ok ==> plan.unwrap().message == sent && plan.unwrap().message_id
                == message_id(sent)
        }),
{
    law_decode_inverts_encode(outbound_message(origin, intent));
}

} // verus!

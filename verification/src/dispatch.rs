//! The outbound dispatcher: it gives a message its nonce, names the hook
//! that must run on it, and hands out the message identifier as a receipt.

use vstd::prelude::*;
use crate::bytes::copy_range;
use crate::digest::{identify, message_id};
use crate::error::{HookError, MailboxError};
use crate::message::{Message, MessageView, ADDRESS_LEN, MAILBOX_VERSION};
use crate::msg::DispatchResponse;
use crate::routing::resolved_hook;
use crate::state::{Mailbox, MailboxView};

verus! {

/// Who is dispatching: an address of the canonical width, and whether its
/// holder may name a hook of its own.
#[derive(Debug, PartialEq, Eq)]
pub struct Caller {
    address: Vec<u8>,
    may_override_hook: bool,
}

impl Caller {
    #[verifier::type_invariant]
    spec fn canonical(&self) -> bool {
        self.address@.len() == ADDRESS_LEN
    }

    /// The caller's address.
    pub closed spec fn sender(&self) -> Seq<u8> {
        self.address@
    }

    /// Whether the caller may name a hook of its own.
    pub closed spec fn authorized(&self) -> bool {
        self.may_override_hook
    }

    /// The caller at `address`, if the address has the canonical width.
    pub fn new(address: Vec<u8>, may_override_hook: bool) -> (caller: Option<Caller>)
        ensures
            caller is Some <==> address@.len() == ADDRESS_LEN,
            caller is Some ==> caller.unwrap().sender() == address@ && caller.unwrap().authorized()
                == may_override_hook,
    {
        if address.len() == ADDRESS_LEN {
            Some(Caller { address, may_override_hook })
        } else {
            None
        }
    }

    /// The caller's address on the local chain, in canonical form.
    pub fn address(&self) -> (address: &Vec<u8>)
        ensures
            address@ == self.sender(),
            address@.len() == ADDRESS_LEN,
    {
        proof {
            use_type_invariant(self);
        }
        &self.address
    }

    /// Whether the caller may name a hook of its own.
    pub fn may_override_hook(&self) -> (yes: bool)
        ensures
            yes == self.authorized(),
    {
        self.may_override_hook
    }
}

impl Clone for Caller {
    fn clone(&self) -> (copy: Caller)
        ensures
            copy.sender() == self.sender(),
            copy.authorized() == self.authorized(),
    {
        proof {
            use_type_invariant(self);
        }
        Caller {
            address: copy_range(&self.address, 0, self.address.len()),
            may_override_hook: self.may_override_hook,
        }
    }
}

/// A hook invocation that a dispatch asks for.
#[derive(Clone, Debug, PartialEq, Eq)]
pub struct HookCall {
    pub hook: String,
    pub message: Message,
    pub message_id: Vec<u8>,
    pub metadata: Vec<u8>,
}

/// A hook invocation as a mathematical value.
pub struct HookCallView {
    pub hook: Seq<char>,
    pub message: MessageView,
    pub message_id: Seq<u8>,
    pub metadata: Seq<u8>,
}

impl View for HookCall {
    type V = HookCallView;

    open spec fn view(&self) -> HookCallView {
        HookCallView {
            hook: self.hook@,
            message: self.message@,
            message_id: self.message_id@,
            metadata: self.metadata@,
        }
    }
}

/// What a caller asks of a dispatch.
pub struct DispatchIntent {
    pub sender: Seq<u8>,
    pub may_override_hook: bool,
    pub dest_domain: u32,
    pub recipient: Seq<u8>,
    pub body: Seq<u8>,
    pub hook: Option<Seq<char>>,
    pub metadata: Option<Seq<u8>>,
}

/// The characters of an optional string.
pub open spec fn chars_of(text: Option<String>) -> Option<Seq<char>> {
    match text {
        Some(text) => Some(text@),
        None => None,
    }
}

/// The bytes of an optional byte string.
pub open spec fn bytes_of(bytes: Option<Vec<u8>>) -> Option<Seq<u8>> {
    match bytes {
        Some(bytes) => Some(bytes@),
        None => None,
    }
}

/// The intent that the arguments of a dispatch spell.
pub open spec fn intent_of(
    caller: Caller,
    dest_domain: u32,
    recipient_addr: Vec<u8>,
    msg_body: Vec<u8>,
    hook: Option<String>,
    metadata: Option<Vec<u8>>,
) -> DispatchIntent {
    DispatchIntent {
        sender: caller.sender(),
        may_override_hook: caller.authorized(),
        dest_domain,
        recipient: recipient_addr@,
        body: msg_body@,
        hook: chars_of(hook),
        metadata: bytes_of(metadata),
    }
}

/// The message that a mailbox in state `s` builds for `intent`: it carries
/// the protocol version, the next nonce and the local domain as its origin.
pub open spec fn outbound_message(s: MailboxView, intent: DispatchIntent) -> MessageView {
    MessageView {
        version: MAILBOX_VERSION,
        nonce: s.nonce_counter,
        origin_domain: s.local_domain,
        sender: intent.sender,
        destination_domain: intent.dest_domain,
        recipient: intent.recipient,
        body: intent.body,
    }
}

/// What a dispatch decides before any hook runs: the error that stops it, or
/// the hook to run, on which message, with which metadata.
pub open spec fn dispatch_plan(s: MailboxView, intent: DispatchIntent) -> Result<
    HookCallView,
    MailboxError,
> {
    if s.nonce_counter == u32::MAX {
        Err(MailboxError::NonceExhausted)
    } else if intent.recipient.len() != ADDRESS_LEN {
        Err(MailboxError::InvalidRecipient)
    } else {
        match resolved_hook(s.routing, intent.hook, intent.may_override_hook) {
            Err(e) => Err(e),
            Ok(hook) => Ok(
                HookCallView {
                    hook,
                    message: outbound_message(s, intent),
                    message_id: message_id(outbound_message(s, intent)),
                    metadata: match intent.metadata {
                        Some(metadata) => metadata,
                        None => Seq::empty(),
                    },
                },
            ),
        }
    }
}

/// The state after a dispatch and the receipt it returns, given whether the
/// hook succeeded. Only a dispatch whose hook succeeded moves the counter.
pub open spec fn dispatch_outcome(s: MailboxView, intent: DispatchIntent, hook_succeeded: bool) -> (
    MailboxView,
    Result<Seq<u8>, MailboxError>,
) {
    match dispatch_plan(s, intent) {
        Err(e) => (s, Err(e)),
        Ok(call) => if hook_succeeded {
            (s.with_next_nonce(), Ok(call.message_id))
        } else {
            (s, Err(MailboxError::HookExecutionFailed))
        },
    }
}

/// The receipt of a dispatch as a mathematical value.
pub open spec fn receipt_of(result: Result<DispatchResponse, MailboxError>) -> Result<
    Seq<u8>,
    MailboxError,
> {
    match result {
        Ok(response) => Ok(response.message_id@),
        Err(e) => Err(e),
    }
}

/// Plans a dispatch without changing the mailbox: checks that a nonce is
/// left and that the recipient has the canonical width, picks the hook, and
/// builds the message with the nonce it would take and its identifier.
pub fn plan_dispatch(
    mailbox: &Mailbox,
    caller: Caller,
    dest_domain: u32,
    recipient_addr: Vec<u8>,
    msg_body: Vec<u8>,
    hook: Option<String>,
    metadata: Option<Vec<u8>>,
) -> (result: Result<HookCall, MailboxError>)
    ensures
        match dispatch_plan(
            mailbox@,
            intent_of(caller, dest_domain, recipient_addr, msg_body, hook, metadata),
        ) {
            Ok(call) => result is Ok && result->Ok_0@ == call,
            Err(e) => result is Err && result->Err_0 == e,
        },
{
    let nonce = mailbox.nonce();
    if nonce == u32::MAX {
        return Err(MailboxError::NonceExhausted);
    }
    if recipient_addr.len() != ADDRESS_LEN {
        return Err(MailboxError::InvalidRecipient);
    }
    let hook = match mailbox.resolve_hook(hook, caller.may_override_hook) {
        Ok(hook) => hook,
        Err(e) => {
            return Err(e);
        },
    };
    let message = Message {
        version: MAILBOX_VERSION,
        nonce,
        origin_domain: mailbox.local_domain(),
        sender: caller.address,
        destination_domain: dest_domain,
        recipient: recipient_addr,
        body: msg_body,
    };
    let message_id = identify(&message);
    let metadata = match metadata {
        Some(metadata) => metadata,
        None => Vec::new(),
    };
    Ok(HookCall { hook, message, message_id, metadata })
}

/// Starts a dispatch: plans it and, if the plan stands, moves the counter
/// past the nonce that the message has taken, before any hook runs.
fn begin_dispatch(
    mailbox: &mut Mailbox,
    caller: Caller,
    dest_domain: u32,
    recipient_addr: Vec<u8>,
    msg_body: Vec<u8>,
    hook: Option<String>,
    metadata: Option<Vec<u8>>,
) -> (result: Result<HookCall, MailboxError>)
    ensures
        match dispatch_plan(
            old(mailbox)@,
            intent_of(caller, dest_domain, recipient_addr, msg_body, hook, metadata),
        ) {
            Ok(call) => {
                &&& result is Ok
                &&& result->Ok_0@ == call
                &&& final(mailbox)@ == old(mailbox)@.with_next_nonce()
            },
            Err(e) => {
                &&& result is Err
                &&& result->Err_0 == e
                &&& final(mailbox)@ == old(mailbox)@
            },
        },
{
    match plan_dispatch(mailbox, caller, dest_domain, recipient_addr, msg_body, hook, metadata) {
        Ok(call) => {
            mailbox.take_nonce();
            Ok(call)
        },
        Err(e) => Err(e),
    }
}

/// Ends a dispatch that `begin_dispatch` started with what the hook
/// returned. If the hook failed, the dispatch fails and is undone: the
/// counter goes back to the nonce that the message had taken.
fn conclude_dispatch(mailbox: &mut Mailbox, call: HookCall, outcome: Result<(), HookError>) -> (result:
    Result<DispatchResponse, MailboxError>)
    ensures
        match outcome {
            Ok(_) => {
                &&& receipt_of(result) == Ok::<Seq<u8>, MailboxError>(call.message_id@)
                &&& final(mailbox)@ == old(mailbox)@
            },
            Err(_) => {
                &&& receipt_of(result) == Err::<Seq<u8>, MailboxError>(
                    MailboxError::HookExecutionFailed,
                )
                &&& final(mailbox)@ == old(mailbox)@.rewound_to(call.message.nonce)
            },
        },
{
    match outcome {
        Ok(_) => Ok(DispatchResponse { message_id: call.message_id }),
        Err(_) => {
            mailbox.rewind_nonce(call.message.nonce);
            Err(MailboxError::HookExecutionFailed)
        },
    }
}

/// Carries out a dispatch whose hook has run, with what the hook returned.
/// If the plan stands and the hook succeeded, the message takes the next
/// nonce and its identifier is the receipt. If the plan fails, its error is
/// returned; if the hook failed, `HookExecutionFailed`; in both cases the
/// mailbox is as it was.
pub fn complete_dispatch(
    mailbox: &mut Mailbox,
    caller: Caller,
    dest_domain: u32,
    recipient_addr: Vec<u8>,
    msg_body: Vec<u8>,
    hook: Option<String>,
    metadata: Option<Vec<u8>>,
    outcome: Result<(), HookError>,
) -> (result: Result<DispatchResponse, MailboxError>)
    ensures
        (final(mailbox)@, receipt_of(result)) == dispatch_outcome(
            old(mailbox)@,
            intent_of(caller, dest_domain, recipient_addr, msg_body, hook, metadata),
            outcome is Ok,
        ),
{
    let call = match begin_dispatch(
        mailbox,
        caller,
        dest_domain,
        recipient_addr,
        msg_body,
        hook,
        metadata,
    ) {
        Ok(call) => call,
        Err(e) => {
            return Err(e);
        },
    };
    conclude_dispatch(mailbox, call, outcome)
}

/// The hooks that a mailbox can reach, by name.
pub trait HookRegistry {
    /// Runs the hook named `hook` on a dispatched message.
    fn execute(&mut self, hook: &String, message: &Message, metadata: &Vec<u8>) -> Result<
        (),
        HookError,
    >;
}

/// Dispatches a message to `recipient_addr` on `dest_domain`: assigns it the
/// next nonce, moves the counter, runs the hook on the message, and returns
/// its identifier. Whatever the hook does, the result is one of the two
/// that `dispatch_outcome` allows: with a hook that succeeds the counter has
/// moved by one, and in every other case the mailbox is as it was.
pub fn dispatch<H: HookRegistry>(
    mailbox: &mut Mailbox,
    hooks: &mut H,
    caller: Caller,
    dest_domain: u32,
    recipient_addr: Vec<u8>,
    msg_body: Vec<u8>,
    hook: Option<String>,
    metadata: Option<Vec<u8>>,
) -> (result: Result<DispatchResponse, MailboxError>)
    ensures
        ({
            let intent = intent_of(caller, dest_domain, recipient_addr, msg_body, hook, metadata);
            let end = (final(mailbox)@, receipt_of(result));
            ||| end == dispatch_outcome(old(mailbox)@, intent, true)
            ||| end == dispatch_outcome(old(mailbox)@, intent, false)
        }),
{
    let call = match begin_dispatch(
        mailbox,
        caller,
        dest_domain,
        recipient_addr,
        msg_body,
        hook,
        metadata,
    ) {
        Ok(call) => call,
        Err(e) => {
            return Err(e);
        },
    };
    let outcome = hooks.execute(&call.hook, &call.message, &call.metadata);
    conclude_dispatch(mailbox, call, outcome)
}

/// A dispatch touches nothing but the counter, and the counter never moves
/// back.
pub proof fn law_dispatch_moves_only_the_counter(
    s: MailboxView,
    intent: DispatchIntent,
    hook_succeeded: bool,
)
    ensures
        ({
            let after = dispatch_outcome(s, intent, hook_succeeded).0;
            &&& after == (MailboxView { nonce_counter: after.nonce_counter, ..s })
            &&& after.nonce_counter >= s.nonce_counter
        }),
{
}

/// The state after a series of dispatches, each with the fate of its hook,
/// and the messages that were sent, in order.
pub open spec fn dispatch_run(s: MailboxView, attempts: Seq<(DispatchIntent, bool)>) -> (
    MailboxView,
    Seq<MessageView>,
)
    decreases attempts.len(),
{
    if attempts.len() == 0 {
        (s, Seq::empty())
    } else {
        let (before, sent) = dispatch_run(s, attempts.drop_last());
        let (intent, hook_succeeded) = attempts.last();
        let (after, receipt) = dispatch_outcome(before, intent, hook_succeeded);
        if receipt is Ok {
            (after, sent.push(outbound_message(before, intent)))
        } else {
            (after, sent)
        }
    }
}

/// Over any series of dispatches on one mailbox, the messages that are sent
/// carry consecutive nonces, starting at the counter the series began with:
/// none is skipped and none is used twice. The counter ends just past the
/// last of them.
pub proof fn law_nonces_are_consecutive(s: MailboxView, attempts: Seq<(DispatchIntent, bool)>)
    ensures
        ({
            let (end, sent) = dispatch_run(s, attempts);
            &&& end.nonce_counter == s.nonce_counter + sent.len()
            &&& forall|i: int| 0 <= i < sent.len() ==> (#[trigger] sent[i]).nonce == s.nonce_counter + i
            &&& forall|i: int, j: int|
                0 <= i < j < sent.len() ==> (#[trigger] sent[i]).nonce < (#[trigger] sent[j]).nonce
        }),
    decreases attempts.len(),
{
    if attempts.len() > 0 {
        law_nonces_are_consecutive(s, attempts.drop_last());
    }
}

} // verus!

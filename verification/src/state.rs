//! The state of one mailbox: its domain, its nonce counter, its routing
//! policy and its delivery ledger.

use vstd::prelude::*;
use crate::error::MailboxError;
use crate::ledger::{DeliveryLedger, delivered_among};
use crate::msg::InstantiateMsg;
use crate::routing::{RoutingPolicy, RoutingView, resolved_ism, resolved_hook};

verus! {

/// A mailbox. It is created once, with its domain fixed; after that only a
/// dispatch moves the nonce counter and only a delivery adds to the ledger.
#[derive(Debug)]
pub struct Mailbox {
    hrp: String,
    owner: String,
    local_domain: u32,
    nonce_counter: u32,
    routing: RoutingPolicy,
    delivered: DeliveryLedger,
}

/// A mailbox as a mathematical value.
pub struct MailboxView {
    pub hrp: Seq<char>,
    pub owner: Seq<char>,
    pub local_domain: u32,
    /// The nonce that the next dispatch will take.
    pub nonce_counter: u32,
    pub routing: RoutingView,
    /// The identifiers of the messages delivered so far.
    pub delivered: Set<Seq<u8>>,
}

impl MailboxView {
    /// The state a mailbox is created in: nothing dispatched, nothing
    /// delivered, nothing configured.
    pub open spec fn initial(hrp: Seq<char>, owner: Seq<char>, domain: u32) -> MailboxView {
        MailboxView {
            hrp,
            owner,
            local_domain: domain,
            nonce_counter: 0,
            routing: RoutingView {
                default_ism: None,
                default_hook: None,
                recipient_isms: Map::empty(),
            },
            delivered: Set::empty(),
        }
    }

    /// This state after one more dispatch.
    pub open spec fn with_next_nonce(self) -> MailboxView
        recommends
            self.nonce_counter < u32::MAX,
    {
        MailboxView { nonce_counter: (self.nonce_counter + 1) as u32, ..self }
    }

    /// This state with the counter back at `nonce`, if it was beyond.
    pub open spec fn rewound_to(self, nonce: u32) -> MailboxView {
        if nonce < self.nonce_counter {
            MailboxView { nonce_counter: nonce, ..self }
        } else {
            self
        }
    }

    /// This state with `id` delivered.
    pub open spec fn with_delivered(self, id: Seq<u8>) -> MailboxView {
        MailboxView { delivered: self.delivered.insert(id), ..self }
    }
}

impl View for Mailbox {
    type V = MailboxView;

    closed spec fn view(&self) -> MailboxView {
        MailboxView {
            hrp: self.hrp@,
            owner: self.owner@,
            local_domain: self.local_domain,
            nonce_counter: self.nonce_counter,
            routing: self.routing@,
            delivered: self.delivered@,
        }
    }
}

impl Mailbox {
    /// Creates the mailbox of the domain that `msg` names.
    pub fn instantiate(msg: InstantiateMsg) -> (mailbox: Mailbox)
        ensures
            mailbox@ == MailboxView::initial(msg.hrp@, msg.owner@, msg.domain),
    {
        let mailbox = Mailbox {
            hrp: msg.hrp,
            owner: msg.owner,
            local_domain: msg.domain,
            nonce_counter: 0,
            routing: RoutingPolicy::new(),
            delivered: DeliveryLedger::new(),
        };
        assert(mailbox@.routing == MailboxView::initial(msg.hrp@, msg.owner@, msg.domain).routing);
        mailbox
    }

    /// Rebuilds a mailbox from what was stored of it: its configuration, its
    /// counter, its defaults and the identifiers it has delivered. No
    /// recipient has a verification module of its own yet.
    pub fn restore(
        config: InstantiateMsg,
        nonce_counter: u32,
        default_ism: Option<String>,
        default_hook: Option<String>,
        delivered: &Vec<Vec<u8>>,
    ) -> (mailbox: Mailbox)
        ensures
            mailbox@ == (MailboxView {
                nonce_counter,
                routing: RoutingView {
                    default_ism: match default_ism {
                        Some(ism) => Some(ism@),
                        None => None,
                    },
                    default_hook: match default_hook {
                        Some(hook) => Some(hook@),
                        None => None,
                    },
                    recipient_isms: Map::empty(),
                },
                delivered: delivered_among(delivered@, delivered@.len() as int),
                ..MailboxView::initial(config.hrp@, config.owner@, config.domain)
            }),
    {
        let mut routing = RoutingPolicy::new();
        if let Some(ism) = default_ism {
            routing.set_default_ism(ism);
        }
        if let Some(hook) = default_hook {
            routing.set_default_hook(hook);
        }
        Mailbox {
            hrp: config.hrp,
            owner: config.owner,
            local_domain: config.domain,
            nonce_counter,
            routing,
            delivered: DeliveryLedger::from_ids(delivered),
        }
    }

    /// The address prefix of the local chain.
    pub fn hrp(&self) -> (hrp: String)
        ensures
            hrp@ == self@.hrp,
    {
        self.hrp.clone()
    }

    /// The account that administers the mailbox.
    pub fn owner(&self) -> (owner: String)
        ensures
            owner@ == self@.owner,
    {
        self.owner.clone()
    }

    /// The domain of the local chain.
    pub fn local_domain(&self) -> (domain: u32)
        ensures
            domain == self@.local_domain,
    {
        self.local_domain
    }

    /// The nonce that the next dispatch will take.
    pub fn nonce(&self) -> (nonce: u32)
        ensures
            nonce == self@.nonce_counter,
    {
        self.nonce_counter
    }

    /// Whether the message with identifier `id` has been delivered.
    pub fn is_delivered(&self, id: &Vec<u8>) -> (delivered: bool)
        ensures
            delivered == self@.delivered.contains(id@),
    {
        self.delivered.contains(id)
    }

    /// How many messages have been delivered.
    pub fn delivered_count(&self) -> (n: usize)
        ensures
            n == self@.delivered.len(),
    {
        self.delivered.count()
    }

    /// The default verification module, if one is set.
    pub fn default_ism(&self) -> (ism: Option<String>)
        ensures
            ism is Some == self@.routing.default_ism is Some,
            ism is Some ==> ism.unwrap()@ == self@.routing.default_ism.unwrap(),
    {
        self.routing.default_ism()
    }

    /// The default hook, if one is set.
    pub fn default_hook(&self) -> (hook: Option<String>)
        ensures
            hook is Some == self@.routing.default_hook is Some,
            hook is Some ==> hook.unwrap()@ == self@.routing.default_hook.unwrap(),
    {
        self.routing.default_hook()
    }

    /// Makes `ism` the default verification module. Nothing else changes.
    pub fn set_default_ism(&mut self, ism: String)
        ensures
            final(self)@ == (MailboxView {
                routing: RoutingView { default_ism: Some(ism@), ..old(self)@.routing },
                ..old(self)@
            }),
    {
        self.routing.set_default_ism(ism);
    }

    /// Makes `hook` the default hook. Nothing else changes.
    pub fn set_default_hook(&mut self, hook: String)
        ensures
            final(self)@ == (MailboxView {
                routing: RoutingView { default_hook: Some(hook@), ..old(self)@.routing },
                ..old(self)@
            }),
    {
        self.routing.set_default_hook(hook);
    }

    /// Registers `ism` as the verification module of `recipient`, in place
    /// of any it had. Nothing else changes.
    pub fn set_recipient_ism(&mut self, recipient: Vec<u8>, ism: String)
        ensures
            final(self)@ == (MailboxView {
                routing: RoutingView {
                    recipient_isms: old(self)@.routing.recipient_isms.insert(recipient@, ism@),
                    ..old(self)@.routing
                },
                ..old(self)@
            }),
    {
        self.routing.set_recipient_ism(recipient, ism);
    }

    /// Picks the verification module for `recipient`: its own if it has
    /// registered one, else the default.
    pub fn resolve_ism(&self, recipient: &Vec<u8>) -> (result: Result<String, MailboxError>)
        ensures
            match resolved_ism(self@.routing, recipient@) {
                Ok(ism) => result is Ok && result->Ok_0@ == ism,
                Err(e) => result is Err && result->Err_0 == e,
            },
    {
        self.routing.resolve_ism(recipient)
    }

    /// Picks the hook for a dispatch: the caller's choice if it made one and
    /// may make one, else the default.
    pub fn resolve_hook(&self, explicit_override: Option<String>, authorized: bool) -> (result:
        Result<String, MailboxError>)
        ensures
            match resolved_hook(
                self@.routing,
                match explicit_override {
                    Some(hook) => Some(hook@),
                    None => None,
                },
                authorized,
            ) {
                Ok(hook) => result is Ok && result->Ok_0@ == hook,
                Err(e) => result is Err && result->Err_0 == e,
            },
    {
        self.routing.resolve_hook(explicit_override, authorized)
    }

    /// Hands out the current nonce and moves the counter past it.
    pub(crate) fn take_nonce(&mut self) -> (nonce: u32)
        requires
            old(self)@.nonce_counter < u32::MAX,
        ensures
            nonce == old(self)@.nonce_counter,
            final(self)@ == old(self)@.with_next_nonce(),
    {
        let nonce: u32 = self.nonce_counter;
        self.nonce_counter = nonce + 1;
        nonce
    }

    /// Moves the counter back to `nonce` if it is beyond.
    pub(crate) fn rewind_nonce(&mut self, nonce: u32)
        ensures
            final(self)@ == old(self)@.rewound_to(nonce),
    {
        if nonce < self.nonce_counter {
            self.nonce_counter = nonce;
        }
    }

    /// Records `id` as delivered unless it already is; says whether it was
    /// new.
    pub(crate) fn record_delivery(&mut self, id: Vec<u8>) -> (fresh: bool)
        ensures
            fresh == !old(self)@.delivered.contains(id@),
            final(self)@ == old(self)@.with_delivered(id@),
    {
        self.delivered.record(id)
    }
}

} // verus!

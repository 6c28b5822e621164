//! The routing policy: which verification module judges a message for a
//! recipient, and which hook runs after a dispatch.

use vstd::prelude::*;
use crate::bytes::same_bytes;
use crate::error::MailboxError;

verus! {

/// One recipient's own verification module.
#[derive(Debug)]
struct Route {
    recipient: Vec<u8>,
    ism: String,
}

/// The defaults of a mailbox and the recipients' own verification modules.
#[derive(Debug)]
pub struct RoutingPolicy {
    default_ism: Option<String>,
    default_hook: Option<String>,
    routes: Vec<Route>,
}

/// A routing policy as a mathematical value.
pub struct RoutingView {
    pub default_ism: Option<Seq<char>>,
    pub default_hook: Option<Seq<char>>,
    pub recipient_isms: Map<Seq<u8>, Seq<char>>,
}

/// The verification module for `recipient`: its own if it has registered
/// one, else the default; `NoIsmConfigured` if there is neither.
pub open spec fn resolved_ism(policy: RoutingView, recipient: Seq<u8>) -> Result<
    Seq<char>,
    MailboxError,
> {
    if policy.recipient_isms.contains_key(recipient) {
        Ok(policy.recipient_isms[recipient])
    } else {
        match policy.default_ism {
            Some(ism) => Ok(ism),
            None => Err(MailboxError::NoIsmConfigured),
        }
    }
}

/// The hook for a dispatch: the caller's choice if there is one and the
/// caller may make it, else the default; `NoHookConfigured` if there is
/// neither.
pub open spec fn resolved_hook(
    policy: RoutingView,
    explicit_override: Option<Seq<char>>,
    authorized: bool,
) -> Result<Seq<char>, MailboxError> {
    if explicit_override is Some && authorized {
        Ok(explicit_override.unwrap())
    } else {
        match policy.default_hook {
            Some(hook) => Ok(hook),
            None => Err(MailboxError::NoHookConfigured),
        }
    }
}

spec fn has_route(entries: Seq<(Seq<u8>, Seq<char>)>, recipient: Seq<u8>) -> bool {
    exists|i: int| 0 <= i < entries.len() && entries[i].0 == recipient
}

spec fn route_index(entries: Seq<(Seq<u8>, Seq<char>)>, recipient: Seq<u8>) -> int {
    choose|i: int| 0 <= i < entries.len() && entries[i].0 == recipient
}

spec fn distinct_recipients(entries: Seq<(Seq<u8>, Seq<char>)>) -> bool {
    forall|i: int, j: int| 0 <= i < j < entries.len() ==> entries[i].0 != entries[j].0
}

spec fn route_table(entries: Seq<(Seq<u8>, Seq<char>)>) -> Map<Seq<u8>, Seq<char>> {
    Map::new(
        |recipient: Seq<u8>| has_route(entries, recipient),
        |recipient: Seq<u8>| entries[route_index(entries, recipient)].1,
    )
}

proof fn lemma_route_at(entries: Seq<(Seq<u8>, Seq<char>)>, i: int)
    requires
        distinct_recipients(entries),
        0 <= i < entries.len(),
    ensures
        route_table(entries).contains_key(entries[i].0),
        route_table(entries)[entries[i].0] == entries[i].1,
{
    let j = route_index(entries, entries[i].0);
    assert(0 <= j < entries.len() && entries[j].0 == entries[i].0);
    if j < i {
        assert(entries[j].0 != entries[i].0);
    } else if i < j {
        assert(entries[i].0 != entries[j].0);
    }
}

impl View for RoutingPolicy {
    type V = RoutingView;

    closed spec fn view(&self) -> RoutingView {
        RoutingView {
            default_ism: match self.default_ism {
                Some(ism) => Some(ism@),
                None => None,
            },
            default_hook: match self.default_hook {
                Some(hook) => Some(hook@),
                None => None,
            },
            recipient_isms: route_table(self.entries()),
        }
    }
}

impl RoutingPolicy {
    spec fn entries(&self) -> Seq<(Seq<u8>, Seq<char>)> {
        self.routes@.map_values(|route: Route| (route.recipient@, route.ism@))
    }

    /// No recipient is registered twice.
    #[verifier::type_invariant]
    spec fn distinct(&self) -> bool {
        distinct_recipients(self.entries())
    }

    /// A policy with no defaults and no recipient registered.
    pub fn new() -> (policy: RoutingPolicy)
        ensures
            policy@.default_ism is None,
            policy@.default_hook is None,
            policy@.recipient_isms == Map::<Seq<u8>, Seq<char>>::empty(),
    {
        let policy = RoutingPolicy { default_ism: None, default_hook: None, routes: Vec::new() };
        assert(policy@.recipient_isms =~= Map::<Seq<u8>, Seq<char>>::empty());
        policy
    }

    /// The default verification module, if one is set.
    pub fn default_ism(&self) -> (ism: Option<String>)
        ensures
            ism is Some == self@.default_ism is Some,
            ism is Some ==> ism.unwrap()@ == self@.default_ism.unwrap(),
    {
        match &self.default_ism {
            Some(ism) => Some(ism.clone()),
            None => None,
        }
    }

    /// The default hook, if one is set.
    pub fn default_hook(&self) -> (hook: Option<String>)
        ensures
            hook is Some == self@.default_hook is Some,
            hook is Some ==> hook.unwrap()@ == self@.default_hook.unwrap(),
    {
        match &self.default_hook {
            Some(hook) => Some(hook.clone()),
            None => None,
        }
    }

    /// Makes `ism` the default verification module.
    pub fn set_default_ism(&mut self, ism: String)
        ensures
            final(self)@ == (RoutingView { default_ism: Some(ism@), ..old(self)@ }),
    {
        proof {
            use_type_invariant(&*self);
        }
        self.default_ism = Some(ism);
    }

    /// Makes `hook` the default hook.
    pub fn set_default_hook(&mut self, hook: String)
        ensures
            final(self)@ == (RoutingView { default_hook: Some(hook@), ..old(self)@ }),
    {
        proof {
            use_type_invariant(&*self);
        }
        self.default_hook = Some(hook);
    }

    /// Where `recipient` stands in the table, if it is registered.
    fn position(&self, recipient: &Vec<u8>) -> (at: Option<usize>)
        ensures
            match at {
                Some(i) => i < self.routes@.len() && self.entries()[i as int].0 == recipient@,
                None => forall|j: int|
                    0 <= j < self.entries().len() ==> self.entries()[j].0 != recipient@,
            },
    {
        let mut i: usize = 0;
        while i < self.routes.len()
            invariant
                i <= self.routes@.len(),
                forall|j: int| 0 <= j < i ==> self.entries()[j].0 != recipient@,
            decreases self.routes@.len() - i,
        {
            if same_bytes(&self.routes[i].recipient, recipient) {
                assert(self.entries()[i as int].0 == recipient@);
                return Some(i);
            }
            i += 1;
        }
        None
    }

    /// Registers `ism` as the verification module of `recipient`, in place
    /// of any it had.
    pub fn set_recipient_ism(&mut self, recipient: Vec<u8>, ism: String)
        ensures
            final(self)@ == (RoutingView {
                recipient_isms: old(self)@.recipient_isms.insert(recipient@, ism@),
                ..old(self)@
            }),
    {
        proof {
            use_type_invariant(&*self);
        }
        let ghost before = self.entries();
        let ghost key = recipient@;
        let ghost value = ism@;
        let at = self.position(&recipient);
        let mut routes: Vec<Route> = Vec::new();
        core::mem::swap(&mut self.routes, &mut routes);
        let ghost slot: int = match at {
            Some(i) => i as int,
            None => before.len() as int,
        };
        match at {
            Some(i) => {
                routes.set(i, Route { recipient, ism });
            },
            None => {
                routes.push(Route { recipient, ism });
            },
        }
        proof {
            let after = routes@.map_values(|route: Route| (route.recipient@, route.ism@));
            if at is Some {
                assert(after =~= before.update(slot, (key, value)));
            } else {
                assert(after =~= before.push((key, value)));
            }
            assert(distinct_recipients(after));
            assert forall|r: Seq<u8>| #[trigger]
                has_route(after, r) <==> (r == key || has_route(before, r)) by {
                if has_route(after, r) {
                    let k = route_index(after, r);
                    if r != key {
                        assert(before[k].0 == r);
                    }
                }
                if has_route(before, r) {
                    let k = route_index(before, r);
                    assert(after[k].0 == r);
                }
                if r == key {
                    assert(after[slot].0 == r);
                }
            }
            assert forall|r: Seq<u8>| has_route(after, r) implies #[trigger] route_table(after)[r]
                == old(self)@.recipient_isms.insert(key, value)[r] by {
                let k = route_index(after, r);
                lemma_route_at(after, k);
                if r != key {
                    assert(before[k].0 == r);
                    lemma_route_at(before, k);
                }
            }
            assert(route_table(after) =~= old(self)@.recipient_isms.insert(key, value));
        }
        core::mem::swap(&mut self.routes, &mut routes);
    }

    /// Picks the verification module for `recipient`.
    pub fn resolve_ism(&self, recipient: &Vec<u8>) -> (result: Result<String, MailboxError>)
        ensures
            match resolved_ism(self@, recipient@) {
                Ok(ism) => result is Ok && result->Ok_0@ == ism,
                Err(e) => result is Err && result->Err_0 == e,
            },
    {
        if let Some(i) = self.position(recipient) {
            proof {
                use_type_invariant(self);
                lemma_route_at(self.entries(), i as int);
            }
            return Ok(self.routes[i].ism.clone());
        }
        match &self.default_ism {
            Some(ism) => Ok(ism.clone()),
            None => Err(MailboxError::NoIsmConfigured),
        }
    }

    /// Picks the hook for a dispatch. `authorized` says whether the caller
    /// may choose a hook of its own.
    pub fn resolve_hook(&self, explicit_override: Option<String>, authorized: bool) -> (result:
        Result<String, MailboxError>)
        ensures
            match resolved_hook(
                self@,
                match explicit_override {
                    Some(hook) => Some(hook@),
                    None => None,
                },
                authorized,
            ) {
                Ok(hook) => result is Ok && result->Ok_0@ == hook,
                Err(e) => result is Err && result->Err_0 == e,
            },
    {
        if authorized {
            if let Some(hook) = explicit_override {
                return Ok(hook);
            }
        }
        match &self.default_hook {
            Some(hook) => Ok(hook.clone()),
            None => Err(MailboxError::NoHookConfigured),
        }
    }
}

} // verus!

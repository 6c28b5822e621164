//! The read-only questions a mailbox answers. An answer shows the mailbox as
//! the last completed call left it.

use vstd::prelude::*;
use crate::error::MailboxError;
use crate::msg::{
    DefaultHookResponse, DefaultIsmResponse, HrpResponse, LocalDomainResponse, MailboxQueryMsg,
    MessageDeliveredResponse, QueryMsg, QueryResponse, RecipientIsmResponse,
};
use crate::routing::resolved_ism;
use crate::state::{Mailbox, MailboxView};

verus! {

/// An answer as a mathematical value.
pub enum QueryResponseView {
    Hrp(Seq<char>),
    LocalDomain(u32),
    MessageDelivered(bool),
    DefaultIsm(Seq<char>),
    DefaultHook(Seq<char>),
    RecipientIsm(Seq<char>),
}

impl View for QueryResponse {
    type V = QueryResponseView;

    open spec fn view(&self) -> QueryResponseView {
        match *self {
            QueryResponse::Hrp(r) => QueryResponseView::Hrp(r.hrp@),
            QueryResponse::LocalDomain(r) => QueryResponseView::LocalDomain(r.local_domain),
            QueryResponse::MessageDelivered(r) => QueryResponseView::MessageDelivered(r.delivered),
            QueryResponse::DefaultIsm(r) => QueryResponseView::DefaultIsm(r.default_ism@),
            QueryResponse::DefaultHook(r) => QueryResponseView::DefaultHook(r.default_hook@),
            QueryResponse::RecipientIsm(r) => QueryResponseView::RecipientIsm(r.ism@),
        }
    }
}

/// What a mailbox in state `s` answers to `question`. Asking for a default
/// that is not set, or for the module of a recipient when none applies, is
/// an error.
pub open spec fn answer(s: MailboxView, question: MailboxQueryMsg) -> Result<
    QueryResponseView,
    MailboxError,
> {
    match question {
        MailboxQueryMsg::Hrp {  } => Ok(QueryResponseView::Hrp(s.hrp)),
        MailboxQueryMsg::LocalDomain {  } => Ok(QueryResponseView::LocalDomain(s.local_domain)),
        MailboxQueryMsg::MessageDelivered { id } => Ok(
            QueryResponseView::MessageDelivered(s.delivered.contains(id@)),
        ),
        MailboxQueryMsg::DefaultIsm {  } => match s.routing.default_ism {
            Some(ism) => Ok(QueryResponseView::DefaultIsm(ism)),
            None => Err(MailboxError::NoIsmConfigured),
        },
        MailboxQueryMsg::DefaultHook {  } => match s.routing.default_hook {
            Some(hook) => Ok(QueryResponseView::DefaultHook(hook)),
            None => Err(MailboxError::NoHookConfigured),
        },
        MailboxQueryMsg::RecipientIsm { recipient_addr } => match resolved_ism(
            s.routing,
            recipient_addr@,
        ) {
            Ok(ism) => Ok(QueryResponseView::RecipientIsm(ism)),
            Err(e) => Err(e),
        },
    }
}

/// Answers a question about the mailbox itself.
pub fn query_mailbox(mailbox: &Mailbox, question: &MailboxQueryMsg) -> (result: Result<
    QueryResponse,
    MailboxError,
>)
    ensures
        match answer(mailbox@, *question) {
            Ok(response) => result is Ok && result->Ok_0@ == response,
            Err(e) => result is Err && result->Err_0 == e,
        },
{
    match question {
        MailboxQueryMsg::Hrp {  } => Ok(QueryResponse::Hrp(HrpResponse { hrp: mailbox.hrp() })),
        MailboxQueryMsg::LocalDomain {  } => Ok(
            QueryResponse::LocalDomain(
                LocalDomainResponse { local_domain: mailbox.local_domain() },
            ),
        ),
        MailboxQueryMsg::MessageDelivered { id } => Ok(
            QueryResponse::MessageDelivered(
                MessageDeliveredResponse { delivered: mailbox.is_delivered(id) },
            ),
        ),
        MailboxQueryMsg::DefaultIsm {  } => match mailbox.default_ism() {
            Some(default_ism) => Ok(QueryResponse::DefaultIsm(DefaultIsmResponse { default_ism })),
            None => Err(MailboxError::NoIsmConfigured),
        },
        MailboxQueryMsg::DefaultHook {  } => match mailbox.default_hook() {
            Some(default_hook) => Ok(
                QueryResponse::DefaultHook(DefaultHookResponse { default_hook }),
            ),
            None => Err(MailboxError::NoHookConfigured),
        },
        MailboxQueryMsg::RecipientIsm { recipient_addr } => match mailbox.resolve_ism(
            recipient_addr,
        ) {
            Ok(ism) => Ok(QueryResponse::RecipientIsm(RecipientIsmResponse { ism })),
            Err(e) => Err(e),
        },
    }
}

/// Answers a question put to the mailbox.
pub fn query(mailbox: &Mailbox, question: &QueryMsg) -> (result: Result<
    QueryResponse,
    MailboxError,
>)
    ensures
        match *question {
            QueryMsg::Base(base) => match answer(mailbox@, base) {
                Ok(response) => result is Ok && result->Ok_0@ == response,
                Err(e) => result is Err && result->Err_0 == e,
            },
        },
{
    match question {
        QueryMsg::Base(base) => query_mailbox(mailbox, base),
    }
}

} // verus!

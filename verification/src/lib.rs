//! The core of an interchain mailbox.
//!
//! A mailbox sends messages to other chains and takes in messages from
//! them. Sending is `dispatch`: the message gets the next nonce of this
//! mailbox, a hook runs on it, and its identifier comes back as the receipt.
//! Taking in is `process`: the message is decoded and checked, the
//! verification module of its recipient judges it, it is entered in the
//! delivery ledger, and the recipient's handler gets it. A message is
//! delivered at most once.
//!
//! - `message` holds the message and its canonical bytes, `digest` its
//!   identifier.
//! - `state` holds the mailbox, `ledger` the delivered identifiers,
//!   `routing` the choice of verification module and hook.
//! - `dispatch` and `process` hold the two operations, each as one call over
//!   the collaborators it needs and as steps for a caller that runs the
//!   collaborators itself.
//! - `query` answers read-only questions, `msg` holds the requests and
//!   answers, `lifecycle` what holds over any series of calls.
//!
//! Everything is verified but the Keccak-256 digest, which `digest` takes
//! from the `sha3` crate.

pub mod bytes;
pub mod digest;
pub mod dispatch;
pub mod error;
pub mod ledger;
pub mod lifecycle;
pub mod message;
pub mod msg;
pub mod process;
pub mod query;
pub mod routing;
pub mod state;

pub use digest::{identify, MESSAGE_ID_LEN};
pub use dispatch::{complete_dispatch, dispatch, plan_dispatch, Caller, HookCall, HookRegistry};
pub use error::{HandlerError, HookError, IsmError, MailboxError};
pub use ledger::DeliveryLedger;
pub use message::{decode, encode, Message, ADDRESS_LEN, HEADER_LEN, MAILBOX_VERSION};
pub use msg::{
    DefaultHookResponse, DefaultIsmResponse, DispatchResponse, ExecuteMsg, HrpResponse,
    InstantiateMsg, LocalDomainResponse, MailboxQueryMsg, MessageDeliveredResponse, QueryMsg,
    QueryResponse, RecipientIsmResponse,
};
pub use process::{
    begin_process, check_admission, conclude_process, deliver, process, HandlerCall, IsmCall,
    IsmRegistry, RecipientRegistry,
};
pub use query::{query, query_mailbox};
pub use routing::RoutingPolicy;
pub use state::Mailbox;

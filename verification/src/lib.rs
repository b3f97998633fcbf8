//! A minimal actor runtime core.
//!
//! An actor is a unit of state that handles one message at a time. Messages of
//! any number of types reach it through one mailbox, each wrapped in an
//! envelope that remembers which handler it is for. The run loop takes the
//! envelopes out in the order in which they went in, hands each to its handler
//! and stops when a handler asks for it or when nothing more can arrive.
//!
//! Everything here is single-owner and deterministic: a mailbox is a value, the
//! run loop is a state machine that is advanced by calls. A host that gives
//! each actor a thread of its own keeps the mailbox behind a lock and feeds the
//! run loop from it.
pub mod actor;
pub mod context;
pub mod envelope;
pub mod error;
pub mod laws;
pub mod mailbox;
pub mod runloop;

pub use actor::{Actor, Message, Receives};
pub use context::Context;
pub use envelope::Mail;
pub use error::{join_outcome, JoinError, SendFailed};
pub use mailbox::{Mailbox, MailboxState, Received};
pub use runloop::{Event, Phase, RunLoop, RunState, Step};



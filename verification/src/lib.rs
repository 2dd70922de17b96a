//! A one-shot, two-party mailbox, stated as a verified state machine.
//!
//! A [`Channel`] is a storage cell for at most one value in flight. Splitting
//! it yields a [`Sender`] and a [`Receiver`], each good for exactly one
//! operation. Every operation is one atomic step on the cell: it takes the
//! cell, changes it, and returns what the surrounding runtime has to do next
//! (wake a thread, suspend the caller). Sharing the cell between threads and
//! performing those actions is left to the embedding program.

pub mod channel;
pub mod laws;
pub mod receiver;
pub mod schedule;
pub mod sender;

pub use channel::Channel;
pub use receiver::{Received, Receiver};
pub use sender::{Sender, Wake};

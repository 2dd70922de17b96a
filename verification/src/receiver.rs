use crate::channel::Channel;
use std::marker::PhantomData;
use vstd::prelude::*;

verus! {

/// The consumer's one-shot capability, bound to the thread that split the
/// cell. Receiving consumes it.
pub struct Receiver<T> {
    thread: u64,
    marker: PhantomData<T>,
}

/// The outcome of one receive step.
pub enum Received<T> {
    /// The value that was in flight. The cell is drained.
    Value(T),
    /// Nothing was published yet. The caller suspends its thread until it is
    /// woken and then receives again with the handle given back.
    Park(Receiver<T>),
    /// The caller is not the thread that the handle is bound to. Nothing was
    /// touched; the handle is given back.
    WrongThread(Receiver<T>),
}

impl<T> Receiver<T> {
    /// The thread that the handle is bound to: the one that split the cell.
    pub closed spec fn owner(self) -> u64 {
        self.thread
    }

    /// What a poll answers when the slot holds `slot`.
    pub open spec fn is_ready_spec(slot: Option<T>) -> bool {
        slot is Some
    }

    /// The cell and the outcome that a receive step on thread `current`
    /// leaves behind when the slot holds `slot`.
    pub open spec fn receive_spec(self, slot: Option<T>, current: u64) -> (Option<T>, Received<T>) {
        if current != self.owner() {
            (slot, Received::WrongThread(self))
        } else {
            match slot {
                Some(value) => (None, Received::Value(value)),
                None => (None, Received::Park(self)),
            }
        }
    }

    /// A handle bound to `thread`.
    pub(crate) fn bound_to(thread: u64) -> (handle: Self)
        ensures
            handle.owner() == thread,
    {
        Receiver { thread, marker: PhantomData }
    }

    /// Advisory poll of the readiness flag: true exactly while a value is in
    /// flight. Changes nothing and never waits.
    pub fn is_ready(&self, channel: &Channel<T>) -> (ready: bool)
        ensures
            ready == Self::is_ready_spec(channel@),
            ready == (channel@ is Some),
    {
        channel.flag()
    }

    /// One receive step on thread `current_thread`. On the owning thread it
    /// lowers the flag and takes the value if one was published, else asks
    /// the caller to park. On any other thread it is rejected.
    pub fn receive(self, channel: &mut Channel<T>, current_thread: u64) -> (got: Received<T>)
        ensures
            (final(channel)@, got) == self.receive_spec(old(channel)@, current_thread),
            current_thread != self.owner() ==> got == Received::WrongThread(self)
                && final(channel)@ == old(channel)@,
            current_thread == self.owner() ==> final(channel)@ is None,
    {
        if current_thread != self.thread {
            return Received::WrongThread(self);
        }
        match channel.claim() {
            Some(value) => Received::Value(value),
            None => Received::Park(self),
        }
    }
}

} // verus!

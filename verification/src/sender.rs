use crate::channel::Channel;
use std::marker::PhantomData;
use vstd::prelude::*;

verus! {

/// What the runtime has to do after a send: resume the named thread. A wake
/// that arrives before the thread suspends must make its next suspension
/// return at once.
pub struct Wake {
    pub thread: u64,
}

/// The producer's one-shot capability. Sending consumes it.
pub struct Sender<T> {
    receiving_thread: u64,
    marker: PhantomData<T>,
}

impl<T> Sender<T> {
    /// The thread that a send wakes: the one that split the cell.
    pub closed spec fn wakes(self) -> u64 {
        self.receiving_thread
    }

    /// The cell and the action that a send of `message` leaves behind,
    /// whatever the slot held before.
    pub open spec fn send_spec(self, slot: Option<T>, message: T) -> (Option<T>, Wake) {
        (Some(message), Wake { thread: self.wakes() })
    }

    /// A handle whose send wakes `thread`.
    pub(crate) fn bound_to(thread: u64) -> (handle: Self)
        ensures
            handle.wakes() == thread,
    {
        Sender { receiving_thread: thread, marker: PhantomData }
    }

    /// Delivers `message`: writes it into the slot, raises the flag, and
    /// returns the wake owed to the consumer's thread. Never waits.
    pub fn send(self, channel: &mut Channel<T>, message: T) -> (wake: Wake)
        ensures
            (final(channel)@, wake) == self.send_spec(old(channel)@, message),
            final(channel)@ == Some(message),
            wake.thread == self.wakes(),
    {
        channel.publish(message);
        Wake { thread: self.receiving_thread }
    }
}

} // verus!

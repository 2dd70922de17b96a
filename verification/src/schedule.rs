//! One split cycle under every schedule.
//!
//! The two parties of a cycle run on their own threads, and the runtime
//! decides whose step comes next. This module models a cycle together with
//! the one thing it needs from the runtime, a wake that is remembered until
//! the consumer's thread suspends, and proves that no schedule loses the
//! value or leaves the consumer suspended after the send.

use crate::receiver::{Received, Receiver};
use crate::sender::Sender;
use vstd::prelude::*;

verus! {

/// Where the consumer stands within a cycle.
pub enum Consumer<T> {
    /// Holds its handle and is about to take a receive step.
    Running(Receiver<T>),
    /// Was told to park and has suspended its thread.
    Parked(Receiver<T>),
    /// Has the value.
    Done(T),
}

/// A cycle in progress: the cell's slot, the producer's handle while the
/// send is still to come, the consumer, the thread that split the cell, and
/// whether a wake for that thread is pending.
pub struct Cycle<T> {
    pub slot: Option<T>,
    pub producer: Option<Sender<T>>,
    pub consumer: Consumer<T>,
    pub thread: u64,
    pub wake_pending: bool,
}

impl<T> Cycle<T> {
    /// The cycle that a split on `thread` starts, from what the split leaves
    /// in the slot and the two handles it hands out.
    pub open spec fn begun(slot: Option<T>, sender: Sender<T>, receiver: Receiver<T>, thread: u64) -> Self {
        Cycle {
            slot,
            producer: Some(sender),
            consumer: Consumer::Running(receiver),
            thread,
            wake_pending: false,
        }
    }

    /// The state right after a split on `self.thread`.
    pub open spec fn fresh(self) -> bool {
        &&& self.slot is None
        &&& !self.wake_pending
        &&& self.producer is Some
        &&& self.producer->0.wakes() == self.thread
        &&& self.consumer is Running
        &&& self.consumer->Running_0.owner() == self.thread
    }

    /// The producer's step: a send of `value`, whose wake is remembered if it
    /// names this cycle's thread.
    pub open spec fn produce(self, value: T) -> Self
        recommends
            self.producer is Some,
    {
        let sent = self.producer->0.send_spec(self.slot, value);
        Cycle {
            slot: sent.0,
            producer: None,
            consumer: self.consumer,
            thread: self.thread,
            wake_pending: self.wake_pending || sent.1.thread == self.thread,
        }
    }

    /// The consumer's step. Running, it takes a receive step on its own
    /// thread. Parked, it resumes if a wake is pending, using the wake up,
    /// and stays suspended otherwise. Done, it does nothing more.
    pub open spec fn consume(self) -> Self {
        match self.consumer {
            Consumer::Running(handle) => {
                let step = handle.receive_spec(self.slot, self.thread);
                Cycle {
                    slot: step.0,
                    producer: self.producer,
                    consumer: match step.1 {
                        Received::Value(value) => Consumer::Done(value),
                        Received::Park(kept) => Consumer::Parked(kept),
                        Received::WrongThread(kept) => Consumer::Running(kept),
                    },
                    thread: self.thread,
                    wake_pending: self.wake_pending,
                }
            },
            Consumer::Parked(handle) => if self.wake_pending {
                Cycle {
                    slot: self.slot,
                    producer: self.producer,
                    consumer: Consumer::Running(handle),
                    thread: self.thread,
                    wake_pending: false,
                }
            } else {
                self
            },
            Consumer::Done(_) => self,
        }
    }

    /// A suspension that ends without a wake, as a runtime may allow: the
    /// consumer runs again and a pending wake stays pending.
    pub open spec fn stir(self) -> Self {
        match self.consumer {
            Consumer::Parked(handle) => Cycle {
                slot: self.slot,
                producer: self.producer,
                consumer: Consumer::Running(handle),
                thread: self.thread,
                wake_pending: self.wake_pending,
            },
            _ => self,
        }
    }

    /// The consumer is suspended and nothing will resume it.
    pub open spec fn stuck(self) -> bool {
        self.consumer is Parked && !self.wake_pending
    }

    /// What holds of every state of a cycle in which `value` is the value
    /// sent. Before the send the slot is empty, no wake is pending, and the
    /// consumer holds a handle bound to the cycle's thread. After the send
    /// the value is either still in the slot or with the consumer, and a
    /// parked consumer has a wake pending.
    pub open spec fn on_course(self, value: T) -> bool {
        match self.producer {
            Some(sender) => {
                &&& sender.wakes() == self.thread
                &&& self.slot is None
                &&& !self.wake_pending
                &&& match self.consumer {
                    Consumer::Running(handle) => handle.owner() == self.thread,
                    Consumer::Parked(handle) => handle.owner() == self.thread,
                    Consumer::Done(_) => false,
                }
            },
            None => match self.consumer {
                Consumer::Running(handle) => {
                    &&& handle.owner() == self.thread
                    &&& self.slot == Some(value)
                },
                Consumer::Parked(handle) => {
                    &&& handle.owner() == self.thread
                    &&& self.slot == Some(value)
                    &&& self.wake_pending
                },
                Consumer::Done(got) => got == value && self.slot is None,
            },
        }
    }
}

/// A cycle starts on course, and every step of either party, and every
/// suspension that ends without a wake, keeps it there.
pub proof fn course_is_kept<T>(cycle: Cycle<T>, value: T)
    ensures
        cycle.fresh() ==> cycle.on_course(value),
        cycle.on_course(value) && cycle.producer is Some ==> cycle.produce(value).on_course(value),
        cycle.on_course(value) ==> cycle.consume().on_course(value),
        cycle.on_course(value) ==> cycle.stir().on_course(value),
{
}

/// No lost wakeup: on course, the consumer is suspended with no wake pending
/// only while the send is still to come.
pub proof fn no_lost_wakeup<T>(cycle: Cycle<T>, value: T)
    requires
        cycle.on_course(value),
        cycle.stuck(),
    ensures
        cycle.producer is Some,
{
}

/// Once the value was sent, the consumer's next two steps, at most, hand it
/// exactly that value and leave the slot empty.
pub proof fn sent_value_arrives<T>(cycle: Cycle<T>, value: T)
    requires
        cycle.on_course(value),
        cycle.producer is None,
    ensures
        cycle.consume().consume().consumer == Consumer::Done(value),
        cycle.consume().consume().slot is None,
{
}

/// The consumer is done only with the value sent: on course, a finished
/// consumer holds `value`, the send has happened, and the slot is empty.
pub proof fn nothing_else_arrives<T>(cycle: Cycle<T>, value: T)
    requires
        cycle.on_course(value),
        cycle.consumer is Done,
    ensures
        cycle.consumer == Consumer::Done(value),
        cycle.producer is None,
        cycle.slot is None,
{
}

} // verus!

//! What holds of every cycle of the mailbox, proved from the step functions'
//! contracts.

use crate::receiver::{Received, Receiver};
use crate::schedule::Cycle;
use crate::sender::Sender;
use vstd::prelude::*;

verus! {

/// How many values a slot holds.
pub open spec fn in_flight<T>(slot: Option<T>) -> nat {
    if slot is Some {
        1
    } else {
        0
    }
}

/// How many values a receive step hands to its caller.
pub open spec fn handed_out<T>(got: Received<T>) -> nat {
    if got is Value {
        1
    } else {
        0
    }
}

/// No premature readiness: in a cycle that was just split, a poll answers
/// false.
pub proof fn fresh_cycle_is_not_ready<T>(cycle: Cycle<T>)
    requires
        cycle.fresh(),
    ensures
        !Receiver::<T>::is_ready_spec(cycle.slot),
{
}

/// Split and never sent: the cell holds nothing, so its teardown finalizes
/// nothing.
pub proof fn fresh_cycle_owes_nothing<T>(cycle: Cycle<T>)
    requires
        cycle.fresh(),
    ensures
        in_flight(cycle.slot) == 0,
{
}

/// A poll answers true exactly from the send to the receive: after a send it
/// is true whatever went before, and after a receive step on the owning
/// thread it is false.
pub proof fn ready_from_send_to_receive<T>(sender: Sender<T>, receiver: Receiver<T>, slot: Option<T>, value: T)
    ensures
        Receiver::<T>::is_ready_spec(sender.send_spec(slot, value).0),
        !Receiver::<T>::is_ready_spec(receiver.receive_spec(slot, receiver.owner()).0),
{
}

/// Round trip: whatever the slot held, a send of `value` followed by a
/// receive on the owning thread yields `value`, without parking, and leaves
/// the cell drained.
pub proof fn round_trip<T>(sender: Sender<T>, receiver: Receiver<T>, slot: Option<T>, value: T)
    ensures
        receiver.receive_spec(sender.send_spec(slot, value).0, receiver.owner()) == (
            None::<T>,
            Received::Value(value),
        ),
{
}

/// No lost wakeup: when the consumer claims an empty cell first, it is told
/// to park and keeps its handle; the send that follows names exactly the
/// consumer's thread in its wake; and the receive after that wake yields the
/// value sent.
pub proof fn wake_reaches_parked_consumer<T>(sender: Sender<T>, receiver: Receiver<T>, value: T)
    requires
        sender.wakes() == receiver.owner(),
    ensures
        receiver.receive_spec(None, receiver.owner()) == (None::<T>, Received::Park(receiver)),
        sender.send_spec(None, value).1.thread == receiver.owner(),
        receiver.receive_spec(sender.send_spec(None, value).0, receiver.owner()) == (
            None::<T>,
            Received::Value(value),
        ),
{
}

/// A receive step neither loses nor duplicates a value: what the slot held
/// before is what it holds after plus what the caller was handed.
pub proof fn receive_conserves<T>(receiver: Receiver<T>, slot: Option<T>, current_thread: u64)
    ensures
        in_flight(slot) == in_flight(receiver.receive_spec(slot, current_thread).0)
            + handed_out(receiver.receive_spec(slot, current_thread).1),
        receiver.receive_spec(slot, current_thread).1 is Value
            ==> slot == Some(receiver.receive_spec(slot, current_thread).1->Value_0),
{
}

/// Sent and received: the caller of receive holds the value and the cell
/// holds none, so tearing the cell down afterwards finalizes nothing.
pub proof fn received_value_is_not_owed<T>(sender: Sender<T>, receiver: Receiver<T>, value: T)
    ensures
        in_flight(receiver.receive_spec(sender.send_spec(None, value).0, receiver.owner()).0) == 0,
        handed_out(receiver.receive_spec(sender.send_spec(None, value).0, receiver.owner()).1) == 1,
{
}

/// Sent and never received: the cell holds exactly the value sent, which is
/// what its teardown finalizes.
pub proof fn unreceived_value_is_owed<T>(sender: Sender<T>, value: T)
    ensures
        sender.send_spec(None, value).0 == Some(value),
        in_flight(sender.send_spec(None, value).0) == 1,
{
}

/// A consumer on a foreign thread is turned away: the cell keeps what it
/// held and the handle comes back unused.
pub proof fn foreign_thread_is_rejected<T>(receiver: Receiver<T>, slot: Option<T>, current_thread: u64)
    requires
        current_thread != receiver.owner(),
    ensures
        receiver.receive_spec(slot, current_thread) == (slot, Received::WrongThread(receiver)),
{
}

} // verus!

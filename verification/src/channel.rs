use crate::receiver::Receiver;
use crate::schedule::Cycle;
use crate::sender::Sender;
use vstd::prelude::*;

verus! {

/// The storage cell: one slot and its readiness flag.
///
/// The flag is raised exactly while the slot holds a value that was sent and
/// not yet received. The view of a cell is that value in flight, if any.
pub struct Channel<T> {
    data: Option<T>,
    item_ready: bool,
}

impl<T> View for Channel<T> {
    type V = Option<T>;

    closed spec fn view(&self) -> Option<T> {
        self.data
    }
}

impl<T> Channel<T> {
    #[verifier::type_invariant]
    spec fn flag_tracks_slot(self) -> bool {
        self.item_ready == self.data.is_some()
    }

    /// An empty cell: nothing in flight, flag down.
    pub fn new() -> (cell: Self)
        ensures
            cell@ is None,
    {
        Channel { data: None, item_ready: false }
    }

    /// Resets the cell to empty and hands out a fresh pair of handles, both
    /// bound to `thread`, the identity of the calling thread. A value left
    /// over from an earlier cycle is finalized by the reset. Handles of an
    /// earlier cycle are not revoked: whoever shares the cell between threads
    /// lets the handles borrow it, so that none outlives its cycle.
    pub fn split(&mut self, thread: u64) -> (handles: (Sender<T>, Receiver<T>))
        ensures
            final(self)@ is None,
            handles.0.wakes() == thread,
            handles.1.owner() == thread,
            Cycle::begun(final(self)@, handles.0, handles.1, thread).fresh(),
    {
        *self = Channel { data: None, item_ready: false };
        (Sender::bound_to(thread), Receiver::bound_to(thread))
    }

    /// Whether the readiness flag is up.
    pub(crate) fn flag(&self) -> (up: bool)
        ensures
            up == (self@ is Some),
    {
        proof {
            use_type_invariant(self);
        }
        self.item_ready
    }

    /// Writes `message` into the slot and raises the flag. A value that was
    /// still in the slot is finalized.
    pub(crate) fn publish(&mut self, message: T)
        ensures
            final(self)@ == Some(message),
    {
        *self = Channel { data: Some(message), item_ready: true };
    }

    /// Lowers the flag and moves the value, if there is one, out of the slot.
    pub(crate) fn claim(&mut self) -> (taken: Option<T>)
        ensures
            taken == old(self)@,
            final(self)@ is None,
    {
        let mut emptied = Channel { data: None, item_ready: false };
        std::mem::swap(self, &mut emptied);
        emptied.data
    }

    /// Ends the cell's life. The result is the value that the cell still
    /// owes a finalization: the one in flight, or none when the cell is
    /// empty or was drained. Dropping the result finalizes it, once.
    pub fn teardown(self) -> (owed: Option<T>)
        ensures
            owed == self@,
    {
        self.data
    }
}

} // verus!

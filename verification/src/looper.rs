//! The activity thread's looper and the parameters under which an input
//! queue is attached to it. The attach call itself is the platform's; this
//! module fixes what is passed to it.

use vstd::prelude::*;

verus! {

/// The identifier under which the demo's input queue reports events.
pub const LOOPER_ID_EVENT: i32 = 1;

/// The looper of the activity thread, held as a plain address value.
pub struct Looper {
    id: usize,
}

/// The parameters of one attach call: which queue, to which looper, under
/// which identifier.
pub struct QueueAttach {
    pub queue: usize,
    pub looper: usize,
    pub ident: i32,
}

impl Looper {
    /// The address value of the native looper.
    pub closed spec fn id(&self) -> usize {
        self.id
    }

    /// Record the looper the platform prepared for this thread.
    pub fn create(id: usize) -> (l: Looper)
        ensures
            l.id() == id,
    {
        Looper { id }
    }

    /// Decide how the given input queue is attached: to this looper, under
    /// the demo's one event identifier.
    pub fn bind_queue(&self, queue: usize) -> (a: QueueAttach)
        ensures
            a.queue == queue,
            a.looper == self.id(),
            a.ident == LOOPER_ID_EVENT,
    {
        QueueAttach { queue, looper: self.id, ident: LOOPER_ID_EVENT }
    }
}

} // verus!

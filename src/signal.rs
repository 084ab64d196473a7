use vstd::prelude::*;

verus! {

/// Telling the driver that a queue has used buffers for it.
pub trait SignalUsedQueue {
    /// Signals that queue `index` has used buffers.
    fn signal_used_queue(&self, index: u16);
}

} // verus!

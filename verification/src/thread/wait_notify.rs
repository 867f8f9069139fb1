//! A one-shot signal between two threads that needs no thread-local
//! storage: the side that finishes notifies, the other side waits.
use vstd::prelude::*;

verus! {

/// The side of a one-shot signal that sends it. `parker` names the parker
/// that both sides share.
pub struct Notifier {
    pub parker: u64,
}

/// The side of a one-shot signal that waits for it.
pub struct Waiter {
    pub parker: u64,
}

/// The two sides of a new one-shot signal, sharing the parker `parker`.
pub fn new(parker: u64) -> (r: (Notifier, Waiter))
    ensures
        r.0.parker == parker,
        r.1.parker == parker,
{
    (Notifier { parker }, Waiter { parker })
}

} // verus!

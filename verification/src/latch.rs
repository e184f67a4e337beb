//! The D-latch: the level-sensitive 1-bit store every register is
//! built from.
//!
//! While `store` is high the latch tracks its data input; while it is
//! low it holds the last value.  It is never exposed to the CPU layer
//! directly: only the master-slave pairing in the 1-bit register turns
//! it into edge-triggered storage.

use vstd::prelude::*;

verus! {

/// One level-sensitive storage cell holding a single bit.
#[derive(Clone, Copy)]
pub struct Latch {
    /// The retained bit.
    pub q: bool,
}

impl Latch {
    /// A powered-on latch holds zero.
    pub fn power_on() -> (r: Latch)
        ensures
            r.q == false,
    {
        Latch { q: false }
    }

    /// Level-sensitive store: tracks `data` while `store` is high,
    /// holds while it is low.  Returns the retained bit and its
    /// complement.
    pub fn d_latch(&mut self, data: bool, store: bool) -> (r: (bool, bool))
        ensures
            final(self).q == if store {
                data
            } else {
                old(self).q
            },
            r.0 == final(self).q,
            r.1 == !final(self).q,
    {
        if store {
            self.q = data;
        }
        (self.q, !self.q)
    }
}

} // verus!

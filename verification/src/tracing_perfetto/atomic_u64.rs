//! A `u64` cell that threads share.
use std::sync::atomic::Ordering;
use vstd::prelude::*;

verus! {

/// A `u64` cell that threads share. The cell offers no way to change its
/// value once made, so every load, with any ordering, reads the value it
/// was made with; the value is held as a plain `u64`, which threads may
/// read together.
pub struct AtomicU64 {
    inner: u64,
}

impl AtomicU64 {
    /// The value the cell holds.
    pub closed spec fn value(&self) -> u64 {
        self.inner
    }

    pub fn new(x: u64) -> (res: Self)
        ensures
            res.value() == x,
    {
        Self { inner: x }
    }

    pub fn load(&self, order: Ordering) -> (res: u64)
        ensures
            res == self.value(),
    {
        self.inner
    }
}

} // verus!

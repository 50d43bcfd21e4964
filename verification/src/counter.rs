//! The shared counter: a single non-negative integer with indivisible
//! increment, read and store operations.

use vstd::prelude::*;

verus! {

/// One more than `v`, wrapping back to zero at the top of the `usize` range.
pub open spec fn wrapping_inc(v: usize) -> usize {
    if v == usize::MAX {
        0
    } else {
        (v + 1) as usize
    }
}

/// The process-wide counter. It starts at zero and is only changed through
/// the three operations below.
pub struct Counter {
    value: usize,
}

impl Counter {
    /// The current value, as contracts see it.
    pub closed spec fn spec_read(&self) -> usize {
        self.value
    }

    /// A fresh counter holds zero.
    pub fn new() -> (c: Counter)
        ensures
            c.spec_read() == 0,
    {
        Counter { value: 0 }
    }

    /// Reads the current value.
    pub fn read(&self) -> (v: usize)
        ensures
            v == self.spec_read(),
    {
        self.value
    }

    /// Adds one, wrapping at the top of the `usize` range.
    pub fn increment(&mut self)
        ensures
            final(self).spec_read() == wrapping_inc(old(self).spec_read()),
    {
        self.value = if self.value == usize::MAX {
            0
        } else {
            self.value + 1
        };
    }

    /// Overwrites the value with `v`.
    pub fn store(&mut self, v: usize)
        ensures
            final(self).spec_read() == v,
    {
        self.value = v;
    }
}

} // verus!

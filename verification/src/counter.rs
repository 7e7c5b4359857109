//! A signed counter that moves one step at a time.

use vstd::prelude::*;

verus! {

/// A counter over `i32`, stepped up or down by one per call.
pub struct Counter {
    pub value: i32,
}

impl Counter {
    /// A fresh counter starts at zero.
    pub fn new() -> (c: Counter)
        ensures
            c.value == 0,
    {
        Counter { value: 0 }
    }

    /// The current count.
    pub fn get(&self) -> (r: i32)
        ensures
            r == self.value,
    {
        self.value
    }

    /// Steps the count up by one.
    pub fn increment(&mut self)
        requires
            old(self).value < i32::MAX,
        ensures
            final(self).value == old(self).value + 1,
    {
        self.value = self.value + 1;
    }

    /// Steps the count down by one.
    pub fn decrement(&mut self)
        requires
            old(self).value > i32::MIN,
        ensures
            final(self).value == old(self).value - 1,
    {
        self.value = self.value - 1;
    }
}

} // verus!

//! A single shared storage cell.

use vstd::prelude::*;

verus! {

/// One `u32` cell that every caller reads and writes alike.
pub struct SimpleStorage {
    pub value: u32,
}

impl SimpleStorage {
    /// A fresh cell holding zero.
    pub fn new() -> (s: SimpleStorage)
        ensures
            s.value == 0,
    {
        SimpleStorage { value: 0 }
    }

    /// The stored value.
    pub fn get(&self) -> (r: u32)
        ensures
            r == self.value,
    {
        self.value
    }

    /// Overwrites the stored value.
    pub fn set(&mut self, value: u32)
        ensures
            final(self).value == value,
    {
        self.value = value;
    }
}

} // verus!

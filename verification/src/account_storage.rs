//! A storage cell per account: each caller reads and writes its own value.

use vstd::prelude::*;

use crate::account::AccountId;
use crate::kv::AccountMap;
use crate::kv::agrees_except;
use crate::kv::list_get;

verus! {

/// Per-account `u32` cells, empty until a caller first writes its own.
pub struct SimpleStorage {
    pub value: AccountMap<u32>,
}

impl SimpleStorage {
    /// The cells' invariant; every operation preserves it.
    pub open spec fn wf(&self) -> bool {
        self.value.wf()
    }

    /// A fresh store with no cell written yet.
    pub fn new() -> (s: SimpleStorage)
        ensures
            s.wf(),
            forall|a: AccountId| #[trigger] list_get(s.value.entries@, a) is None,
    {
        SimpleStorage { value: AccountMap::new() }
    }

    /// The caller's own value, or `None` before its first write.
    pub fn get(&self, caller: AccountId) -> (r: Option<u32>)
        ensures
            r == self.value.spec_get(caller),
    {
        self.value.get(caller)
    }

    /// Writes the caller's own cell, touching nobody else's.
    pub fn set(&mut self, caller: AccountId, value: u32)
        requires
            old(self).wf(),
        ensures
            final(self).wf(),
            final(self).value.spec_get(caller) == Some(value),
            agrees_except(final(self).value.entries@, old(self).value.entries@, caller),
    {
        self.value.insert(caller, value);
    }
}

} // verus!

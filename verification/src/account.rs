//! Account identifiers and balances, the plain values every component shares.

use vstd::prelude::*;

verus! {

/// The identity of an account: owners, callers, and transfer destinations.
/// The hosting environment hands identities in; the engine only ever compares
/// them for equality.
#[derive(Clone, Copy, Debug, PartialEq, Eq, Hash, Structural)]
pub struct AccountId(pub u64);

/// The unit in which transfer amounts and token balances are measured.
pub type Balance = u128;

} // verus!

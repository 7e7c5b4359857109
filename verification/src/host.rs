//! The boundary to the hosting environment.
//!
//! Two collaborators live behind it: the hashing primitive that fingerprints a
//! proposal, and the settlement layer that moves value between accounts. Both
//! are reached through `ink_env`; their contracts are trusted, everything
//! around them is verified.

use vstd::prelude::*;

use crate::account::AccountId;
use crate::account::Balance;

verus! {

/// An opaque digest binding a proposal's destination, amount and payload.
/// It is kept for external auditability only; the engine never inspects it.
#[derive(Clone, Copy, Debug, PartialEq, Eq, Hash)]
pub struct Fingerprint(pub [u8; 32]);

impl View for Fingerprint {
    type V = Seq<u8>;

    open spec fn view(&self) -> Seq<u8> {
        self.0@
    }
}

/// The settlement layer declined or failed the requested transfer; no value
/// moved.
#[derive(Clone, Copy, Debug, PartialEq, Eq, Structural)]
pub struct TransferError;

/// What the hashing collaborator returns for a destination, an amount and a
/// payload: a digest that is a function of these three values alone.
pub uninterp spec fn fingerprint_of(to: int, value: int, data: Seq<u8>) -> Seq<u8>;

/// Relies on `ink_env::hash_encoded` with the `Blake2x256` hasher: a 32-byte
/// digest of the SCALE encoding of the input, computed from the input alone.
#[verifier::external_body]
pub(crate) fn fingerprint(to: &AccountId, value: Balance, data: &Vec<u8>) -> (r: Fingerprint)
    ensures
        r@ == fingerprint_of(to.0 as int, value as int, data@),
        r@.len() == 32,
{
    let mut output = [0u8; 32];
    ink_env::hash_encoded::<ink_env::hash::Blake2x256, _>(&(to.0, value, data), &mut output);
    Fingerprint(output)
}

/// Relies on `ink_env::transfer`: asks the hosting environment to move
/// `value` to `to`. The environment alone decides whether the transfer goes
/// through — an unfunded contract account has it declined — so nothing is
/// promised of the outcome; callers must say what holds either way. The call
/// needs a live context: a contract account must be set, and one holding less
/// than `value` aborts the host call instead of declining it.
#[verifier::external_body]
pub(crate) fn transfer(to: &AccountId, value: Balance) -> (r: Result<(), TransferError>)
{
    let mut dest = [0u8; 32];
    dest[..8].copy_from_slice(&to.0.to_le_bytes());
    ink_env::transfer::<ink_env::DefaultEnvironment>(ink_env::AccountId::from(dest), value)
        .map_err(|_| TransferError)
}

} // verus!

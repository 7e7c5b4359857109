//! A small suite of verified contract-style state machines.
//!
//! The centrepiece is the multi-signature transaction authorization engine in
//! [`multisig`]: a fixed registry of owners must jointly approve a proposed
//! value transfer before it is executed exactly once. The surrounding modules
//! hold simpler stateful components built on the same pattern: a token ledger,
//! a voting booth, an escrow, and plain storage cells.
//!
//! Value transfers and fingerprint hashing are requested from the hosting
//! environment through the trusted declarations in [`host`]; everything else
//! is verified.

pub mod account;
pub mod account_storage;
pub mod counter;
pub mod escrow;
pub mod host;
pub mod kv;
pub mod multisig;
pub mod storage;
pub mod token;
pub mod voting;

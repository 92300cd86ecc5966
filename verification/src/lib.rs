//! A verified orchestrator for a single-member threshold-1 smart account
//! (multisig vault) on a ledger.
//!
//! The library decodes on-chain account state from raw bytes and plans the
//! atomic instruction bundles that create the multisig and execute
//! arbitrary instruction sets through the vault. All I/O and all
//! hash-based address derivation are left to the caller: the orchestrator
//! is a pure state machine that asks for reads, derivations, waits and
//! submissions one at a time and is handed their outcomes, so every
//! decision it makes is stated and proved over plain values.

pub mod decode;
pub mod encode;
pub mod error;
pub mod instructions;
pub mod laws;
pub mod message;
pub mod smart_account;
pub mod types;

pub use error::Error;
pub use smart_account::{dummy, get_or_create, transaction, Action, Event, TxPlan};
pub use types::{Addr, Ix, IxAccount, Multisig};

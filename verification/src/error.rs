//! Error taxonomy of the orchestrator.
//!
//! Every fallible operation of this library reports one of these kinds.
//! Errors bubble to the immediate caller untransformed; the library performs
//! no silent retries and never swallows an error.

use vstd::prelude::*;

verus! {

/// The kinds of failure an orchestrated operation can surface.
#[derive(Clone, Copy, Debug, PartialEq, Eq, Structural)]
pub enum Error {
    /// A seed could not be encoded for address derivation. A programming
    /// error: it never surfaces for the fixed seed layouts this library uses.
    AddressDerivationError,
    /// The requested account does not exist on the ledger. Expected when the
    /// multisig has not been created yet; a hard error for accounts that a
    /// correctly configured ledger always holds.
    AccountNotFound,
    /// Account bytes were fetched but do not decode as the expected layout
    /// (wrong discriminator, truncated data, or a malformed field).
    AccountDecodeError,
    /// A network or RPC failure while talking to the ledger.
    TransportError,
    /// The bounded wait after a creation submission elapsed without the new
    /// account becoming visible. Re-invoking the creation flow is safe.
    CreationUnconfirmed,
    /// The instruction set could not be compiled into a transaction message.
    CompileError,
    /// The multisig's transaction counter is saturated, so no next index
    /// can be claimed. A machine-limit guard: a counter the ledger program
    /// advanced one proposal at a time cannot reach this in practice.
    IndexExhausted,
    /// The local secret store was unavailable or held corrupted key material.
    SigningError,
}

} // verus!

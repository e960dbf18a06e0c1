//! The error taxonomy of the escrow: terminal validation failures.
//!
//! Every precondition check fails fast and aborts the whole call with no
//! partial effect; there is no transient or retryable category.

use vstd::prelude::*;

verus! {

/// Why a transition was refused. Each variant names the precondition that
/// the call violated; the handlers' contracts say exactly which inputs
/// produce which variant.
#[derive(Clone, Copy, Debug, PartialEq, Eq, Structural)]
pub enum EscrowError {
    /// A supplied amount is zero.
    InvalidAmount,
    /// The offered and the expected asset are identical.
    InvalidAssetPair,
    /// The caller's balance of the relevant asset does not strictly
    /// exceed the amount being moved.
    InsufficientBalance,
    /// The caller does not match the record's stored maker, or a supplied
    /// holding account does not belong to the party and asset it must.
    Unauthorized,
    /// The referenced escrow record does not exist: already fulfilled,
    /// already cancelled, or never created.
    RecordNotFound,
}

} // verus!

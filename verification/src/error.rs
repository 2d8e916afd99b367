//! The error taxonomy of the ledger engine.

use vstd::prelude::*;

verus! {

/// Why an operation was refused.
///
/// A refused operation leaves the ledger exactly as it was: every operation
/// validates before it mutates, so the error is purely diagnostic.
#[derive(Clone, Copy, PartialEq, Eq, Structural, Debug)]
pub enum Error {
    /// `initialize` was called on an already initialized ledger.
    AlreadyInitialized,
    /// An operation other than `initialize` was called before initialization.
    NotInitialized,
    /// The presented authorization does not sanction the required identity.
    Unauthorized,
    /// The debited account holds less than the requested amount.
    InsufficientBalance,
    /// The pause switch is set and the operation moves value.
    Paused,
    /// The amount is not strictly positive.
    InvalidAmount,
}

} // verus!

use vstd::prelude::*;

verus! {

/// Why a ledger operation was refused.
///
/// A refused operation leaves the ledger exactly as it was before the call.
#[derive(Clone, Copy, Debug, PartialEq, Eq, Structural)]
pub enum LedgerError {
    /// The caller lacks the role (owner or admin) that the operation needs.
    AuthorizationError,
    /// The minting section was entered while its guard was already held.
    ReentrancyError,
    /// A transfer would take the sender's balance below zero.
    InsufficientBalanceError,
    /// An addition would exceed the largest representable balance.
    OverflowError,
}

} // verus!

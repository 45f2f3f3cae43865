//! The reasons for which an operation is rejected.

use vstd::prelude::*;

verus! {

/// Why a call was rejected. A rejected call changes nothing.
#[derive(Clone, Copy, Debug, PartialEq, Eq, Structural)]
pub enum VaultError {
    /// A deposit of nothing, or a key registration without its exact fee.
    InvalidInput,
    /// The account holds less than the amount asked for.
    InsufficientBalance,
    /// No order is recorded under the identifier.
    OrderNotFound,
    /// The order is no longer pending.
    InvalidState,
    /// The amount differs from the one the order was created with.
    AmountMismatch,
    /// The caller lacks the role that the operation asks for.
    Unauthorized,
}

} // verus!

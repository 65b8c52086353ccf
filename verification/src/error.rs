//! The ways in which a ledger operation can be refused.

use vstd::prelude::*;

verus! {

/// Why an operation was refused. A refused operation changes nothing.
#[derive(Clone, Copy, Debug, PartialEq, Eq, Structural)]
pub enum TokenError {
    /// `initialize` was called on a ledger that is already initialized.
    AlreadyInitialized,
    /// The name or the symbol is empty or too long.
    InvalidMetadata,
    /// More decimals than the ledger supports.
    InvalidDecimals,
    /// An amount that must be positive is not, or an allowance is negative.
    InvalidAmount,
    /// Sender and recipient are the same account.
    InvalidRecipient,
    /// The account holds less than the amount.
    InsufficientBalance,
    /// The spender may spend less than the amount.
    InsufficientAllowance,
    /// A balance or the total supply would leave the range of `i128`.
    OverflowError,
    /// The signer is not the address that must authorize the operation.
    Unauthorized,
}

} // verus!

//! The error taxonomy of the vault controller.

use vstd::prelude::*;

verus! {

/// Every way a lifecycle operation can fail. Errors are reported
/// synchronously and no operation leaves a partial state change behind.
#[derive(Clone, Copy, Debug, PartialEq, Eq, Structural)]
pub enum VaultError {
    /// Open was asked for a user whose vault state record already exists.
    DuplicateVault,
    /// An operation other than Open found no vault state record for the user.
    VaultNotFound,
    /// A source account cannot cover the requested transfer, the reserve
    /// minimum included.
    InsufficientFunds,
    /// A zero amount was handed to Deposit or Withdraw.
    InvalidAmount,
    /// A re-derived address or a seed proof does not match the account that
    /// was presented.
    AuthorityMismatch,
    /// The external ledger or its transfer primitive rejected the operation;
    /// passed through opaquely.
    CollaboratorFailure,
}

} // verus!

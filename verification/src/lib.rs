//! A custodial value-vault controller against an account-based ledger.
//!
//! Each user gets a deterministically derived holding account (the vault) and
//! a small metadata record (the vault state) that stores the two
//! disambiguation bytes needed to re-derive signing authority cheaply on
//! every later operation. The controller never holds a private key for the
//! vault: it proves authority by reproducing the derivation seeds.

use vstd::prelude::*;

pub mod address;
pub mod authority;
pub mod error;
pub mod instructions;
pub mod lifecycle;
pub mod state;

use crate::error::VaultError;
use crate::instructions::{
    close_outcome, deposit_outcome, initialize_failure, initialize_ok, withdraw_outcome, Close,
    Deposit, Initialize, Withdraw,
};

verus! {

/// Open a vault for the calling user.
pub fn initialize(ctx: &mut Initialize) -> (r: Result<(), VaultError>)
    ensures
        match initialize_failure(*old(ctx)) {
            Some(e) => r == Err::<(), VaultError>(e) && *final(ctx) == *old(ctx),
            None => r == Ok::<(), VaultError>(()) && initialize_ok(*old(ctx), *final(ctx)),
        },
{
    ctx.initialize()
}

/// Deposit `amount` into the calling user's vault.
pub fn deposit(ctx: &mut Deposit, amount: u64) -> (r: Result<(), VaultError>)
    ensures
        match deposit_outcome(*old(ctx), amount) {
            Ok(post) => r == Ok::<(), VaultError>(()) && *final(ctx) == post,
            Err(e) => r == Err::<(), VaultError>(e) && *final(ctx) == *old(ctx),
        },
{
    ctx.deposit(amount)
}

/// Withdraw `amount` from the calling user's vault.
pub fn withdraw(ctx: &mut Withdraw, amount: u64) -> (r: Result<(), VaultError>)
    ensures
        match withdraw_outcome(*old(ctx), amount) {
            Ok(post) => r == Ok::<(), VaultError>(()) && *final(ctx) == post,
            Err(e) => r == Err::<(), VaultError>(e) && *final(ctx) == *old(ctx),
        },
{
    ctx.withdraw(amount)
}

/// Close the calling user's vault and destroy its state record.
pub fn close(ctx: &mut Close) -> (r: Result<(), VaultError>)
    ensures
        match close_outcome(*old(ctx)) {
            Ok(post) => r == Ok::<(), VaultError>(()) && *final(ctx) == post,
            Err(e) => r == Err::<(), VaultError>(e) && *final(ctx) == *old(ctx),
        },
{
    ctx.close()
}

} // verus!

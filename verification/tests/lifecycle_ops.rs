//! The lifecycle state machine end to end, with real rent figures and real
//! address derivation.

use anchor_lang::prelude::Rent;
use anchor_vault_q4_25::address::{derive_state_address, derive_vault_address, Address};
use anchor_vault_q4_25::error::VaultError;
use anchor_vault_q4_25::instructions::{Close, Deposit, Initialize, Withdraw};
use anchor_vault_q4_25::lifecycle::UserLedger;
use anchor_vault_q4_25::state::VaultState;
use anchor_vault_q4_25::{close, deposit, initialize, withdraw};

fn addr(fill: u8) -> Address {
    Address { bytes: [fill; 32] }
}

/// The reserve-exemption minimum of the empty vault account.
fn vault_reserve() -> u64 {
    Rent::default().minimum_balance(0)
}

/// The reserve-exemption minimum of the record: an eight-byte header plus
/// the two bump bytes.
fn state_reserve() -> u64 {
    Rent::default().minimum_balance(10)
}

fn funded_ledger(user_lamports: u64) -> UserLedger {
    UserLedger::new(addr(1), addr(2), user_lamports, vault_reserve(), state_reserve())
}

#[test]
fn scenario_full_lifecycle() {
    let reserve = vault_reserve();
    let record_reserve = state_reserve();
    let initial: u64 = 10_000_000_000;
    let mut ledger = funded_ledger(initial);

    // Open: both reserves leave the user; the record holds both bumps.
    assert!(ledger.open().is_ok());
    assert!(ledger.has_vault());
    assert_eq!(ledger.user_lamports(), initial - reserve - record_reserve);
    assert_eq!(ledger.vault_lamports(), reserve);
    assert_eq!(ledger.state_lamports(), record_reserve);
    let stored = ledger.stored_state().unwrap();
    let (state_address, state_bump) = derive_state_address(&addr(1), &addr(2)).unwrap();
    let (vault_address, vault_bump) = derive_vault_address(&addr(1), &state_address).unwrap();
    assert_eq!(stored, VaultState { vault_bump, state_bump });
    assert_eq!(ledger.state_address().unwrap(), state_address);
    assert_eq!(ledger.vault_address().unwrap(), vault_address);

    // Deposit(1000): the vault grows by exactly the amount.
    assert!(ledger.deposit(1000).is_ok());
    assert_eq!(ledger.vault_lamports(), reserve + 1000);
    assert_eq!(ledger.user_lamports(), initial - reserve - record_reserve - 1000);

    // Withdraw(1000): the round trip restores the vault to the reserve.
    assert!(ledger.withdraw(1000).is_ok());
    assert_eq!(ledger.vault_lamports(), reserve);
    assert_eq!(ledger.user_lamports(), initial - reserve - record_reserve);

    // Close: the user receives the vault balance plus the record's reserve,
    // and both accounts cease to exist.
    assert!(ledger.close().is_ok());
    assert!(!ledger.has_vault());
    assert_eq!(ledger.user_lamports(), initial);
    assert_eq!(ledger.vault_lamports(), 0);
    assert_eq!(ledger.state_lamports(), 0);

    // Any further operation is VaultNotFound.
    assert_eq!(ledger.deposit(1), Err(VaultError::VaultNotFound));
    assert_eq!(ledger.withdraw(1), Err(VaultError::VaultNotFound));
    assert_eq!(ledger.close(), Err(VaultError::VaultNotFound));
}

#[test]
fn duplicate_open_fails() {
    let mut ledger = funded_ledger(10_000_000_000);
    assert!(ledger.open().is_ok());
    let before = ledger.user_lamports();
    assert_eq!(ledger.open(), Err(VaultError::DuplicateVault));
    assert_eq!(ledger.user_lamports(), before);
}

#[test]
fn open_needs_both_reserves() {
    let short = vault_reserve() + state_reserve() - 1;
    let mut ledger = funded_ledger(short);
    assert_eq!(ledger.open(), Err(VaultError::InsufficientFunds));
    assert!(!ledger.has_vault());
    assert_eq!(ledger.user_lamports(), short);

    let exact = vault_reserve() + state_reserve();
    let mut ledger = funded_ledger(exact);
    assert!(ledger.open().is_ok());
    assert_eq!(ledger.user_lamports(), 0);
}

#[test]
fn deposit_validates_amount_and_funds() {
    let mut ledger = funded_ledger(vault_reserve() + state_reserve() + 100);
    assert!(ledger.open().is_ok());
    assert_eq!(ledger.deposit(0), Err(VaultError::InvalidAmount));
    assert_eq!(ledger.deposit(101), Err(VaultError::InsufficientFunds));
    assert!(ledger.deposit(100).is_ok());
    assert_eq!(ledger.user_lamports(), 0);
    assert_eq!(ledger.vault_lamports(), vault_reserve() + 100);
}

#[test]
fn withdraw_boundary_is_the_available_balance() {
    let mut ledger = funded_ledger(10_000_000_000);
    assert!(ledger.open().is_ok());
    assert!(ledger.deposit(500).is_ok());

    // Available balance: vault minus reserve = 500.
    assert_eq!(ledger.withdraw(0), Err(VaultError::InvalidAmount));
    assert_eq!(ledger.withdraw(501), Err(VaultError::InsufficientFunds));
    let vault_before = ledger.vault_lamports();
    assert!(ledger.withdraw(500).is_ok());
    assert_eq!(ledger.vault_lamports(), vault_before - 500);

    // Nothing above the reserve is left now.
    assert_eq!(ledger.withdraw(1), Err(VaultError::InsufficientFunds));
}

#[test]
fn entry_points_dispatch_to_the_contexts() {
    let program_id = addr(21);
    let user = addr(22);
    let reserve = vault_reserve();
    let record_reserve = state_reserve();

    let mut open_ctx = Initialize {
        program_id,
        user,
        user_lamports: 5_000_000_000,
        vault_reserve_min: reserve,
        state_reserve_min: record_reserve,
        state_exists: false,
        opened: None,
    };
    assert!(initialize(&mut open_ctx).is_ok());
    let opened = open_ctx.opened.expect("a successful open creates the pair");
    assert_eq!(open_ctx.user_lamports, 5_000_000_000 - reserve - record_reserve);
    assert_eq!(opened.vault_lamports, reserve);
    assert_eq!(opened.state_lamports, record_reserve);
    assert!(open_ctx.state_exists);

    let mut deposit_ctx = Deposit {
        program_id,
        user,
        user_lamports: open_ctx.user_lamports,
        state_address: opened.state_address,
        vault_state: opened.vault_state,
        vault_address: opened.vault_address,
        vault_lamports: opened.vault_lamports,
    };
    assert!(deposit(&mut deposit_ctx, 2500).is_ok());
    assert_eq!(deposit_ctx.vault_lamports, reserve + 2500);

    let mut withdraw_ctx = Withdraw {
        program_id,
        user,
        user_lamports: deposit_ctx.user_lamports,
        state_address: opened.state_address,
        vault_state: opened.vault_state,
        vault_address: opened.vault_address,
        vault_lamports: deposit_ctx.vault_lamports,
        vault_reserve_min: reserve,
    };
    assert!(withdraw(&mut withdraw_ctx, 2500).is_ok());
    assert_eq!(withdraw_ctx.vault_lamports, reserve);

    let mut close_ctx = Close {
        program_id,
        user,
        user_lamports: withdraw_ctx.user_lamports,
        state_address: opened.state_address,
        vault_state: opened.vault_state,
        vault_address: opened.vault_address,
        vault_lamports: withdraw_ctx.vault_lamports,
        state_lamports: record_reserve,
    };
    assert!(close(&mut close_ctx).is_ok());
    assert_eq!(close_ctx.user_lamports, 5_000_000_000);
    assert_eq!(close_ctx.vault_lamports, 0);
    assert_eq!(close_ctx.state_lamports, 0);
}

#[test]
fn second_open_targets_the_occupied_record() {
    let mut ctx = Initialize {
        program_id: addr(21),
        user: addr(22),
        user_lamports: 5_000_000_000,
        vault_reserve_min: vault_reserve(),
        state_reserve_min: state_reserve(),
        state_exists: true,
        opened: None,
    };
    assert_eq!(initialize(&mut ctx), Err(VaultError::DuplicateVault));
    assert_eq!(ctx.user_lamports, 5_000_000_000);
    assert!(ctx.opened.is_none());
}

#[test]
fn tampered_bumps_are_rejected() {
    let program_id = addr(31);
    let user = addr(32);
    let (state_address, state_bump) = derive_state_address(&program_id, &user).unwrap();
    let (vault_address, vault_bump) = derive_vault_address(&program_id, &state_address).unwrap();

    let mut ctx = Withdraw {
        program_id,
        user,
        user_lamports: 0,
        state_address,
        vault_state: VaultState { vault_bump: vault_bump.wrapping_add(1), state_bump },
        vault_address,
        vault_lamports: 10_000_000,
        vault_reserve_min: vault_reserve(),
    };
    assert_eq!(withdraw(&mut ctx, 1), Err(VaultError::AuthorityMismatch));
    assert_eq!(ctx.vault_lamports, 10_000_000);

    // A tampered record bump is caught by the state re-derivation.
    let mut ctx = Withdraw {
        vault_state: VaultState { vault_bump, state_bump: state_bump.wrapping_add(1) },
        ..ctx
    };
    assert_eq!(withdraw(&mut ctx, 1), Err(VaultError::AuthorityMismatch));

    // The genuine bumps pass.
    let mut ctx = Withdraw { vault_state: VaultState { vault_bump, state_bump }, ..ctx };
    assert!(withdraw(&mut ctx, 1).is_ok());
    assert_eq!(ctx.user_lamports, 1);
}

#[test]
fn ledger_rejections_pass_through() {
    let program_id = addr(41);
    let user = addr(42);
    let (state_address, state_bump) = derive_state_address(&program_id, &user).unwrap();
    let (vault_address, vault_bump) = derive_vault_address(&program_id, &state_address).unwrap();
    let vault_state = VaultState { vault_bump, state_bump };

    // A deposit the vault account cannot absorb is the collaborator's
    // rejection, passed through.
    let mut ctx = Deposit {
        program_id,
        user,
        user_lamports: 5,
        state_address,
        vault_state,
        vault_address,
        vault_lamports: u64::MAX,
    };
    assert_eq!(deposit(&mut ctx, 1), Err(VaultError::CollaboratorFailure));

    // Same for a close the user account cannot absorb.
    let mut close_ctx = Close {
        program_id,
        user,
        user_lamports: u64::MAX,
        state_address,
        vault_state,
        vault_address,
        vault_lamports: 1,
        state_lamports: 0,
    };
    assert_eq!(close(&mut close_ctx), Err(VaultError::CollaboratorFailure));
}

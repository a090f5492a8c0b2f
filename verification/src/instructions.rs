//! The four lifecycle operations.
//!
//! Each operation owns a context struct naming the accounts it works on,
//! given as the plain values the controller observes: addresses, balances
//! in native ledger units, and the persisted record. Each context carries a
//! method that validates the operation's preconditions, re-derives the
//! presented addresses from the stored disambiguation bytes, and applies
//! the balance effects that the ledger's transfer primitive would land
//! atomically. The exact outcome of every method, error taxonomy included,
//! is a spec function of the starting context.

use vstd::prelude::*;

use crate::address::{
    found_pda_of, state_seeds, vault_seeds, Address, derive_state_address, derive_vault_address,
};
use crate::authority::{
    assert_authority, state_record_derives, vault_account_derives, verify_presented_state,
    verify_presented_vault,
};
use crate::error::VaultError;
use crate::state::VaultState;

verus! {

/// The accounts created when a vault is opened: the vault state record and
/// the vault itself, each with its address, its disambiguation byte kept in
/// the record, and the reserve it was funded with.
pub struct OpenedVault {
    /// The persisted two-byte record.
    pub vault_state: VaultState,
    /// The record's own derived address.
    pub state_address: Address,
    /// The vault's derived address.
    pub vault_address: Address,
    /// What the record account holds: its own reserve-exemption minimum.
    pub state_lamports: u64,
    /// What the vault holds: the reserve-exemption minimum moved from the
    /// user.
    pub vault_lamports: u64,
}

/// The context of Open: the authenticated user, the user's balance, the
/// reserve-exemption oracle's answers, and whether a record already sits at
/// the user's derived state address.
pub struct Initialize {
    /// The controller's own deployed identity; fixed configuration.
    pub program_id: Address,
    /// The authenticated caller.
    pub user: Address,
    /// The caller's balance.
    pub user_lamports: u64,
    /// The reserve-exemption minimum of the (empty) vault account.
    pub vault_reserve_min: u64,
    /// The reserve-exemption minimum of the two-byte record account.
    pub state_reserve_min: u64,
    /// Whether the user's vault state record already exists. Deterministic
    /// addressing makes a second Open target the same, occupied account.
    pub state_exists: bool,
    /// The accounts Open creates; empty until Open succeeds.
    pub opened: Option<OpenedVault>,
}

/// Exactly when Open fails, and with what, given its starting context.
pub open spec fn initialize_failure(pre: Initialize) -> Option<VaultError> {
    if pre.state_exists {
        Some(VaultError::DuplicateVault)
    } else {
        match found_pda_of(state_seeds(pre.user@), pre.program_id@) {
            None => Some(VaultError::CollaboratorFailure),
            Some(state_found) => match found_pda_of(vault_seeds(state_found.0), pre.program_id@) {
                None => Some(VaultError::CollaboratorFailure),
                Some(vault_found) => if pre.user_lamports < pre.vault_reserve_min
                    + pre.state_reserve_min {
                    Some(VaultError::InsufficientFunds)
                } else {
                    None
                },
            },
        }
    }
}

/// How a successful Open leaves its context: both addresses freshly
/// derived in forward mode, their bumps persisted in the record, and both
/// reserve minimums moved out of the user's balance.
pub open spec fn initialize_ok(pre: Initialize, post: Initialize) -> bool {
    &&& initialize_failure(pre) is None
    &&& post.program_id == pre.program_id
    &&& post.user == pre.user
    &&& post.vault_reserve_min == pre.vault_reserve_min
    &&& post.state_reserve_min == pre.state_reserve_min
    &&& post.state_exists
    &&& post.user_lamports == pre.user_lamports - pre.vault_reserve_min - pre.state_reserve_min
    &&& match post.opened {
        Some(o) => {
            &&& match found_pda_of(state_seeds(pre.user@), pre.program_id@) {
                Some(state_found) => {
                    &&& o.state_address@ == state_found.0
                    &&& o.vault_state.state_bump == state_found.1
                    &&& match found_pda_of(vault_seeds(state_found.0), pre.program_id@) {
                        Some(vault_found) => o.vault_address@ == vault_found.0
                            && o.vault_state.vault_bump == vault_found.1,
                        None => false,
                    }
                },
                None => false,
            }
            &&& o.vault_lamports == pre.vault_reserve_min
            &&& o.state_lamports == pre.state_reserve_min
            &&& state_record_derives(
                pre.program_id@,
                pre.user@,
                o.vault_state.state_bump,
                o.state_address@,
            )
            &&& vault_account_derives(
                pre.program_id@,
                o.state_address@,
                o.vault_state.vault_bump,
                o.vault_address@,
            )
        },
        None => false,
    }
}

impl Initialize {
    /// Open: derive both addresses in forward mode, persist the two bumps,
    /// and fund both new accounts with their reserve-exemption minimums
    /// from the user.
    pub fn initialize(&mut self) -> (r: Result<(), VaultError>)
        ensures
            match initialize_failure(*old(self)) {
                Some(e) => r == Err::<(), VaultError>(e) && *final(self) == *old(self),
                None => r == Ok::<(), VaultError>(()) && initialize_ok(*old(self), *final(self)),
            },
    {
        if self.state_exists {
            return Err(VaultError::DuplicateVault);
        }
        let (state_address, state_bump) = match derive_state_address(&self.program_id, &self.user) {
            None => { return Err(VaultError::CollaboratorFailure); },
            Some(found) => found,
        };
        let (vault_address, vault_bump) = match derive_vault_address(
            &self.program_id,
            &state_address,
        ) {
            None => { return Err(VaultError::CollaboratorFailure); },
            Some(found) => found,
        };
        if self.user_lamports < self.vault_reserve_min {
            return Err(VaultError::InsufficientFunds);
        }
        if self.user_lamports - self.vault_reserve_min < self.state_reserve_min {
            return Err(VaultError::InsufficientFunds);
        }
        self.user_lamports = self.user_lamports - self.vault_reserve_min - self.state_reserve_min;
        self.state_exists = true;
        self.opened = Some(
            OpenedVault {
                vault_state: VaultState { vault_bump, state_bump },
                state_address,
                vault_address,
                state_lamports: self.state_reserve_min,
                vault_lamports: self.vault_reserve_min,
            },
        );
        Ok(())
    }
}

/// The context of Deposit: the user pays into the vault; both presented
/// accounts are re-derived from the stored bumps before anything moves.
pub struct Deposit {
    /// The controller's own deployed identity; fixed configuration.
    pub program_id: Address,
    /// The authenticated caller.
    pub user: Address,
    /// The caller's balance.
    pub user_lamports: u64,
    /// The presented vault state record account.
    pub state_address: Address,
    /// The persisted record at that address.
    pub vault_state: VaultState,
    /// The presented vault account.
    pub vault_address: Address,
    /// The vault's balance.
    pub vault_lamports: u64,
}

/// Whether both accounts Deposit presents re-derive from the stored bumps.
pub open spec fn deposit_accounts_derive(pre: Deposit) -> bool {
    &&& state_record_derives(
        pre.program_id@,
        pre.user@,
        pre.vault_state.state_bump,
        pre.state_address@,
    )
    &&& vault_account_derives(
        pre.program_id@,
        pre.state_address@,
        pre.vault_state.vault_bump,
        pre.vault_address@,
    )
}

/// The exact outcome of Deposit: the context it leaves on success, or the
/// error and an untouched context.
pub open spec fn deposit_outcome(pre: Deposit, amount: u64) -> Result<Deposit, VaultError> {
    if amount == 0 {
        Err(VaultError::InvalidAmount)
    } else if !deposit_accounts_derive(pre) {
        Err(VaultError::AuthorityMismatch)
    } else if pre.user_lamports < amount {
        Err(VaultError::InsufficientFunds)
    } else if pre.vault_lamports + amount > u64::MAX {
        Err(VaultError::CollaboratorFailure)
    } else {
        Ok(
            Deposit {
                user_lamports: (pre.user_lamports - amount) as u64,
                vault_lamports: (pre.vault_lamports + amount) as u64,
                ..pre
            },
        )
    }
}

impl Deposit {
    /// Deposit: move `amount` from the user into the vault, after
    /// re-deriving both presented accounts in verification mode.
    pub fn deposit(&mut self, amount: u64) -> (r: Result<(), VaultError>)
        ensures
            match deposit_outcome(*old(self), amount) {
                Ok(post) => r == Ok::<(), VaultError>(()) && *final(self) == post,
                Err(e) => r == Err::<(), VaultError>(e) && *final(self) == *old(self),
            },
    {
        if amount == 0 {
            return Err(VaultError::InvalidAmount);
        }
        if !verify_presented_state(
            &self.program_id,
            &self.user,
            self.vault_state.state_bump,
            &self.state_address,
        ) {
            return Err(VaultError::AuthorityMismatch);
        }
        if !verify_presented_vault(
            &self.program_id,
            &self.state_address,
            self.vault_state.vault_bump,
            &self.vault_address,
        ) {
            return Err(VaultError::AuthorityMismatch);
        }
        if self.user_lamports < amount {
            return Err(VaultError::InsufficientFunds);
        }
        if amount > u64::MAX - self.vault_lamports {
            return Err(VaultError::CollaboratorFailure);
        }
        self.user_lamports = self.user_lamports - amount;
        self.vault_lamports = self.vault_lamports + amount;
        Ok(())
    }
}

/// The context of Withdraw: value leaves the vault under a seed proof, so
/// it also carries the reserve-exemption minimum the vault must keep.
pub struct Withdraw {
    /// The controller's own deployed identity; fixed configuration.
    pub program_id: Address,
    /// The authenticated caller.
    pub user: Address,
    /// The caller's balance.
    pub user_lamports: u64,
    /// The presented vault state record account.
    pub state_address: Address,
    /// The persisted record at that address.
    pub vault_state: VaultState,
    /// The presented vault account.
    pub vault_address: Address,
    /// The vault's balance.
    pub vault_lamports: u64,
    /// The reserve-exemption minimum the vault must not fall under.
    pub vault_reserve_min: u64,
}

/// Whether both accounts Withdraw presents re-derive from the stored bumps.
pub open spec fn withdraw_accounts_derive(pre: Withdraw) -> bool {
    &&& state_record_derives(
        pre.program_id@,
        pre.user@,
        pre.vault_state.state_bump,
        pre.state_address@,
    )
    &&& vault_account_derives(
        pre.program_id@,
        pre.state_address@,
        pre.vault_state.vault_bump,
        pre.vault_address@,
    )
}

/// The exact outcome of Withdraw. It succeeds exactly on a positive amount
/// within the available balance — the vault's balance minus its reserve
/// minimum — presented accounts that re-derive, and a user balance that can
/// take the amount.
pub open spec fn withdraw_outcome(pre: Withdraw, amount: u64) -> Result<Withdraw, VaultError> {
    if amount == 0 {
        Err(VaultError::InvalidAmount)
    } else if !withdraw_accounts_derive(pre) {
        Err(VaultError::AuthorityMismatch)
    } else if pre.vault_lamports < pre.vault_reserve_min + amount {
        Err(VaultError::InsufficientFunds)
    } else if pre.user_lamports + amount > u64::MAX {
        Err(VaultError::CollaboratorFailure)
    } else {
        Ok(
            Withdraw {
                user_lamports: (pre.user_lamports + amount) as u64,
                vault_lamports: (pre.vault_lamports - amount) as u64,
                ..pre
            },
        )
    }
}

impl Withdraw {
    /// Withdraw: assert authority over the vault by reproducing its
    /// creation seeds, then move `amount` from the vault back to the user,
    /// never dipping into the reserve minimum.
    pub fn withdraw(&mut self, amount: u64) -> (r: Result<(), VaultError>)
        ensures
            match withdraw_outcome(*old(self), amount) {
                Ok(post) => r == Ok::<(), VaultError>(()) && *final(self) == post,
                Err(e) => r == Err::<(), VaultError>(e) && *final(self) == *old(self),
            },
    {
        if amount == 0 {
            return Err(VaultError::InvalidAmount);
        }
        if !verify_presented_state(
            &self.program_id,
            &self.user,
            self.vault_state.state_bump,
            &self.state_address,
        ) {
            return Err(VaultError::AuthorityMismatch);
        }
        let signer_seeds = assert_authority(
            &self.program_id,
            &self.state_address,
            self.vault_state.vault_bump,
            &self.vault_address,
        );
        if signer_seeds.is_err() {
            return Err(VaultError::AuthorityMismatch);
        }
        if self.vault_lamports < self.vault_reserve_min {
            return Err(VaultError::InsufficientFunds);
        }
        if amount > self.vault_lamports - self.vault_reserve_min {
            return Err(VaultError::InsufficientFunds);
        }
        if amount > u64::MAX - self.user_lamports {
            return Err(VaultError::CollaboratorFailure);
        }
        self.vault_lamports = self.vault_lamports - amount;
        self.user_lamports = self.user_lamports + amount;
        Ok(())
    }
}

/// The context of Close: the vault is drained to the user under a seed
/// proof and the record account is destroyed, its own reserve refunded.
pub struct Close {
    /// The controller's own deployed identity; fixed configuration.
    pub program_id: Address,
    /// The authenticated caller.
    pub user: Address,
    /// The caller's balance.
    pub user_lamports: u64,
    /// The presented vault state record account.
    pub state_address: Address,
    /// The persisted record at that address.
    pub vault_state: VaultState,
    /// The presented vault account.
    pub vault_address: Address,
    /// The vault's balance.
    pub vault_lamports: u64,
    /// The record account's balance: its own reserve.
    pub state_lamports: u64,
}

/// Whether both accounts Close presents re-derive from the stored bumps.
pub open spec fn close_accounts_derive(pre: Close) -> bool {
    &&& state_record_derives(
        pre.program_id@,
        pre.user@,
        pre.vault_state.state_bump,
        pre.state_address@,
    )
    &&& vault_account_derives(
        pre.program_id@,
        pre.state_address@,
        pre.vault_state.vault_bump,
        pre.vault_address@,
    )
}

/// The exact outcome of Close: on success the user receives the vault's
/// entire balance plus the record's own reserve, and both accounts are
/// left empty — destroyed, once the ledger reclaims them.
pub open spec fn close_outcome(pre: Close) -> Result<Close, VaultError> {
    if !close_accounts_derive(pre) {
        Err(VaultError::AuthorityMismatch)
    } else if pre.user_lamports + pre.vault_lamports + pre.state_lamports > u64::MAX {
        Err(VaultError::CollaboratorFailure)
    } else {
        Ok(
            Close {
                user_lamports: (pre.user_lamports + pre.vault_lamports + pre.state_lamports) as u64,
                vault_lamports: 0,
                state_lamports: 0,
                ..pre
            },
        )
    }
}

impl Close {
    /// Close: assert authority, drain the vault's entire balance to the
    /// user, and destroy the record, refunding its reserve to the user.
    /// All of it lands atomically or not at all.
    pub fn close(&mut self) -> (r: Result<(), VaultError>)
        ensures
            match close_outcome(*old(self)) {
                Ok(post) => r == Ok::<(), VaultError>(()) && *final(self) == post,
                Err(e) => r == Err::<(), VaultError>(e) && *final(self) == *old(self),
            },
    {
        if !verify_presented_state(
            &self.program_id,
            &self.user,
            self.vault_state.state_bump,
            &self.state_address,
        ) {
            return Err(VaultError::AuthorityMismatch);
        }
        let signer_seeds = assert_authority(
            &self.program_id,
            &self.state_address,
            self.vault_state.vault_bump,
            &self.vault_address,
        );
        if signer_seeds.is_err() {
            return Err(VaultError::AuthorityMismatch);
        }
        if self.vault_lamports > u64::MAX - self.user_lamports {
            return Err(VaultError::CollaboratorFailure);
        }
        if self.state_lamports > u64::MAX - (self.user_lamports + self.vault_lamports) {
            return Err(VaultError::CollaboratorFailure);
        }
        self.user_lamports = self.user_lamports + self.vault_lamports + self.state_lamports;
        self.vault_lamports = 0;
        self.state_lamports = 0;
        Ok(())
    }
}

/// Authority assertion rejects a tampered disambiguation byte: whenever the
/// byte a Withdraw presents differs from the one stored at creation and its
/// re-derivation does not land on the presented vault — with a sound
/// derivation it lands somewhere else or nowhere — the operation fails with
/// `AuthorityMismatch`.
pub proof fn lemma_tampered_bump_rejected(pre: Withdraw, amount: u64, genuine_bump: u8)
    requires
        0 < amount,
        vault_account_derives(pre.program_id@, pre.state_address@, genuine_bump, pre.vault_address@),
        pre.vault_state.vault_bump != genuine_bump,
        !vault_account_derives(
            pre.program_id@,
            pre.state_address@,
            pre.vault_state.vault_bump,
            pre.vault_address@,
        ),
    ensures
        withdraw_outcome(pre, amount) == Err::<Withdraw, VaultError>(VaultError::AuthorityMismatch),
{
}

} // verus!

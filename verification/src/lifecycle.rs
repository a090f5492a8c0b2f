//! The lifecycle state machine of one (user, vault) pair.
//!
//! The controller itself is stateless; a vault and its record live on the
//! external ledger. `UserLedger` models the slice of that ledger one user's
//! vault touches — the user's balance, and the record/vault pair while it
//! exists — and drives the four lifecycle operations against it, handing
//! each one the accounts a well-behaved ledger would present. Its type
//! invariant captures what the ledger guarantees between operations: the
//! stored record re-derives both addresses, the vault never sits below its
//! reserve minimum, and the slice's total value fits the ledger's units.
//!
//! A pair moves Absent -> Open -> Closed; a closed slot is reclaimed, so a
//! later Open is indistinguishable from a first one.

use vstd::prelude::*;

use crate::address::{found_pda_of, state_seeds, vault_seeds, Address};
use crate::error::VaultError;
use crate::instructions::{Close, Deposit, Initialize, Withdraw};
use crate::state::VaultState;

verus! {

/// The observable state of a live record/vault pair.
#[derive(Clone, Copy)]
pub struct LiveVault {
    /// The record's derived address.
    pub state_address: Address,
    /// The vault's derived address.
    pub vault_address: Address,
    /// The persisted two-byte record.
    pub vault_state: VaultState,
    /// The record account's balance: its own reserve.
    pub state_lamports: u64,
    /// The vault's balance.
    pub vault_lamports: u64,
}

/// One user's slice of the ledger, as the controller sees it.
pub struct UserLedger {
    program_id: Address,
    user: Address,
    user_lamports: u64,
    vault_reserve_min: u64,
    state_reserve_min: u64,
    record: Option<LiveVault>,
}

impl UserLedger {
    /// What the ledger keeps true between operations.
    #[verifier::type_invariant]
    spec fn inv(self) -> bool {
        &&& self.user_lamports + self.held_balance() <= u64::MAX
        &&& match self.record {
            Some(live) => {
                &&& crate::authority::state_record_derives(
                    self.program_id@,
                    self.user@,
                    live.vault_state.state_bump,
                    live.state_address@,
                )
                &&& crate::authority::vault_account_derives(
                    self.program_id@,
                    live.state_address@,
                    live.vault_state.vault_bump,
                    live.vault_address@,
                )
                &&& live.vault_lamports >= self.vault_reserve_min
                &&& live.state_lamports == self.state_reserve_min
            },
            None => true,
        }
    }

    /// What the record and vault hold together; zero while absent.
    pub closed spec fn held_balance(self) -> int {
        match self.record {
            Some(live) => live.vault_lamports + live.state_lamports,
            None => 0,
        }
    }

    /// The user's balance.
    pub closed spec fn user_balance(self) -> u64 {
        self.user_lamports
    }

    /// The vault's balance; zero while absent.
    pub closed spec fn vault_balance(self) -> u64 {
        match self.record {
            Some(live) => live.vault_lamports,
            None => 0,
        }
    }

    /// The record account's balance; zero while absent.
    pub closed spec fn record_balance(self) -> u64 {
        match self.record {
            Some(live) => live.state_lamports,
            None => 0,
        }
    }

    /// Whether the pair is in its Open state.
    pub closed spec fn is_open(self) -> bool {
        self.record is Some
    }

    /// The live pair, while it exists.
    pub closed spec fn live_record(self) -> Option<LiveVault> {
        self.record
    }

    /// The vault's reserve-exemption minimum.
    pub closed spec fn reserve_minimum(self) -> u64 {
        self.vault_reserve_min
    }

    /// The record account's reserve-exemption minimum.
    pub closed spec fn record_reserve(self) -> u64 {
        self.state_reserve_min
    }

    /// The Open context this slice hands the operation.
    pub closed spec fn open_context(pre: UserLedger) -> Initialize {
        Initialize {
            program_id: pre.program_id,
            user: pre.user,
            user_lamports: pre.user_lamports,
            vault_reserve_min: pre.vault_reserve_min,
            state_reserve_min: pre.state_reserve_min,
            state_exists: pre.record is Some,
            opened: None,
        }
    }
}

/// Exactly when Open fails on this slice, and with what.
pub closed spec fn open_failure(pre: UserLedger) -> Option<VaultError> {
    crate::instructions::initialize_failure(UserLedger::open_context(pre))
}

/// How a successful Open relates the slice before to the slice after: the
/// forward-mode search names both addresses and bumps, so the outcome is a
/// function of the user, the program identity and the balances alone.
pub closed spec fn open_ok(pre: UserLedger, post: UserLedger) -> bool {
    &&& open_failure(pre) is None
    &&& post.program_id == pre.program_id
    &&& post.user == pre.user
    &&& post.vault_reserve_min == pre.vault_reserve_min
    &&& post.state_reserve_min == pre.state_reserve_min
    &&& post.user_lamports == pre.user_lamports - pre.vault_reserve_min - pre.state_reserve_min
    &&& match post.record {
        Some(live) => {
            &&& found_pda_of(state_seeds(pre.user@), pre.program_id@) == Some(
                (live.state_address@, live.vault_state.state_bump),
            )
            &&& found_pda_of(vault_seeds(live.state_address@), pre.program_id@) == Some(
                (live.vault_address@, live.vault_state.vault_bump),
            )
            &&& live.vault_lamports == pre.vault_reserve_min
            &&& live.state_lamports == pre.state_reserve_min
        },
        None => false,
    }
}

/// The exact outcome of Deposit on this slice.
pub closed spec fn deposit_outcome(pre: UserLedger, amount: u64) -> Result<
    UserLedger,
    VaultError,
> {
    match pre.record {
        None => Err(VaultError::VaultNotFound),
        Some(live) => match crate::instructions::deposit_outcome(
            Deposit {
                program_id: pre.program_id,
                user: pre.user,
                user_lamports: pre.user_lamports,
                state_address: live.state_address,
                vault_state: live.vault_state,
                vault_address: live.vault_address,
                vault_lamports: live.vault_lamports,
            },
            amount,
        ) {
            Err(e) => Err(e),
            Ok(ctx) => Ok(
                UserLedger {
                    user_lamports: ctx.user_lamports,
                    record: Some(LiveVault { vault_lamports: ctx.vault_lamports, ..live }),
                    ..pre
                },
            ),
        },
    }
}

/// The exact outcome of Withdraw on this slice.
pub closed spec fn withdraw_outcome(pre: UserLedger, amount: u64) -> Result<
    UserLedger,
    VaultError,
> {
    match pre.record {
        None => Err(VaultError::VaultNotFound),
        Some(live) => match crate::instructions::withdraw_outcome(
            Withdraw {
                program_id: pre.program_id,
                user: pre.user,
                user_lamports: pre.user_lamports,
                state_address: live.state_address,
                vault_state: live.vault_state,
                vault_address: live.vault_address,
                vault_lamports: live.vault_lamports,
                vault_reserve_min: pre.vault_reserve_min,
            },
            amount,
        ) {
            Err(e) => Err(e),
            Ok(ctx) => Ok(
                UserLedger {
                    user_lamports: ctx.user_lamports,
                    record: Some(LiveVault { vault_lamports: ctx.vault_lamports, ..live }),
                    ..pre
                },
            ),
        },
    }
}

/// The exact outcome of Close on this slice.
pub closed spec fn close_outcome(pre: UserLedger) -> Result<UserLedger, VaultError> {
    match pre.record {
        None => Err(VaultError::VaultNotFound),
        Some(live) => match crate::instructions::close_outcome(
            Close {
                program_id: pre.program_id,
                user: pre.user,
                user_lamports: pre.user_lamports,
                state_address: live.state_address,
                vault_state: live.vault_state,
                vault_address: live.vault_address,
                vault_lamports: live.vault_lamports,
                state_lamports: live.state_lamports,
            },
        ) {
            Err(e) => Err(e),
            Ok(ctx) => Ok(UserLedger { user_lamports: ctx.user_lamports, record: None, ..pre }),
        },
    }
}

impl UserLedger {
    /// A slice with no vault yet: the Absent state.
    pub fn new(
        program_id: Address,
        user: Address,
        user_lamports: u64,
        vault_reserve_min: u64,
        state_reserve_min: u64,
    ) -> (s: Self)
        ensures
            !s.is_open(),
            s.user_balance() == user_lamports,
            s.reserve_minimum() == vault_reserve_min,
            s.record_reserve() == state_reserve_min,
    {
        UserLedger {
            program_id,
            user,
            user_lamports,
            vault_reserve_min,
            state_reserve_min,
            record: None,
        }
    }

    /// Open the user's vault: derive both accounts, persist the bumps, and
    /// fund both reserves from the user.
    pub fn open(&mut self) -> (r: Result<(), VaultError>)
        ensures
            match open_failure(*old(self)) {
                Some(e) => r == Err::<(), VaultError>(e) && *final(self) == *old(self),
                None => r == Ok::<(), VaultError>(()) && open_ok(*old(self), *final(self)),
            },
            old(self).is_open() ==> r == Err::<(), VaultError>(VaultError::DuplicateVault),
            r is Ok ==> {
                &&& final(self).is_open()
                &&& final(self).user_balance() == old(self).user_balance() - old(self).reserve_minimum() - old(self).record_reserve()
                &&& final(self).vault_balance() == old(self).reserve_minimum()
                &&& final(self).record_balance() == old(self).record_reserve()
            },
    {
        proof {
            use_type_invariant(&*self);
        }
        let mut ctx = Initialize {
            program_id: self.program_id,
            user: self.user,
            user_lamports: self.user_lamports,
            vault_reserve_min: self.vault_reserve_min,
            state_reserve_min: self.state_reserve_min,
            state_exists: self.record.is_some(),
            opened: None,
        };
        match ctx.initialize() {
            Err(e) => Err(e),
            Ok(()) => {
                let opened = match ctx.opened {
                    Some(o) => o,
                    // A successful Open always fills the pair.
                    None => {
                        proof {
                            assert(false);
                        }
                        return Err(VaultError::CollaboratorFailure);
                    },
                };
                self.user_lamports = ctx.user_lamports;
                self.record = Some(
                    LiveVault {
                        state_address: opened.state_address,
                        vault_address: opened.vault_address,
                        vault_state: opened.vault_state,
                        state_lamports: opened.state_lamports,
                        vault_lamports: opened.vault_lamports,
                    },
                );
                Ok(())
            },
        }
    }

    /// Deposit `amount` from the user into the vault.
    pub fn deposit(&mut self, amount: u64) -> (r: Result<(), VaultError>)
        ensures
            match deposit_outcome(*old(self), amount) {
                Ok(post) => r == Ok::<(), VaultError>(()) && *final(self) == post,
                Err(e) => r == Err::<(), VaultError>(e) && *final(self) == *old(self),
            },
            !old(self).is_open() ==> r == Err::<(), VaultError>(VaultError::VaultNotFound),
            r is Ok <==> old(self).is_open() && 0 < amount && amount <= old(self).user_balance(),
            r is Ok ==> final(self).user_balance() == old(self).user_balance() - amount && final(self).vault_balance() == old(self).vault_balance() + amount && final(self).is_open(),
    {
        proof {
            use_type_invariant(&*self);
        }
        let live = match &self.record {
            None => {
                return Err(VaultError::VaultNotFound);
            },
            Some(l) => *l,
        };
        let mut ctx = Deposit {
            program_id: self.program_id,
            user: self.user,
            user_lamports: self.user_lamports,
            state_address: live.state_address,
            vault_state: live.vault_state,
            vault_address: live.vault_address,
            vault_lamports: live.vault_lamports,
        };
        match ctx.deposit(amount) {
            Err(e) => Err(e),
            Ok(()) => {
                self.user_lamports = ctx.user_lamports;
                self.record = Some(LiveVault { vault_lamports: ctx.vault_lamports, ..live });
                Ok(())
            },
        }
    }

    /// Withdraw `amount` from the vault back to the user, under a seed
    /// proof, leaving at least the reserve minimum behind. It succeeds
    /// exactly on a positive amount within the available balance: the
    /// vault's balance minus the reserve minimum.
    pub fn withdraw(&mut self, amount: u64) -> (r: Result<(), VaultError>)
        ensures
            match withdraw_outcome(*old(self), amount) {
                Ok(post) => r == Ok::<(), VaultError>(()) && *final(self) == post,
                Err(e) => r == Err::<(), VaultError>(e) && *final(self) == *old(self),
            },
            !old(self).is_open() ==> r == Err::<(), VaultError>(VaultError::VaultNotFound),
            r is Ok <==> old(self).is_open() && 0 < amount && amount + old(self).reserve_minimum()
                <= old(self).vault_balance(),
            r is Ok ==> final(self).user_balance() == old(self).user_balance() + amount && final(self).vault_balance() == old(self).vault_balance() - amount && final(self).is_open(),
    {
        proof {
            use_type_invariant(&*self);
        }
        let live = match &self.record {
            None => {
                return Err(VaultError::VaultNotFound);
            },
            Some(l) => *l,
        };
        let mut ctx = Withdraw {
            program_id: self.program_id,
            user: self.user,
            user_lamports: self.user_lamports,
            state_address: live.state_address,
            vault_state: live.vault_state,
            vault_address: live.vault_address,
            vault_lamports: live.vault_lamports,
            vault_reserve_min: self.vault_reserve_min,
        };
        match ctx.withdraw(amount) {
            Err(e) => Err(e),
            Ok(()) => {
                self.record = Some(LiveVault { vault_lamports: ctx.vault_lamports, ..live });
                self.user_lamports = ctx.user_lamports;
                Ok(())
            },
        }
    }

    /// Close the vault: drain its entire balance to the user, destroy the
    /// record, and refund the record's own reserve. Always succeeds on an
    /// open pair.
    pub fn close(&mut self) -> (r: Result<(), VaultError>)
        ensures
            match close_outcome(*old(self)) {
                Ok(post) => r == Ok::<(), VaultError>(()) && *final(self) == post,
                Err(e) => r == Err::<(), VaultError>(e) && *final(self) == *old(self),
            },
            !old(self).is_open() ==> r == Err::<(), VaultError>(VaultError::VaultNotFound),
            r is Ok <==> old(self).is_open(),
            r is Ok ==> !final(self).is_open() && final(self).user_balance() == old(self).user_balance() + old(self).vault_balance() + old(self).record_balance(),
    {
        proof {
            use_type_invariant(&*self);
        }
        let live = match &self.record {
            None => {
                return Err(VaultError::VaultNotFound);
            },
            Some(l) => *l,
        };
        let mut ctx = Close {
            program_id: self.program_id,
            user: self.user,
            user_lamports: self.user_lamports,
            state_address: live.state_address,
            vault_state: live.vault_state,
            vault_address: live.vault_address,
            vault_lamports: live.vault_lamports,
            state_lamports: live.state_lamports,
        };
        match ctx.close() {
            Err(e) => Err(e),
            Ok(()) => {
                self.record = None;
                self.user_lamports = ctx.user_lamports;
                Ok(())
            },
        }
    }

    /// The user's balance.
    pub fn user_lamports(&self) -> (r: u64)
        ensures
            r == self.user_balance(),
    {
        self.user_lamports
    }

    /// The vault's balance; zero while no vault exists.
    pub fn vault_lamports(&self) -> (r: u64)
        ensures
            r == self.vault_balance(),
    {
        match &self.record {
            Some(live) => live.vault_lamports,
            None => 0,
        }
    }

    /// The record account's balance; zero while no vault exists.
    pub fn state_lamports(&self) -> (r: u64)
        ensures
            r == self.record_balance(),
    {
        match &self.record {
            Some(live) => live.state_lamports,
            None => 0,
        }
    }

    /// Whether the pair is open.
    pub fn has_vault(&self) -> (r: bool)
        ensures
            r == self.is_open(),
    {
        self.record.is_some()
    }

    /// The persisted record, while the pair is open.
    pub fn stored_state(&self) -> (r: Option<VaultState>)
        ensures
            match self.live_record() {
                Some(live) => r == Some(live.vault_state),
                None => r is None,
            },
    {
        match &self.record {
            Some(live) => Some(live.vault_state),
            None => None,
        }
    }

    /// The record's derived address, while the pair is open.
    pub fn state_address(&self) -> (r: Option<Address>)
        ensures
            match self.live_record() {
                Some(live) => r == Some(live.state_address),
                None => r is None,
            },
    {
        match &self.record {
            Some(live) => Some(live.state_address),
            None => None,
        }
    }

    /// The vault's derived address, while the pair is open.
    pub fn vault_address(&self) -> (r: Option<Address>)
        ensures
            match self.live_record() {
                Some(live) => r == Some(live.vault_address),
                None => r is None,
            },
    {
        match &self.record {
            Some(live) => Some(live.vault_address),
            None => None,
        }
    }
}

/// Opening is final while the pair stays open: after any successful Open,
/// a second Open of the same slice fails with `DuplicateVault`.
pub proof fn lemma_duplicate_open(pre: UserLedger, mid: UserLedger)
    requires
        open_ok(pre, mid),
    ensures
        open_failure(mid) == Some(VaultError::DuplicateVault),
{
}

/// Deposit and Withdraw of the same amount round-trip: whenever a deposit
/// succeeds on a slice whose vault holds its reserve minimum, withdrawing
/// the same amount succeeds and restores the slice exactly.
pub proof fn lemma_deposit_withdraw_round_trip(pre: UserLedger, mid: UserLedger, amount: u64)
    requires
        deposit_outcome(pre, amount) == Ok::<UserLedger, VaultError>(mid),
        pre.vault_balance() >= pre.reserve_minimum(),
    ensures
        withdraw_outcome(mid, amount) == Ok::<UserLedger, VaultError>(pre),
{
}

/// Close pays out everything and is final: the user receives the vault's
/// full balance plus the record's own reserve, and every later operation
/// on the closed slice fails with `VaultNotFound`.
pub proof fn lemma_close_is_final(pre: UserLedger, post: UserLedger, amount: u64)
    requires
        close_outcome(pre) == Ok::<UserLedger, VaultError>(post),
    ensures
        post.user_balance() == pre.user_balance() + pre.vault_balance() + pre.record_balance(),
        !post.is_open(),
        deposit_outcome(post, amount) == Err::<UserLedger, VaultError>(VaultError::VaultNotFound),
        withdraw_outcome(post, amount) == Err::<UserLedger, VaultError>(VaultError::VaultNotFound),
        close_outcome(post) == Err::<UserLedger, VaultError>(VaultError::VaultNotFound),
{
}

/// Derivation is deterministic: two successful Opens of the same slice
/// create byte-for-byte the same addresses, the same bumps and the same
/// balances.
pub proof fn lemma_open_deterministic(pre: UserLedger, post1: UserLedger, post2: UserLedger)
    requires
        open_ok(pre, post1),
        open_ok(pre, post2),
    ensures
        post1 == post2,
{
    let live1 = post1.record->Some_0;
    let live2 = post2.record->Some_0;
    assert(live1.state_address@ == live2.state_address@);
    assert(live1.state_address.bytes =~= live2.state_address.bytes);
    assert(live1.vault_address@ == live2.vault_address@);
    assert(live1.vault_address.bytes =~= live2.vault_address.bytes);
    assert(live1 == live2);
}

} // verus!

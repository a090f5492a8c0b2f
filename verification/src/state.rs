//! The persisted vault state record.

use vstd::prelude::*;

verus! {

/// The metadata record kept for each user's vault: exactly the two
/// disambiguation bytes found by the forward-mode search at creation time.
/// Persisting them lets every later operation re-derive both addresses in
/// the cheap verification mode instead of repeating the search. Both fields
/// are write-once: they are set when the vault is opened and never change
/// until the record is destroyed at closure.
#[derive(Clone, Copy, Debug, PartialEq, Eq, Structural)]
pub struct VaultState {
    /// Re-derives the vault's address from the vault tag and this record's
    /// own address.
    pub vault_bump: u8,
    /// Re-derives this record's own address from the state tag and the
    /// owning user's address.
    pub state_bump: u8,
}

} // verus!

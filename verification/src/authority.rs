//! Authority assertion.
//!
//! The controller holds no private key for a vault. To move value out of
//! one it reconstructs the exact seed sequence the vault was created with —
//! vault tag, then the state record's address, then the stored
//! disambiguation byte — and presents it to the ledger's transfer primitive
//! as proof of delegated signing authority. Any drift from the creation
//! seeds makes the re-derived address miss the presented account, and the
//! operation fails before anything moves.

use vstd::prelude::*;

use crate::address::{
    pda_of, state_seeds, vault_seeds, with_bump, seeds_view, Address, vault_seed_bytes, push_bump,
    verify_state_address, verify_vault_address,
};
use crate::error::VaultError;

verus! {

/// Whether a presented state record account is exactly the one that the
/// state tag, the user's address and the stored disambiguation byte derive.
pub open spec fn state_record_derives(
    program_id: Seq<u8>,
    user: Seq<u8>,
    state_bump: u8,
    state_address: Seq<u8>,
) -> bool {
    pda_of(with_bump(state_seeds(user), state_bump), program_id) == Some(state_address)
}

/// Whether a presented vault account is exactly the one that the vault tag,
/// the state record's address and the stored disambiguation byte derive.
pub open spec fn vault_account_derives(
    program_id: Seq<u8>,
    state_address: Seq<u8>,
    vault_bump: u8,
    vault_address: Seq<u8>,
) -> bool {
    pda_of(with_bump(vault_seeds(state_address), vault_bump), program_id) == Some(vault_address)
}

/// The capability that convinces the transfer primitive: the full seed
/// sequence of the vault, in creation order, bump included. It is built
/// only after the re-derivation check has passed and is passed opaquely to
/// the ledger collaborator.
pub struct SeedProof {
    pub seeds: Vec<Vec<u8>>,
}

/// Verification mode on the state record: recompute its address from the
/// stored bump and compare it with the presented account.
pub fn verify_presented_state(
    program_id: &Address,
    user: &Address,
    state_bump: u8,
    state_address: &Address,
) -> (r: bool)
    ensures
        r == state_record_derives(program_id@, user@, state_bump, state_address@),
{
    match verify_state_address(program_id, user, state_bump) {
        Some(derived) => derived == *state_address,
        None => false,
    }
}

/// Verification mode on the vault: recompute its address from the stored
/// bump and compare it with the presented account.
pub fn verify_presented_vault(
    program_id: &Address,
    state_address: &Address,
    vault_bump: u8,
    vault_address: &Address,
) -> (r: bool)
    ensures
        r == vault_account_derives(program_id@, state_address@, vault_bump, vault_address@),
{
    match verify_vault_address(program_id, state_address, vault_bump) {
        Some(derived) => derived == *vault_address,
        None => false,
    }
}

/// Re-derives the vault from the state record's address and the stored
/// disambiguation byte, and hands back the seed proof when — and only when —
/// the derivation reproduces the presented vault account byte for byte.
pub fn assert_authority(
    program_id: &Address,
    state_address: &Address,
    vault_bump: u8,
    vault_address: &Address,
) -> (r: Result<SeedProof, VaultError>)
    ensures
        r is Ok <==> vault_account_derives(program_id@, state_address@, vault_bump, vault_address@),
        r matches Ok(p) ==> seeds_view(p.seeds@) == with_bump(vault_seeds(state_address@), vault_bump),
        r is Err ==> r == Err::<SeedProof, VaultError>(VaultError::AuthorityMismatch),
{
    if !verify_presented_vault(program_id, state_address, vault_bump, vault_address) {
        return Err(VaultError::AuthorityMismatch);
    }
    let mut seeds = vault_seed_bytes(state_address);
    push_bump(&mut seeds, vault_bump);
    Ok(SeedProof { seeds })
}

} // verus!

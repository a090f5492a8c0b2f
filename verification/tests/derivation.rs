//! Address derivation and authority assertion against the real ledger
//! primitives.

use anchor_vault_q4_25::address::{
    derive_state_address, derive_vault_address, state_seed_bytes, vault_seed_bytes,
    verify_state_address, verify_vault_address, Address,
};
use anchor_vault_q4_25::authority::{assert_authority, verify_presented_state};
use anchor_vault_q4_25::error::VaultError;

fn addr(fill: u8) -> Address {
    Address { bytes: [fill; 32] }
}

#[test]
fn derivation_is_deterministic() {
    let program_id = addr(1);
    let user = addr(2);
    let first = derive_state_address(&program_id, &user);
    let second = derive_state_address(&program_id, &user);
    assert!(first.is_some());
    assert_eq!(first, second);

    let (state_address, _) = first.unwrap();
    let v1 = derive_vault_address(&program_id, &state_address);
    let v2 = derive_vault_address(&program_id, &state_address);
    assert!(v1.is_some());
    assert_eq!(v1, v2);
}

#[test]
fn changed_seed_changes_address() {
    let program_id = addr(1);
    let (state_a, _) = derive_state_address(&program_id, &addr(2)).unwrap();
    let (state_b, _) = derive_state_address(&program_id, &addr(3)).unwrap();
    assert_ne!(state_a, state_b);

    // A different program id changes the address as well.
    let (state_c, _) = derive_state_address(&addr(9), &addr(2)).unwrap();
    assert_ne!(state_a, state_c);
}

#[test]
fn derived_address_is_not_an_input() {
    let program_id = addr(1);
    let user = addr(2);
    let (state_address, _) = derive_state_address(&program_id, &user).unwrap();
    assert_ne!(state_address, user);
    assert_ne!(state_address, program_id);
}

#[test]
fn verification_mode_recomputes_forward_mode() {
    let program_id = addr(4);
    let user = addr(5);
    let (state_address, state_bump) = derive_state_address(&program_id, &user).unwrap();
    assert_eq!(
        verify_state_address(&program_id, &user, state_bump),
        Some(state_address)
    );

    let (vault_address, vault_bump) = derive_vault_address(&program_id, &state_address).unwrap();
    assert_eq!(
        verify_vault_address(&program_id, &state_address, vault_bump),
        Some(vault_address)
    );
}

#[test]
fn seed_material_is_tag_then_key() {
    let user = addr(6);
    let seeds = state_seed_bytes(&user);
    assert_eq!(seeds.len(), 2);
    assert_eq!(seeds[0], vec![115u8, 116, 97, 116, 101]); // "state"
    assert_eq!(seeds[1], user.bytes.to_vec());

    let seeds = vault_seed_bytes(&user);
    assert_eq!(seeds[0], vec![118u8, 97, 117, 108, 116]); // "vault"
    assert_eq!(seeds[1], user.bytes.to_vec());
}

#[test]
fn authority_assertion_reproduces_creation_seeds() {
    let program_id = addr(7);
    let user = addr(8);
    let (state_address, _) = derive_state_address(&program_id, &user).unwrap();
    let (vault_address, vault_bump) = derive_vault_address(&program_id, &state_address).unwrap();

    let proof = assert_authority(&program_id, &state_address, vault_bump, &vault_address)
        .expect("the genuine bump must convince the ledger");
    assert_eq!(proof.seeds.len(), 3);
    assert_eq!(proof.seeds[0], vec![118u8, 97, 117, 108, 116]); // "vault"
    assert_eq!(proof.seeds[1], state_address.bytes.to_vec());
    assert_eq!(proof.seeds[2], vec![vault_bump]);
}

#[test]
fn authority_assertion_rejects_a_tampered_bump() {
    let program_id = addr(7);
    let user = addr(8);
    let (state_address, _) = derive_state_address(&program_id, &user).unwrap();
    let (vault_address, vault_bump) = derive_vault_address(&program_id, &state_address).unwrap();

    let tampered = vault_bump.wrapping_add(1);
    let outcome = assert_authority(&program_id, &state_address, tampered, &vault_address);
    assert!(matches!(outcome, Err(VaultError::AuthorityMismatch)));
}

#[test]
fn presented_state_check_matches_stored_bump_only() {
    let program_id = addr(10);
    let user = addr(11);
    let (state_address, state_bump) = derive_state_address(&program_id, &user).unwrap();
    assert!(verify_presented_state(
        &program_id,
        &user,
        state_bump,
        &state_address
    ));
    assert!(!verify_presented_state(
        &program_id,
        &user,
        state_bump.wrapping_add(1),
        &state_address
    ));
    // The right bump, but a different account than the one it derives.
    assert!(!verify_presented_state(
        &program_id,
        &user,
        state_bump,
        &user
    ));
}

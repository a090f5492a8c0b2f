//! Deterministic address derivation.
//!
//! Every account this controller touches is identified by a 32-byte address
//! derived from a namespace tag and seed material. Creation uses a forward
//! mode that searches for a disambiguation byte (the bump); every later
//! operation uses the cheap verification mode, which recomputes the address
//! from the seeds plus a known bump and compares it with the account that
//! was presented.

use vstd::prelude::*;

verus! {

/// A 32-byte ledger address. Derived addresses have no private key; the
/// controller proves authority over them by reproducing their seeds.
#[derive(Clone, Copy, Debug)]
pub struct Address {
    pub bytes: [u8; 32],
}

impl View for Address {
    type V = Seq<u8>;

    open spec fn view(&self) -> Seq<u8> {
        self.bytes@
    }
}

impl PartialEq for Address {
    fn eq(&self, other: &Address) -> (r: bool) {
        let mut i: usize = 0;
        while i < 32
            invariant
                i <= 32,
                forall|j: int| 0 <= j < i ==> self.bytes@[j] == other.bytes@[j],
            decreases 32 - i,
        {
            if self.bytes[i] != other.bytes[i] {
                assert(self.bytes@[i as int] != other.bytes@[i as int]);
                return false;
            }
            i += 1;
        }
        proof {
            assert(self.bytes@ =~= other.bytes@);
        }
        true
    }
}

impl Eq for Address {}

impl vstd::std_specs::cmp::PartialEqSpecImpl for Address {
    open spec fn obeys_eq_spec() -> bool {
        true
    }

    open spec fn eq_spec(&self, other: &Address) -> bool {
        self@ == other@
    }
}

impl Address {
    /// The address bytes as a fresh vector, for use as seed material.
    pub fn to_seed(&self) -> (r: Vec<u8>)
        ensures
            r@ == self@,
    {
        vstd::slice::slice_to_vec(self.bytes.as_slice())
    }
}

/// The namespace tag of a vault state record: the ASCII bytes of "state".
pub open spec fn state_tag() -> Seq<u8> {
    seq![115u8, 116u8, 97u8, 116u8, 101u8]
}

/// The namespace tag of a vault holding account: the ASCII bytes of "vault".
pub open spec fn vault_tag() -> Seq<u8> {
    seq![118u8, 97u8, 117u8, 108u8, 116u8]
}

/// The seed sequence of a user's vault state record: the state tag, then the
/// user's own address.
pub open spec fn state_seeds(user: Seq<u8>) -> Seq<Seq<u8>> {
    seq![state_tag(), user]
}

/// The seed sequence of a vault: the vault tag, then the address of the
/// owning vault state record. Authority chains user -> state record -> vault.
pub open spec fn vault_seeds(state_address: Seq<u8>) -> Seq<Seq<u8>> {
    seq![vault_tag(), state_address]
}

/// A seed sequence extended with its disambiguation byte as a final
/// single-byte seed. This exact ordering is what creation uses and what
/// authority assertion must reproduce byte for byte.
pub open spec fn with_bump(seeds: Seq<Seq<u8>>, bump: u8) -> Seq<Seq<u8>> {
    seeds.push(seq![bump])
}

/// The byte strings held by a vector of seed vectors.
pub open spec fn seeds_view(seeds: Seq<Vec<u8>>) -> Seq<Seq<u8>> {
    seeds.map_values(|s: Vec<u8>| s@)
}

/// What an `Option`al derived address holds, as bytes.
pub open spec fn addr_opt_view(r: Option<Address>) -> Option<Seq<u8>> {
    match r {
        Some(a) => Some(a@),
        None => None,
    }
}

/// What an `Option`al (address, bump) pair holds, as bytes.
pub open spec fn found_opt_view(r: Option<(Address, u8)>) -> Option<(Seq<u8>, u8)> {
    match r {
        Some(p) => Some((p.0@, p.1)),
        None => None,
    }
}

/// The derived address of a full seed sequence under a program id, or `None`
/// when those seeds yield no valid derived address. This is the verification
/// mode of the derivation: a pure function of its arguments.
pub uninterp spec fn pda_of(seeds: Seq<Seq<u8>>, program_id: Seq<u8>) -> Option<Seq<u8>>;

/// The (address, bump) pair that the forward-mode search finds for a seed
/// sequence under a program id, or `None` when no disambiguation byte works.
/// Also a pure function of its arguments.
pub uninterp spec fn found_pda_of(seeds: Seq<Seq<u8>>, program_id: Seq<u8>) -> Option<
    (Seq<u8>, u8),
>;

/// Relies on `Pubkey::try_find_program_address`: it walks the disambiguation
/// byte downward from its largest value and returns the first extension of
/// the seeds that yields a valid derived address, so its result is a
/// function of the seeds and the program id alone; the address it returns is
/// the one `Pubkey::create_program_address` computes for those seeds plus
/// the returned byte. It returns `None` instead of panicking when no byte
/// works.
#[verifier::external_body]
pub(crate) fn try_find_derived_address(seeds: &Vec<Vec<u8>>, program_id: &Address) -> (r: Option<
    (Address, u8),
>)
    ensures
        found_opt_view(r) == found_pda_of(seeds_view(seeds@), program_id@),
        r matches Some(found) ==> pda_of(
            with_bump(seeds_view(seeds@), found.1),
            program_id@,
        ) == Some(found.0@),
{
    let seed_slices: Vec<&[u8]> = seeds.iter().map(|s| s.as_slice()).collect();
    let pid = anchor_lang::prelude::Pubkey::new_from_array(program_id.bytes);
    anchor_lang::prelude::Pubkey::try_find_program_address(&seed_slices, &pid).map(
        |found: (anchor_lang::prelude::Pubkey, u8)|
            (Address { bytes: found.0.to_bytes() }, found.1),
    )
}

/// Relies on `Pubkey::create_program_address`: it recomputes the derived
/// address of a full seed sequence deterministically, and rejects seeds that
/// yield no valid derived address (or are too long or too many) with an
/// error instead of panicking.
#[verifier::external_body]
pub(crate) fn create_derived_address(seeds: &Vec<Vec<u8>>, program_id: &Address) -> (r: Option<
    Address,
>)
    ensures
        addr_opt_view(r) == pda_of(seeds_view(seeds@), program_id@),
{
    let seed_slices: Vec<&[u8]> = seeds.iter().map(|s| s.as_slice()).collect();
    let pid = anchor_lang::prelude::Pubkey::new_from_array(program_id.bytes);
    anchor_lang::prelude::Pubkey::create_program_address(&seed_slices, &pid).ok().map(
        |a: anchor_lang::prelude::Pubkey| Address { bytes: a.to_bytes() },
    )
}

/// The seed material of a user's vault state record, in creation order.
pub fn state_seed_bytes(user: &Address) -> (r: Vec<Vec<u8>>)
    ensures
        seeds_view(r@) == state_seeds(user@),
{
    let mut tag: Vec<u8> = Vec::new();
    tag.push(115);
    tag.push(116);
    tag.push(97);
    tag.push(116);
    tag.push(101);
    proof {
        assert(tag@ =~= state_tag());
    }
    let mut seeds: Vec<Vec<u8>> = Vec::new();
    seeds.push(tag);
    seeds.push(user.to_seed());
    proof {
        assert(seeds_view(seeds@) =~= state_seeds(user@));
    }
    seeds
}

/// The seed material of a vault, in creation order.
pub fn vault_seed_bytes(state_address: &Address) -> (r: Vec<Vec<u8>>)
    ensures
        seeds_view(r@) == vault_seeds(state_address@),
{
    let mut tag: Vec<u8> = Vec::new();
    tag.push(118);
    tag.push(97);
    tag.push(117);
    tag.push(108);
    tag.push(116);
    proof {
        assert(tag@ =~= vault_tag());
    }
    let mut seeds: Vec<Vec<u8>> = Vec::new();
    seeds.push(tag);
    seeds.push(state_address.to_seed());
    proof {
        assert(seeds_view(seeds@) =~= vault_seeds(state_address@));
    }
    seeds
}

/// Extends seed material with its disambiguation byte, exactly as
/// `with_bump` describes.
pub fn push_bump(seeds: &mut Vec<Vec<u8>>, bump: u8)
    ensures
        seeds_view(final(seeds)@) == with_bump(seeds_view(old(seeds)@), bump),
{
    let mut bump_seed: Vec<u8> = Vec::new();
    bump_seed.push(bump);
    proof {
        assert(bump_seed@ =~= seq![bump]);
    }
    seeds.push(bump_seed);
    proof {
        assert(seeds_view(seeds@) =~= with_bump(seeds_view(old(seeds)@), bump));
    }
}

/// Forward mode for a user's vault state record: searches for the record's
/// address and disambiguation byte. Used only at creation time.
pub fn derive_state_address(program_id: &Address, user: &Address) -> (r: Option<(Address, u8)>)
    ensures
        found_opt_view(r) == found_pda_of(state_seeds(user@), program_id@),
        r matches Some(found) ==> pda_of(with_bump(state_seeds(user@), found.1), program_id@)
            == Some(found.0@),
{
    let seeds = state_seed_bytes(user);
    try_find_derived_address(&seeds, program_id)
}

/// Forward mode for a vault: searches for the vault's address and
/// disambiguation byte, seeded by its state record's address. Used only at
/// creation time.
pub fn derive_vault_address(program_id: &Address, state_address: &Address) -> (r: Option<
    (Address, u8),
>)
    ensures
        found_opt_view(r) == found_pda_of(vault_seeds(state_address@), program_id@),
        r matches Some(found) ==> pda_of(
            with_bump(vault_seeds(state_address@), found.1),
            program_id@,
        ) == Some(found.0@),
{
    let seeds = vault_seed_bytes(state_address);
    try_find_derived_address(&seeds, program_id)
}

/// Verification mode for a user's vault state record: recomputes the
/// record's address from the stored disambiguation byte.
pub fn verify_state_address(program_id: &Address, user: &Address, state_bump: u8) -> (r: Option<
    Address,
>)
    ensures
        addr_opt_view(r) == pda_of(with_bump(state_seeds(user@), state_bump), program_id@),
{
    let mut seeds = state_seed_bytes(user);
    push_bump(&mut seeds, state_bump);
    create_derived_address(&seeds, program_id)
}

/// Verification mode for a vault: recomputes the vault's address from the
/// stored disambiguation byte.
pub fn verify_vault_address(
    program_id: &Address,
    state_address: &Address,
    vault_bump: u8,
) -> (r: Option<Address>)
    ensures
        addr_opt_view(r) == pda_of(with_bump(vault_seeds(state_address@), vault_bump), program_id@),
{
    let mut seeds = vault_seed_bytes(state_address);
    push_bump(&mut seeds, vault_bump);
    create_derived_address(&seeds, program_id)
}

} // verus!

//! Authority derivation: the storage-less signing capability.
//!
//! A derived record address is a function of an ordered seed list and
//! the program's identity; no private key exists for it, so the host
//! accepts a signature for it only from the program itself, produced
//! with exactly the right seeds.  The engine therefore authorizes every
//! vault debit by re-deriving the address from stored parameters and
//! refusing the operation when the claimed authority is not the
//! derivation's result.
//!
//! Every derivation parameter a caller supplies is re-validated here
//! against stored or re-derived values; none is trusted blindly.
//! Tampering with a stored nonce never silently derives a different
//! valid authority: it fails with [`ErrorCode::UnauthorizedSigner`].

use vstd::prelude::*;
use crate::errors::ErrorCode;
use crate::keys::{
    bet_state_seed, core_state_seed, core_state_seed_bytes, bet_state_seed_bytes, keys_equal,
    pda_seeds, pubkey_to_vec, seeds_view, seeds_with_bump, spec_pda_seeds, vault_auth_seed,
    vault_auth_seed_bytes, vault_token_account_seed, vault_token_account_seed_bytes, Pubkey,
};
use crate::state::{BetState, CoreState};
use vstd::bytes::{spec_u64_to_le_bytes, u64_to_le_bytes};

verus! {

/// The address the host's program-derived-address function computes
/// from a seed list and a program identity, or `None` where that
/// function rejects the seeds (an over-long seed list or a result that
/// falls on the curve).
pub uninterp spec fn derived_address(seeds: Seq<Seq<u8>>, program_id: Seq<u8>) -> Option<Seq<u8>>;

/// Relies on solana_program's `Pubkey::create_program_address`
/// (re-exported by anchor_lang): off-chain it hashes the seed slices
/// and the program id, so its result — the derived address, or an
/// error for over-long seeds or an on-curve hash — is a function of
/// its arguments alone, and the address is 32 bytes.
#[verifier::external_body]
fn create_program_address(seeds: &Vec<Vec<u8>>, program_id: &Pubkey) -> (r: Option<Pubkey>)
    ensures
        r is Some <==> derived_address(seeds_view(seeds@), program_id@) is Some,
        r matches Some(p) ==> derived_address(seeds_view(seeds@), program_id@) == Some(p@),
{
    let slices: Vec<&[u8]> = seeds.iter().map(|s| s.as_slice()).collect();
    let pid = anchor_lang::solana_program::pubkey::Pubkey::new_from_array(program_id.bytes);
    match anchor_lang::solana_program::pubkey::Pubkey::create_program_address(&slices, &pid) {
        Ok(p) => Some(Pubkey { bytes: p.to_bytes() }),
        Err(_) => None,
    }
}

/// Derives the capability address for `[label, owner, [bump]]` under
/// `program_id`: deterministic, storage-less, and without side effects.
pub fn derive_authority(label: Vec<u8>, owner: &Pubkey, bump: u8, program_id: &Pubkey) -> (r:
    Option<Pubkey>)
    ensures
        r is Some <==> derived_address(spec_pda_seeds(label@, owner@, bump), program_id@)
            is Some,
        r matches Some(p) ==> derived_address(spec_pda_seeds(label@, owner@, bump), program_id@)
            == Some(p@),
{
    let ghost label0 = label@;
    let seeds = pda_seeds(label, owner, bump);
    create_program_address(&seeds, program_id)
}

/// Whether `claimed` is exactly the address derived from a label, an
/// owner and a bump under `program_id`.
pub open spec fn labelled_address_ok(
    label: Seq<u8>,
    owner: Seq<u8>,
    bump: u8,
    claimed: Seq<u8>,
    program_id: Seq<u8>,
) -> bool {
    derived_address(spec_pda_seeds(label, owner, bump), program_id) == Some(claimed)
}

/// Checks a claimed labelled address against its re-derivation.
fn verify_labelled_address(
    label: Vec<u8>,
    owner: &Pubkey,
    bump: u8,
    claimed: &Pubkey,
    program_id: &Pubkey,
) -> (r: Result<(), ErrorCode>)
    ensures
        r == (if labelled_address_ok(label@, owner@, bump, claimed@, program_id@) {
            Ok::<(), ErrorCode>(())
        } else {
            Err::<(), ErrorCode>(ErrorCode::UnauthorizedSigner)
        }),
{
    match derive_authority(label, owner, bump, program_id) {
        Some(derived) => {
            if keys_equal(&derived, claimed) {
                Ok(())
            } else {
                Err(ErrorCode::UnauthorizedSigner)
            }
        },
        None => Err(ErrorCode::UnauthorizedSigner),
    }
}

/// Whether `claimed` is the vault authority of `core`'s operator under
/// the stored derivation parameter.
pub open spec fn vault_authority_ok(core: CoreState, claimed: Seq<u8>, program_id: Seq<u8>) -> bool {
    labelled_address_ok(
        vault_auth_seed_bytes(),
        core.admin@,
        core.vault_auth_nonce,
        claimed,
        program_id,
    )
}

/// Verifies a claimed vault authority against the supplied bump and the
/// re-derived address.  Fails with [`ErrorCode::UnauthorizedSigner`]
/// when `bump` does not match the stored derivation parameter, and when
/// the re-derivation does not reproduce `claimed`.
pub fn verify_vault_authority(
    core: &CoreState,
    bump: u8,
    claimed: &Pubkey,
    program_id: &Pubkey,
) -> (r: Result<(), ErrorCode>)
    ensures
        r == spec_verify_vault_authority(*core, bump, claimed@, program_id@),
{
    if bump != core.vault_auth_nonce {
        return Err(ErrorCode::UnauthorizedSigner);
    }
    verify_labelled_address(vault_auth_seed(), &core.admin, bump, claimed, program_id)
}

/// Whether `claimed` is the address of `core`'s own record under the
/// stored derivation parameter.
pub open spec fn core_address_ok(core: CoreState, claimed: Seq<u8>, program_id: Seq<u8>) -> bool {
    labelled_address_ok(
        core_state_seed_bytes(),
        core.admin@,
        core.core_state_nonce,
        claimed,
        program_id,
    )
}

/// Verifies that a supplied configuration record sits at the address
/// its own stored parameters derive.
pub fn verify_core_address(core: &CoreState, claimed: &Pubkey, program_id: &Pubkey) -> (r: Result<
    (),
    ErrorCode,
>)
    ensures
        r is Ok <==> core_address_ok(*core, claimed@, program_id@),
        r is Err ==> r == Err::<(), ErrorCode>(ErrorCode::UnauthorizedSigner),
{
    verify_labelled_address(
        core_state_seed(),
        &core.admin,
        core.core_state_nonce,
        claimed,
        program_id,
    )
}

/// The ordered seeds of a pending wager record:
/// `[label, operator, counter-little-endian, [bump]]`.
pub open spec fn spec_bet_state_seeds(operator: Seq<u8>, counter: u64, bump: u8) -> Seq<Seq<u8>> {
    seq![bet_state_seed_bytes(), operator, spec_u64_to_le_bytes(counter), seq![bump]]
}

/// Whether `claimed` is the address of the pending wager record keyed
/// by `(operator, counter)` under the stored derivation parameter.
pub open spec fn bet_address_ok(
    operator: Seq<u8>,
    bet: BetState,
    claimed: Seq<u8>,
    program_id: Seq<u8>,
) -> bool {
    derived_address(
        spec_bet_state_seeds(operator, bet.flip_counter, bet.bet_state_nonce),
        program_id,
    ) == Some(claimed)
}

/// Verifies that a supplied pending wager record sits at the address
/// derived from its operator, its counter key and its stored bump.
pub fn verify_bet_address(
    operator: &Pubkey,
    bet: &BetState,
    claimed: &Pubkey,
    program_id: &Pubkey,
) -> (r: Result<(), ErrorCode>)
    ensures
        r is Ok <==> bet_address_ok(operator@, *bet, claimed@, program_id@),
        r is Err ==> r == Err::<(), ErrorCode>(ErrorCode::UnauthorizedSigner),
{
    let mut parts: Vec<Vec<u8>> = Vec::new();
    parts.push(bet_state_seed());
    parts.push(pubkey_to_vec(operator));
    parts.push(u64_to_le_bytes(bet.flip_counter));
    let seeds = seeds_with_bump(parts, bet.bet_state_nonce);
    proof {
        assert(seeds_view(seeds@) =~= spec_bet_state_seeds(
            operator@,
            bet.flip_counter,
            bet.bet_state_nonce,
        ));
    }
    match create_program_address(&seeds, program_id) {
        Some(derived) => {
            if keys_equal(&derived, claimed) {
                Ok(())
            } else {
                Err(ErrorCode::UnauthorizedSigner)
            }
        },
        None => Err(ErrorCode::UnauthorizedSigner),
    }
}

/// The ordered seeds of a custody vault record:
/// `[label, mint, operator, [bump]]`.
pub open spec fn spec_vault_token_seeds(mint: Seq<u8>, operator: Seq<u8>, bump: u8) -> Seq<
    Seq<u8>,
> {
    seq![vault_token_account_seed_bytes(), mint, operator, seq![bump]]
}

/// Whether `claimed` is the address of the custody vault record for
/// `(mint, operator)` under the derivation parameter `bump`.
pub open spec fn vault_token_address_ok(
    mint: Seq<u8>,
    operator: Seq<u8>,
    bump: u8,
    claimed: Seq<u8>,
    program_id: Seq<u8>,
) -> bool {
    derived_address(spec_vault_token_seeds(mint, operator, bump), program_id) == Some(claimed)
}

/// Verifies a claimed custody vault address against its re-derivation
/// from the asset, the operator and the supplied bump.
pub fn verify_vault_token_address(
    mint: &Pubkey,
    operator: &Pubkey,
    bump: u8,
    claimed: &Pubkey,
    program_id: &Pubkey,
) -> (r: Result<(), ErrorCode>)
    ensures
        r is Ok <==> vault_token_address_ok(mint@, operator@, bump, claimed@, program_id@),
        r is Err ==> r == Err::<(), ErrorCode>(ErrorCode::UnauthorizedSigner),
{
    let mut parts: Vec<Vec<u8>> = Vec::new();
    parts.push(vault_token_account_seed());
    parts.push(pubkey_to_vec(mint));
    parts.push(pubkey_to_vec(operator));
    let seeds = seeds_with_bump(parts, bump);
    proof {
        assert(seeds_view(seeds@) =~= spec_vault_token_seeds(mint@, operator@, bump));
    }
    match create_program_address(&seeds, program_id) {
        Some(derived) => {
            if keys_equal(&derived, claimed) {
                Ok(())
            } else {
                Err(ErrorCode::UnauthorizedSigner)
            }
        },
        None => Err(ErrorCode::UnauthorizedSigner),
    }
}

/// What [`verify_vault_authority`] decides, as a value.
pub open spec fn spec_verify_vault_authority(
    core: CoreState,
    bump: u8,
    claimed: Seq<u8>,
    program_id: Seq<u8>,
) -> Result<(), ErrorCode> {
    if bump == core.vault_auth_nonce && vault_authority_ok(core, claimed, program_id) {
        Ok(())
    } else {
        Err(ErrorCode::UnauthorizedSigner)
    }
}

/// Tampering with the derivation parameter never authorizes: a bump
/// other than the stored one is always refused, whatever address the
/// tamperer claims — it never silently derives a different valid
/// authority.
pub proof fn lemma_tampered_nonce_always_fails(
    core: CoreState,
    bump: u8,
    claimed: Seq<u8>,
    program_id: Seq<u8>,
)
    requires
        bump != core.vault_auth_nonce,
    ensures
        spec_verify_vault_authority(core, bump, claimed, program_id) == Err::<(), ErrorCode>(
            ErrorCode::UnauthorizedSigner,
        ),
{
}

} // verus!

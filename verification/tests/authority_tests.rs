use anchor_lang::solana_program::pubkey::Pubkey as SolPubkey;
use coin_flip::authority::{
    derive_authority, verify_bet_address, verify_core_address, verify_vault_authority,
    verify_vault_token_address,
};
use coin_flip::errors::ErrorCode;
use coin_flip::keys::{vault_auth_seed, Pubkey};
use coin_flip::state::{BetState, CoreState};

fn lib_key(k: &SolPubkey) -> Pubkey {
    Pubkey { bytes: k.to_bytes() }
}

#[test]
fn derive_authority_matches_the_host_derivation() {
    let program_id = SolPubkey::new_unique();
    let admin = SolPubkey::new_unique();
    let (expected, bump) =
        SolPubkey::find_program_address(&[b"vault-auth", admin.as_ref()], &program_id);

    let derived = derive_authority(vault_auth_seed(), &lib_key(&admin), bump, &lib_key(&program_id));
    assert_eq!(derived.expect("canonical bump must derive").bytes, expected.to_bytes());
}

#[test]
fn verify_vault_authority_accepts_only_the_derived_address() {
    let program_id = SolPubkey::new_unique();
    let admin = SolPubkey::new_unique();
    let (authority, bump) =
        SolPubkey::find_program_address(&[b"vault-auth", admin.as_ref()], &program_id);
    let core = CoreState {
        core_state_nonce: 0,
        vault_auth_nonce: bump,
        admin: lib_key(&admin),
        flip_counter: 0,
        fee_percent: 5,
        active: true,
        allow_direct_bet: true,
    };

    assert!(verify_vault_authority(&core, bump, &lib_key(&authority), &lib_key(&program_id))
        .is_ok());

    let tampered_bump = bump.wrapping_add(1);
    assert!(matches!(
        verify_vault_authority(&core, tampered_bump, &lib_key(&authority), &lib_key(&program_id)),
        Err(ErrorCode::UnauthorizedSigner)
    ));

    let wrong_address = lib_key(&SolPubkey::new_unique());
    assert!(matches!(
        verify_vault_authority(&core, bump, &wrong_address, &lib_key(&program_id)),
        Err(ErrorCode::UnauthorizedSigner)
    ));
}

#[test]
fn verify_core_address_round_trips() {
    let program_id = SolPubkey::new_unique();
    let admin = SolPubkey::new_unique();
    let (core_address, bump) =
        SolPubkey::find_program_address(&[b"core-state", admin.as_ref()], &program_id);
    let core = CoreState {
        core_state_nonce: bump,
        vault_auth_nonce: 0,
        admin: lib_key(&admin),
        flip_counter: 0,
        fee_percent: 0,
        active: true,
        allow_direct_bet: true,
    };

    assert!(verify_core_address(&core, &lib_key(&core_address), &lib_key(&program_id)).is_ok());
    assert!(matches!(
        verify_core_address(&core, &lib_key(&SolPubkey::new_unique()), &lib_key(&program_id)),
        Err(ErrorCode::UnauthorizedSigner)
    ));
}

#[test]
fn verify_vault_token_address_round_trips() {
    let program_id = SolPubkey::new_unique();
    let admin = SolPubkey::new_unique();
    let mint = SolPubkey::new_unique();
    let (vault_token, bump) = SolPubkey::find_program_address(
        &[b"vault-token-account", mint.as_ref(), admin.as_ref()],
        &program_id,
    );

    assert!(verify_vault_token_address(
        &lib_key(&mint),
        &lib_key(&admin),
        bump,
        &lib_key(&vault_token),
        &lib_key(&program_id),
    )
    .is_ok());
    assert!(matches!(
        verify_vault_token_address(
            &lib_key(&mint),
            &lib_key(&admin),
            bump.wrapping_add(1),
            &lib_key(&vault_token),
            &lib_key(&program_id),
        ),
        Err(ErrorCode::UnauthorizedSigner)
    ));
}

#[test]
fn verify_bet_address_uses_the_counter_key() {
    let program_id = SolPubkey::new_unique();
    let admin = SolPubkey::new_unique();
    let counter: u64 = 11;
    let (bet_address, bump) = SolPubkey::find_program_address(
        &[b"bet-state", admin.as_ref(), &counter.to_le_bytes()],
        &program_id,
    );
    let bet = BetState {
        bet_state_nonce: bump,
        core_state: lib_key(&SolPubkey::new_unique()),
        user: lib_key(&SolPubkey::new_unique()),
        token_mint: lib_key(&SolPubkey::new_unique()),
        amount: 10,
        bet_side: true,
        flip_counter: counter,
        approved: true,
    };

    assert!(verify_bet_address(
        &lib_key(&admin),
        &bet,
        &lib_key(&bet_address),
        &lib_key(&program_id),
    )
    .is_ok());

    let other_counter = BetState { flip_counter: 12, ..bet };
    assert!(matches!(
        verify_bet_address(
            &lib_key(&admin),
            &other_counter,
            &lib_key(&bet_address),
            &lib_key(&program_id),
        ),
        Err(ErrorCode::UnauthorizedSigner)
    ));
}

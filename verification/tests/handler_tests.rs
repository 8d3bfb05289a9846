use anchor_lang::solana_program::pubkey::Pubkey as SolPubkey;
use coin_flip::errors::ErrorCode;
use coin_flip::handlers::{
    deposit, initialize, register, update_core_state, withdraw, Deposit, Initialize, Register,
    UpdateCoreState, Withdraw,
};
use coin_flip::keys::Pubkey;
use coin_flip::state::{
    CoreState, DepositArgs, InitializeArgs, RegisterArgs, UpdateCoreStateArgs, WithdrawArgs,
};
use coin_flip::token::TokenAccount;

const RENT_MINIMUM: u64 = 2_039_280;

fn lib_key(k: &SolPubkey) -> Pubkey {
    Pubkey { bytes: k.to_bytes() }
}

struct World {
    program_id: Pubkey,
    admin: Pubkey,
    core_address: Pubkey,
    vault_authority: Pubkey,
    mint: Pubkey,
    vault_token_address: Pubkey,
    vault_token_nonce: u8,
    core: CoreState,
}

fn setup(fee_percent: u8) -> World {
    let program_id = SolPubkey::new_unique();
    let admin = SolPubkey::new_unique();
    let mint = SolPubkey::new_unique();
    let (core_address, core_bump) =
        SolPubkey::find_program_address(&[b"core-state", admin.as_ref()], &program_id);
    let (vault_authority, auth_bump) =
        SolPubkey::find_program_address(&[b"vault-auth", admin.as_ref()], &program_id);
    let (vault_token_address, vault_token_nonce) = SolPubkey::find_program_address(
        &[b"vault-token-account", mint.as_ref(), admin.as_ref()],
        &program_id,
    );
    let ctx = Initialize {
        admin: lib_key(&admin),
        core_state_address: lib_key(&core_address),
        vault_authority: lib_key(&vault_authority),
    };
    let args = InitializeArgs {
        core_state_nonce: core_bump,
        vault_auth_nonce: auth_bump,
        fee_percent,
    };
    let core = initialize(&ctx, &args, &lib_key(&program_id)).expect("initialize");
    World {
        program_id: lib_key(&program_id),
        admin: lib_key(&admin),
        core_address: lib_key(&core_address),
        vault_authority: lib_key(&vault_authority),
        mint: lib_key(&mint),
        vault_token_address: lib_key(&vault_token_address),
        vault_token_nonce,
        core,
    }
}

fn deposit_ctx(w: &World, vault: Option<TokenAccount>, admin_balance: u64) -> Deposit {
    Deposit {
        core_state: w.core,
        core_state_address: w.core_address,
        admin: w.admin,
        admin_lamports: 10_000_000,
        vault_authority: w.vault_authority,
        token_mint: w.mint,
        admin_token_account: TokenAccount {
            address: lib_key(&SolPubkey::new_unique()),
            owner: w.admin,
            mint: w.mint,
            amount: admin_balance,
        },
        vault_token_account: vault,
        vault_token_account_address: w.vault_token_address,
        vault_token_account_lamports: 0,
        rent_minimum_balance: RENT_MINIMUM,
    }
}

#[test]
fn initialize_fills_the_record_and_rejects_bad_nonces() {
    let w = setup(5);
    assert_eq!(w.core.fee_percent, 5);
    assert_eq!(w.core.flip_counter, 0);
    assert!(w.core.active);
    assert!(w.core.allow_direct_bet);
    assert_eq!(w.core.admin, w.admin);

    let ctx = Initialize {
        admin: w.admin,
        core_state_address: w.core_address,
        vault_authority: w.vault_authority,
    };
    let bad = InitializeArgs {
        core_state_nonce: w.core.core_state_nonce.wrapping_add(1),
        vault_auth_nonce: w.core.vault_auth_nonce,
        fee_percent: 5,
    };
    assert!(matches!(
        initialize(&ctx, &bad, &w.program_id),
        Err(ErrorCode::UnauthorizedSigner)
    ));
}

#[test]
fn update_core_state_is_admin_only() {
    let w = setup(5);
    let mut ctx = UpdateCoreState {
        admin: w.admin,
        core_state: w.core,
        core_state_address: w.core_address,
    };
    let args = UpdateCoreStateArgs { fee_percent: 7, active: false, allow_direct_bet: false };
    update_core_state(&mut ctx, &args, &w.program_id).expect("update");
    assert_eq!(ctx.core_state.fee_percent, 7);
    assert!(!ctx.core_state.active);
    assert!(!ctx.core_state.allow_direct_bet);
    assert_eq!(ctx.core_state.flip_counter, 0);

    let mut intruder = UpdateCoreState {
        admin: lib_key(&SolPubkey::new_unique()),
        core_state: w.core,
        core_state_address: w.core_address,
    };
    assert!(matches!(
        update_core_state(&mut intruder, &args, &w.program_id),
        Err(ErrorCode::WrongAdmin)
    ));
    assert_eq!(intruder.core_state, w.core);
}

#[test]
fn register_provisions_once_and_is_idempotent() {
    let w = setup(5);
    let mut ctx = Register {
        core_state: w.core,
        core_state_address: w.core_address,
        admin: w.admin,
        admin_lamports: 10_000_000,
        token_mint: w.mint,
        vault_authority: w.vault_authority,
        vault_token_account: None,
        vault_token_account_address: w.vault_token_address,
        vault_token_account_lamports: 0,
        rent_minimum_balance: RENT_MINIMUM,
    };
    let args = RegisterArgs { vault_token_account_nonce: w.vault_token_nonce };
    register(&mut ctx, &args, &w.program_id).expect("register");
    let vault = ctx.vault_token_account.expect("provisioned");
    assert_eq!(vault.owner, w.vault_authority);
    assert_eq!(vault.mint, w.mint);
    assert_eq!(vault.amount, 0);
    assert_eq!(vault.address, w.vault_token_address);
    assert_eq!(ctx.vault_token_account_lamports, RENT_MINIMUM);
    assert_eq!(ctx.admin_lamports, 10_000_000 - RENT_MINIMUM);

    register(&mut ctx, &args, &w.program_id).expect("second register is a no-op");
    assert_eq!(ctx.vault_token_account_lamports, RENT_MINIMUM);
    assert_eq!(ctx.admin_lamports, 10_000_000 - RENT_MINIMUM);
    assert_eq!(ctx.vault_token_account, Some(vault));
}

#[test]
fn register_rejects_a_wrong_vault_token_nonce() {
    let w = setup(5);
    let mut ctx = Register {
        core_state: w.core,
        core_state_address: w.core_address,
        admin: w.admin,
        admin_lamports: 10_000_000,
        token_mint: w.mint,
        vault_authority: w.vault_authority,
        vault_token_account: None,
        vault_token_account_address: w.vault_token_address,
        vault_token_account_lamports: 0,
        rent_minimum_balance: RENT_MINIMUM,
    };
    let args = RegisterArgs { vault_token_account_nonce: w.vault_token_nonce.wrapping_add(1) };
    assert!(matches!(
        register(&mut ctx, &args, &w.program_id),
        Err(ErrorCode::UnauthorizedSigner)
    ));
    assert_eq!(ctx.vault_token_account, None);
}

#[test]
fn deposit_provisions_and_credits_the_vault() {
    let w = setup(5);
    let mut ctx = deposit_ctx(&w, None, 1_500);
    deposit(&mut ctx, &DepositArgs { amount: 1_000 }, &w.program_id).expect("deposit");
    let vault = ctx.vault_token_account.expect("provisioned");
    assert_eq!(vault.amount, 1_000);
    assert_eq!(vault.owner, w.vault_authority);
    assert_eq!(ctx.admin_token_account.amount, 500);
    assert_eq!(ctx.admin_lamports, 10_000_000 - RENT_MINIMUM);
}

#[test]
fn deposit_rejects_a_wrong_caller_and_a_foreign_account() {
    let w = setup(5);
    let mut ctx = deposit_ctx(&w, None, 1_500);
    ctx.admin = lib_key(&SolPubkey::new_unique());
    assert!(matches!(
        deposit(&mut ctx, &DepositArgs { amount: 10 }, &w.program_id),
        Err(ErrorCode::WrongAdmin)
    ));

    let mut foreign_owner = deposit_ctx(&w, None, 1_500);
    foreign_owner.admin_token_account.owner = lib_key(&SolPubkey::new_unique());
    assert!(matches!(
        deposit(&mut foreign_owner, &DepositArgs { amount: 10 }, &w.program_id),
        Err(ErrorCode::TokenOnwerMismatch)
    ));

    let mut foreign_mint = deposit_ctx(&w, None, 1_500);
    foreign_mint.admin_token_account.mint = lib_key(&SolPubkey::new_unique());
    assert!(matches!(
        deposit(&mut foreign_mint, &DepositArgs { amount: 10 }, &w.program_id),
        Err(ErrorCode::TokenMintMismatch)
    ));
}

#[test]
fn deposit_rejects_more_than_the_caller_holds() {
    let w = setup(5);
    let mut ctx = deposit_ctx(&w, None, 99);
    let before = ctx.admin_token_account;
    assert!(matches!(
        deposit(&mut ctx, &DepositArgs { amount: 100 }, &w.program_id),
        Err(ErrorCode::InsufficientFunds)
    ));
    assert_eq!(ctx.admin_token_account, before);
    assert_eq!(ctx.vault_token_account, None);
    assert_eq!(ctx.admin_lamports, 10_000_000);
}

#[test]
fn native_deposit_checks_plain_addresses() {
    let w = setup(5);
    let native = Pubkey { bytes: spl_token::native_mint::id().to_bytes() };
    let good = TokenAccount { address: w.admin, owner: w.admin, mint: native, amount: 700 };
    let vault = TokenAccount {
        address: w.vault_authority,
        owner: w.vault_authority,
        mint: native,
        amount: 0,
    };
    let mut ctx = deposit_ctx(&w, Some(vault), 0);
    ctx.token_mint = native;
    ctx.admin_token_account = good;
    deposit(&mut ctx, &DepositArgs { amount: 300 }, &w.program_id).expect("native deposit");
    assert_eq!(ctx.vault_token_account.unwrap().amount, 300);
    assert_eq!(ctx.admin_token_account.amount, 400);

    let mut wrong_source = deposit_ctx(&w, Some(vault), 0);
    wrong_source.token_mint = native;
    wrong_source.admin_token_account =
        TokenAccount { address: lib_key(&SolPubkey::new_unique()), ..good };
    assert!(matches!(
        deposit(&mut wrong_source, &DepositArgs { amount: 300 }, &w.program_id),
        Err(ErrorCode::PublicKeyMismatch)
    ));

    let mut no_vault = deposit_ctx(&w, None, 0);
    no_vault.token_mint = native;
    no_vault.admin_token_account = good;
    assert!(matches!(
        deposit(&mut no_vault, &DepositArgs { amount: 300 }, &w.program_id),
        Err(ErrorCode::UninitializedAccount)
    ));
}

#[test]
fn withdraw_moves_vault_funds_back_and_respects_the_balance() {
    let w = setup(5);
    let vault = TokenAccount {
        address: w.vault_token_address,
        owner: w.vault_authority,
        mint: w.mint,
        amount: 1_000,
    };
    let mut ctx = Withdraw {
        core_state: w.core,
        core_state_address: w.core_address,
        admin: w.admin,
        vault_authority: w.vault_authority,
        token_mint: w.mint,
        admin_token_account: TokenAccount {
            address: lib_key(&SolPubkey::new_unique()),
            owner: w.admin,
            mint: w.mint,
            amount: 50,
        },
        vault_token_account: vault,
    };
    withdraw(&mut ctx, &WithdrawArgs { amount: 300 }, &w.program_id).expect("withdraw");
    assert_eq!(ctx.vault_token_account.amount, 700);
    assert_eq!(ctx.admin_token_account.amount, 350);

    let before = ctx;
    let mut again = before;
    assert!(matches!(
        withdraw(&mut again, &WithdrawArgs { amount: 10_000 }, &w.program_id),
        Err(ErrorCode::InsufficientFunds)
    ));
    assert_eq!(again.vault_token_account, before.vault_token_account);
    assert_eq!(again.admin_token_account, before.admin_token_account);
}

#[test]
fn pausing_gates_withdrawals_too() {
    let w = setup(5);
    let mut cfg = UpdateCoreState {
        admin: w.admin,
        core_state: w.core,
        core_state_address: w.core_address,
    };
    update_core_state(
        &mut cfg,
        &UpdateCoreStateArgs { fee_percent: 5, active: false, allow_direct_bet: true },
        &w.program_id,
    )
    .expect("pause");
    let mut ctx = Withdraw {
        core_state: cfg.core_state,
        core_state_address: w.core_address,
        admin: w.admin,
        vault_authority: w.vault_authority,
        token_mint: w.mint,
        admin_token_account: TokenAccount {
            address: lib_key(&SolPubkey::new_unique()),
            owner: w.admin,
            mint: w.mint,
            amount: 0,
        },
        vault_token_account: TokenAccount {
            address: w.vault_token_address,
            owner: w.vault_authority,
            mint: w.mint,
            amount: 1_000,
        },
    };
    assert!(matches!(
        withdraw(&mut ctx, &WithdrawArgs { amount: 1 }, &w.program_id),
        Err(ErrorCode::NotActiveCoreState)
    ));
    assert_eq!(ctx.vault_token_account.amount, 1_000);
}

#[test]
fn pausing_gates_deposits_until_reactivated() {
    let w = setup(5);
    let mut cfg = UpdateCoreState {
        admin: w.admin,
        core_state: w.core,
        core_state_address: w.core_address,
    };
    update_core_state(
        &mut cfg,
        &UpdateCoreStateArgs { fee_percent: 5, active: false, allow_direct_bet: true },
        &w.program_id,
    )
    .expect("pause");

    let mut paused = deposit_ctx(&w, None, 1_500);
    paused.core_state = cfg.core_state;
    assert!(matches!(
        deposit(&mut paused, &DepositArgs { amount: 100 }, &w.program_id),
        Err(ErrorCode::NotActiveCoreState)
    ));

    update_core_state(
        &mut cfg,
        &UpdateCoreStateArgs { fee_percent: 5, active: true, allow_direct_bet: true },
        &w.program_id,
    )
    .expect("unpause");
    let mut resumed = deposit_ctx(&w, None, 1_500);
    resumed.core_state = cfg.core_state;
    deposit(&mut resumed, &DepositArgs { amount: 100 }, &w.program_id)
        .expect("deposit works again");
    assert_eq!(resumed.vault_token_account.unwrap().amount, 100);
}

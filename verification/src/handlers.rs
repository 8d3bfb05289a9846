//! The configuration and fund-movement handlers: initialize,
//! configure, register, deposit, withdraw.
//!
//! Each handler is a state transition over the records and balances it
//! touches.  Validation is eager and fail-fast: a handler that returns
//! an error leaves every record and balance exactly as it found them,
//! and its contract says precisely which error each input earns.

use vstd::prelude::*;
use crate::authority::{
    core_address_ok, vault_authority_ok, vault_token_address_ok,
    verify_core_address, verify_vault_authority, verify_vault_token_address,
};
use crate::errors::ErrorCode;
use crate::keys::{keys_equal, Pubkey};
use crate::state::{
    CoreState, DepositArgs, InitializeArgs, RegisterArgs, UpdateCoreStateArgs, WithdrawArgs,
};
use crate::token::{
    assert_is_ata, ata_err, native_mint_bytes, is_native_mint, transfer_err, transfer_tokens,
    TokenAccount,
};
use crate::utils::{create_program_token_account_if_not_present, provision_err, required_reserve};

verus! {

/// The checks at the head of every operator-only, fund-moving
/// operation: the caller is the configured operator, the configuration record sits
/// at its derived address, the configuration is active, and the claimed
/// vault authority re-derives from the stored parameter.
pub open spec fn admin_gate_err(
    core: CoreState,
    core_address: Seq<u8>,
    admin: Seq<u8>,
    vault_authority: Seq<u8>,
    program_id: Seq<u8>,
) -> Option<ErrorCode> {
    if admin != core.admin@ {
        Some(ErrorCode::WrongAdmin)
    } else if !core_address_ok(core, core_address, program_id) {
        Some(ErrorCode::UnauthorizedSigner)
    } else if !core.active {
        Some(ErrorCode::NotActiveCoreState)
    } else if !vault_authority_ok(core, vault_authority, program_id) {
        Some(ErrorCode::UnauthorizedSigner)
    } else {
        None
    }
}

/// Checks the operator gate.
fn check_admin_gate(
    core: &CoreState,
    core_address: &Pubkey,
    admin: &Pubkey,
    vault_authority: &Pubkey,
    program_id: &Pubkey,
) -> (r: Result<(), ErrorCode>)
    ensures
        match r {
            Ok(()) => admin_gate_err(*core, core_address@, admin@, vault_authority@, program_id@)
                is None,
            Err(e) => admin_gate_err(*core, core_address@, admin@, vault_authority@, program_id@)
                == Some(e),
        },
{
    if !keys_equal(admin, &core.admin) {
        return Err(ErrorCode::WrongAdmin);
    }
    verify_core_address(core, core_address, program_id)?;
    if !core.active {
        return Err(ErrorCode::NotActiveCoreState);
    }
    verify_vault_authority(core, core.vault_auth_nonce, vault_authority, program_id)?;
    Ok(())
}

/// Identity checks on the wallet-side and vault-side accounts of a
/// transfer.  For the native asset both are plain balances: the
/// wallet-side account must be the wallet itself and the vault-side
/// account must be the derived authority itself.  For any other asset
/// the wallet-side account must belong to the wallet and hold the
/// asset.
pub open spec fn account_pair_err(
    wallet_account: TokenAccount,
    wallet: Seq<u8>,
    vault_account: TokenAccount,
    vault_authority: Seq<u8>,
    mint: Seq<u8>,
) -> Option<ErrorCode> {
    if mint == native_mint_bytes() {
        if wallet_account.address@ != wallet {
            Some(ErrorCode::PublicKeyMismatch)
        } else if vault_account.address@ != vault_authority {
            Some(ErrorCode::PublicKeyMismatch)
        } else {
            None
        }
    } else {
        ata_err(wallet_account, wallet, mint)
    }
}

/// Checks the two accounts of a transfer.
pub(crate) fn check_account_pair(
    wallet_account: &TokenAccount,
    wallet: &Pubkey,
    vault_account: &TokenAccount,
    vault_authority: &Pubkey,
    mint: &Pubkey,
) -> (r: Result<(), ErrorCode>)
    ensures
        match r {
            Ok(()) => account_pair_err(
                *wallet_account,
                wallet@,
                *vault_account,
                vault_authority@,
                mint@,
            ) is None,
            Err(e) => account_pair_err(
                *wallet_account,
                wallet@,
                *vault_account,
                vault_authority@,
                mint@,
            ) == Some(e),
        },
{
    if is_native_mint(mint) {
        if !keys_equal(&wallet_account.address, wallet) {
            return Err(ErrorCode::PublicKeyMismatch);
        }
        if !keys_equal(&vault_account.address, vault_authority) {
            return Err(ErrorCode::PublicKeyMismatch);
        }
        Ok(())
    } else {
        assert_is_ata(wallet_account, wallet, mint)
    }
}

/// The accounts `initialize` reads.
#[derive(Clone, Copy, Debug, PartialEq, Eq)]
pub struct Initialize {
    /// The operator creating the configuration; the transaction's
    /// signer.
    pub admin: Pubkey,
    /// Where the new configuration record will live.
    pub core_state_address: Pubkey,
    /// The claimed vault authority for the new configuration.
    pub vault_authority: Pubkey,
}

/// Why `initialize` rejects its input, if it does: either supplied
/// derivation parameter fails to re-derive the corresponding address.
pub open spec fn initialize_err(
    ctx: Initialize,
    args: InitializeArgs,
    program_id: Seq<u8>,
) -> Option<ErrorCode> {
    let core = initialized_core_state(ctx, args);
    if !core_address_ok(core, ctx.core_state_address@, program_id) {
        Some(ErrorCode::UnauthorizedSigner)
    } else if !vault_authority_ok(core, ctx.vault_authority@, program_id) {
        Some(ErrorCode::UnauthorizedSigner)
    } else {
        None
    }
}

/// The configuration record `initialize` creates: the caller's
/// identity and nonces, the requested fee, a zeroed counter, and both
/// feature flags on.
pub open spec fn initialized_core_state(ctx: Initialize, args: InitializeArgs) -> CoreState {
    CoreState {
        core_state_nonce: args.core_state_nonce,
        vault_auth_nonce: args.vault_auth_nonce,
        admin: ctx.admin,
        flip_counter: 0,
        fee_percent: args.fee_percent,
        active: true,
        allow_direct_bet: true,
    }
}

/// Creates the operator's configuration record.  Both supplied
/// derivation parameters are re-validated against the addresses they
/// claim to derive before anything is created.
pub fn initialize(ctx: &Initialize, args: &InitializeArgs, program_id: &Pubkey) -> (r: Result<
    CoreState,
    ErrorCode,
>)
    requires
        args.fee_percent <= 100,
    ensures
        match r {
            Ok(core) => {
                &&& initialize_err(*ctx, *args, program_id@) is None
                &&& core == initialized_core_state(*ctx, *args)
                &&& core.wf()
            },
            Err(e) => initialize_err(*ctx, *args, program_id@) == Some(e),
        },
{
    let core = CoreState {
        core_state_nonce: args.core_state_nonce,
        vault_auth_nonce: args.vault_auth_nonce,
        admin: ctx.admin,
        flip_counter: 0,
        fee_percent: args.fee_percent,
        active: true,
        allow_direct_bet: true,
    };
    verify_core_address(&core, &ctx.core_state_address, program_id)?;
    verify_vault_authority(&core, core.vault_auth_nonce, &ctx.vault_authority, program_id)?;
    Ok(core)
}

/// The accounts `update_core_state` touches.
#[derive(Clone, Copy, Debug, PartialEq, Eq)]
pub struct UpdateCoreState {
    /// The caller; the transaction's signer.
    pub admin: Pubkey,
    /// The configuration record being updated.
    pub core_state: CoreState,
    /// The address the record sits at.
    pub core_state_address: Pubkey,
}

/// Why `update_core_state` rejects its input, if it does.  The update
/// path works on a paused configuration too: that is how an operator
/// un-pauses it.
pub open spec fn update_core_state_err(ctx: UpdateCoreState, program_id: Seq<u8>) -> Option<
    ErrorCode,
> {
    if ctx.admin@ != ctx.core_state.admin@ {
        Some(ErrorCode::WrongAdmin)
    } else if !core_address_ok(ctx.core_state, ctx.core_state_address@, program_id) {
        Some(ErrorCode::UnauthorizedSigner)
    } else {
        None
    }
}

/// Updates the fee rate and the feature flags; operator-only.  The
/// identity, the nonces and the counter never change here.
pub fn update_core_state(
    ctx: &mut UpdateCoreState,
    args: &UpdateCoreStateArgs,
    program_id: &Pubkey,
) -> (r: Result<(), ErrorCode>)
    requires
        args.fee_percent <= 100,
    ensures
        match r {
            Ok(()) => {
                &&& update_core_state_err(*old(ctx), program_id@) is None
                &&& *final(ctx) == (UpdateCoreState {
                    core_state: CoreState {
                        fee_percent: args.fee_percent,
                        active: args.active,
                        allow_direct_bet: args.allow_direct_bet,
                        ..old(ctx).core_state
                    },
                    ..*old(ctx)
                })
                &&& final(ctx).core_state.wf()
            },
            Err(e) => {
                &&& update_core_state_err(*old(ctx), program_id@) == Some(e)
                &&& *final(ctx) == *old(ctx)
            },
        },
{
    if !keys_equal(&ctx.admin, &ctx.core_state.admin) {
        return Err(ErrorCode::WrongAdmin);
    }
    verify_core_address(&ctx.core_state, &ctx.core_state_address, program_id)?;
    ctx.core_state.fee_percent = args.fee_percent;
    ctx.core_state.active = args.active;
    ctx.core_state.allow_direct_bet = args.allow_direct_bet;
    Ok(())
}

/// The accounts `register` touches.
#[derive(Clone, Copy, Debug, PartialEq, Eq)]
pub struct Register {
    /// The configuration record gating the registration.
    pub core_state: CoreState,
    /// The address the configuration record sits at.
    pub core_state_address: Pubkey,
    /// The caller; the transaction's signer, and the payer of the new
    /// record's reserve.
    pub admin: Pubkey,
    /// The caller's spendable balance.
    pub admin_lamports: u64,
    /// The asset being registered.
    pub token_mint: Pubkey,
    /// The claimed vault authority.
    pub vault_authority: Pubkey,
    /// The custody record for the asset, if it exists yet.
    pub vault_token_account: Option<TokenAccount>,
    /// Where the custody record lives.
    pub vault_token_account_address: Pubkey,
    /// The reserve the custody record's storage holds so far.
    pub vault_token_account_lamports: u64,
    /// The minimum reserve the host demands for the record's storage.
    pub rent_minimum_balance: u64,
}

/// Why `register` rejects its input, if it does.
pub open spec fn register_err(
    ctx: Register,
    args: RegisterArgs,
    program_id: Seq<u8>,
) -> Option<ErrorCode> {
    let gate = admin_gate_err(
        ctx.core_state,
        ctx.core_state_address@,
        ctx.admin@,
        ctx.vault_authority@,
        program_id,
    );
    if gate is Some {
        gate
    } else if !vault_token_address_ok(
        ctx.token_mint@,
        ctx.core_state.admin@,
        args.vault_token_account_nonce,
        ctx.vault_token_account_address@,
        program_id,
    ) {
        Some(ErrorCode::UnauthorizedSigner)
    } else {
        provision_err(
            ctx.vault_token_account,
            ctx.vault_token_account_lamports,
            ctx.admin_lamports,
            ctx.rent_minimum_balance,
            ctx.token_mint@ == native_mint_bytes(),
        )
    }
}

/// Registers an asset: idempotently provisions its custody record,
/// owned by the derived vault authority and holding the asset, with
/// the caller funding the storage reserve.  Operator-only; the
/// custody record's supplied derivation parameter is re-validated.
pub fn register(ctx: &mut Register, args: &RegisterArgs, program_id: &Pubkey) -> (r: Result<
    (),
    ErrorCode,
>)
    ensures
        match r {
            Ok(()) => {
                &&& register_err(*old(ctx), *args, program_id@) is None
                &&& if old(ctx).token_mint@ != native_mint_bytes() && old(ctx).vault_token_account
                    is None {
                    &&& final(ctx).vault_token_account == Some(TokenAccount {
                        address: old(ctx).vault_token_account_address,
                        owner: old(ctx).vault_authority,
                        mint: old(ctx).token_mint,
                        amount: 0,
                    })
                    &&& final(ctx).vault_token_account_lamports == old(
                        ctx,
                    ).vault_token_account_lamports + required_reserve(
                        old(ctx).rent_minimum_balance,
                        old(ctx).vault_token_account_lamports,
                    )
                    &&& final(ctx).admin_lamports == old(ctx).admin_lamports - required_reserve(
                        old(ctx).rent_minimum_balance,
                        old(ctx).vault_token_account_lamports,
                    )
                } else {
                    &&& final(ctx).vault_token_account == old(ctx).vault_token_account
                    &&& final(ctx).vault_token_account_lamports == old(
                        ctx,
                    ).vault_token_account_lamports
                    &&& final(ctx).admin_lamports == old(ctx).admin_lamports
                }
                &&& final(ctx).core_state == old(ctx).core_state
                &&& final(ctx).core_state_address == old(ctx).core_state_address
                &&& final(ctx).admin == old(ctx).admin
                &&& final(ctx).token_mint == old(ctx).token_mint
                &&& final(ctx).vault_authority == old(ctx).vault_authority
                &&& final(ctx).vault_token_account_address == old(ctx).vault_token_account_address
                &&& final(ctx).rent_minimum_balance == old(ctx).rent_minimum_balance
            },
            Err(e) => {
                &&& register_err(*old(ctx), *args, program_id@) == Some(e)
                &&& *final(ctx) == *old(ctx)
            },
        },
{
    check_admin_gate(
        &ctx.core_state,
        &ctx.core_state_address,
        &ctx.admin,
        &ctx.vault_authority,
        program_id,
    )?;
    verify_vault_token_address(
        &ctx.token_mint,
        &ctx.core_state.admin,
        args.vault_token_account_nonce,
        &ctx.vault_token_account_address,
        program_id,
    )?;
    let is_native = is_native_mint(&ctx.token_mint);
    let mut record = ctx.vault_token_account;
    let mut record_lamports = ctx.vault_token_account_lamports;
    let mut payer_lamports = ctx.admin_lamports;
    let provisioned = create_program_token_account_if_not_present(
        &mut record,
        &ctx.vault_token_account_address,
        &mut record_lamports,
        &mut payer_lamports,
        &ctx.token_mint,
        &ctx.vault_authority,
        ctx.rent_minimum_balance,
        is_native,
    );
    match provisioned {
        Ok(()) => {
            ctx.vault_token_account = record;
            ctx.vault_token_account_lamports = record_lamports;
            ctx.admin_lamports = payer_lamports;
            Ok(())
        },
        Err(e) => Err(e),
    }
}

/// The accounts `deposit` touches.
#[derive(Clone, Copy, Debug, PartialEq, Eq)]
pub struct Deposit {
    /// The configuration record gating the deposit.
    pub core_state: CoreState,
    /// The address the configuration record sits at.
    pub core_state_address: Pubkey,
    /// The caller; the transaction's signer, and the payer of a fresh
    /// custody record's reserve.
    pub admin: Pubkey,
    /// The caller's spendable balance.
    pub admin_lamports: u64,
    /// The claimed vault authority.
    pub vault_authority: Pubkey,
    /// The asset being deposited.
    pub token_mint: Pubkey,
    /// The caller's account for the asset: the transfer's source.
    pub admin_token_account: TokenAccount,
    /// The custody vault for the asset, if it exists yet.
    pub vault_token_account: Option<TokenAccount>,
    /// Where the custody vault lives.
    pub vault_token_account_address: Pubkey,
    /// The reserve the custody vault's storage holds so far.
    pub vault_token_account_lamports: u64,
    /// The minimum reserve the host demands for the record's storage.
    pub rent_minimum_balance: u64,
}

/// The custody record `deposit` moves funds into: the existing one, or
/// the empty one provisioning creates when the asset is not native and
/// none exists yet.
pub open spec fn deposit_vault_record(ctx: Deposit) -> Option<TokenAccount> {
    if ctx.token_mint@ != native_mint_bytes() && ctx.vault_token_account is None {
        Some(TokenAccount {
            address: ctx.vault_token_account_address,
            owner: ctx.vault_authority,
            mint: ctx.token_mint,
            amount: 0,
        })
    } else {
        ctx.vault_token_account
    }
}

/// Why `deposit` rejects its input, if it does.
pub open spec fn deposit_err(ctx: Deposit, args: DepositArgs, program_id: Seq<u8>) -> Option<
    ErrorCode,
> {
    let gate = admin_gate_err(
        ctx.core_state,
        ctx.core_state_address@,
        ctx.admin@,
        ctx.vault_authority@,
        program_id,
    );
    let provision = provision_err(
        ctx.vault_token_account,
        ctx.vault_token_account_lamports,
        ctx.admin_lamports,
        ctx.rent_minimum_balance,
        ctx.token_mint@ == native_mint_bytes(),
    );
    if gate is Some {
        gate
    } else if provision is Some {
        provision
    } else if deposit_vault_record(ctx) is None {
        Some(ErrorCode::UninitializedAccount)
    } else {
        let vault = deposit_vault_record(ctx)->Some_0;
        let pair = account_pair_err(
            ctx.admin_token_account,
            ctx.admin@,
            vault,
            ctx.vault_authority@,
            ctx.token_mint@,
        );
        if pair is Some {
            pair
        } else {
            transfer_err(ctx.admin_token_account.amount, vault.amount, args.amount)
        }
    }
}

/// Deposits operator funds into the custody vault, provisioning the
/// vault first when it does not exist yet.  Operator-only; no fee, and
/// no state change beyond the balances and the possible provisioning.
pub fn deposit(ctx: &mut Deposit, args: &DepositArgs, program_id: &Pubkey) -> (r: Result<
    (),
    ErrorCode,
>)
    ensures
        match r {
            Ok(()) => {
                &&& deposit_err(*old(ctx), *args, program_id@) is None
                &&& final(ctx).vault_token_account == Some(TokenAccount {
                    amount: (deposit_vault_record(*old(ctx))->Some_0.amount + args.amount) as u64,
                    ..deposit_vault_record(*old(ctx))->Some_0
                })
                &&& final(ctx).admin_token_account == (TokenAccount {
                    amount: (old(ctx).admin_token_account.amount - args.amount) as u64,
                    ..old(ctx).admin_token_account
                })
                &&& if old(ctx).token_mint@ != native_mint_bytes() && old(ctx).vault_token_account
                    is None {
                    &&& final(ctx).vault_token_account_lamports == old(
                        ctx,
                    ).vault_token_account_lamports + required_reserve(
                        old(ctx).rent_minimum_balance,
                        old(ctx).vault_token_account_lamports,
                    )
                    &&& final(ctx).admin_lamports == old(ctx).admin_lamports - required_reserve(
                        old(ctx).rent_minimum_balance,
                        old(ctx).vault_token_account_lamports,
                    )
                } else {
                    &&& final(ctx).vault_token_account_lamports == old(
                        ctx,
                    ).vault_token_account_lamports
                    &&& final(ctx).admin_lamports == old(ctx).admin_lamports
                }
                &&& final(ctx).core_state == old(ctx).core_state
                &&& final(ctx).core_state_address == old(ctx).core_state_address
                &&& final(ctx).admin == old(ctx).admin
                &&& final(ctx).vault_authority == old(ctx).vault_authority
                &&& final(ctx).token_mint == old(ctx).token_mint
                &&& final(ctx).vault_token_account_address == old(ctx).vault_token_account_address
                &&& final(ctx).rent_minimum_balance == old(ctx).rent_minimum_balance
            },
            Err(e) => {
                &&& deposit_err(*old(ctx), *args, program_id@) == Some(e)
                &&& *final(ctx) == *old(ctx)
            },
        },
{
    check_admin_gate(
        &ctx.core_state,
        &ctx.core_state_address,
        &ctx.admin,
        &ctx.vault_authority,
        program_id,
    )?;
    let is_native = is_native_mint(&ctx.token_mint);
    let mut record = ctx.vault_token_account;
    let mut record_lamports = ctx.vault_token_account_lamports;
    let mut payer_lamports = ctx.admin_lamports;
    create_program_token_account_if_not_present(
        &mut record,
        &ctx.vault_token_account_address,
        &mut record_lamports,
        &mut payer_lamports,
        &ctx.token_mint,
        &ctx.vault_authority,
        ctx.rent_minimum_balance,
        is_native,
    )?;
    let mut vault_account = match record {
        Some(account) => account,
        None => { return Err(ErrorCode::UninitializedAccount); },
    };
    check_account_pair(
        &ctx.admin_token_account,
        &ctx.admin,
        &vault_account,
        &ctx.vault_authority,
        &ctx.token_mint,
    )?;
    let mut admin_account = ctx.admin_token_account;
    transfer_tokens(&mut admin_account, &mut vault_account, args.amount)?;
    ctx.admin_token_account = admin_account;
    ctx.vault_token_account = Some(vault_account);
    ctx.vault_token_account_lamports = record_lamports;
    ctx.admin_lamports = payer_lamports;
    Ok(())
}

/// The accounts `withdraw` touches.
#[derive(Clone, Copy, Debug, PartialEq, Eq)]
pub struct Withdraw {
    /// The configuration record gating the withdrawal.
    pub core_state: CoreState,
    /// The address the configuration record sits at.
    pub core_state_address: Pubkey,
    /// The caller; the transaction's signer.
    pub admin: Pubkey,
    /// The claimed vault authority: the only identity a vault debit
    /// can be signed for.
    pub vault_authority: Pubkey,
    /// The asset being withdrawn.
    pub token_mint: Pubkey,
    /// The caller's account for the asset: the transfer's destination.
    pub admin_token_account: TokenAccount,
    /// The custody vault: the transfer's source.
    pub vault_token_account: TokenAccount,
}

/// Why `withdraw` rejects its input, if it does.  In particular the
/// vault holding less than the requested amount surfaces as
/// [`ErrorCode::InsufficientFunds`].
pub open spec fn withdraw_err(ctx: Withdraw, args: WithdrawArgs, program_id: Seq<u8>) -> Option<
    ErrorCode,
> {
    let gate = admin_gate_err(
        ctx.core_state,
        ctx.core_state_address@,
        ctx.admin@,
        ctx.vault_authority@,
        program_id,
    );
    let pair = account_pair_err(
        ctx.admin_token_account,
        ctx.admin@,
        ctx.vault_token_account,
        ctx.vault_authority@,
        ctx.token_mint@,
    );
    if gate is Some {
        gate
    } else if pair is Some {
        pair
    } else {
        transfer_err(ctx.vault_token_account.amount, ctx.admin_token_account.amount, args.amount)
    }
}

/// Withdraws operator funds from the custody vault.  The outgoing
/// transfer is authorized by the derived vault authority — never by a
/// personal key — so the operator gate re-derives it before any funds
/// move.
pub fn withdraw(ctx: &mut Withdraw, args: &WithdrawArgs, program_id: &Pubkey) -> (r: Result<
    (),
    ErrorCode,
>)
    ensures
        match r {
            Ok(()) => {
                &&& withdraw_err(*old(ctx), *args, program_id@) is None
                &&& *final(ctx) == (Withdraw {
                    admin_token_account: TokenAccount {
                        amount: (old(ctx).admin_token_account.amount + args.amount) as u64,
                        ..old(ctx).admin_token_account
                    },
                    vault_token_account: TokenAccount {
                        amount: (old(ctx).vault_token_account.amount - args.amount) as u64,
                        ..old(ctx).vault_token_account
                    },
                    ..*old(ctx)
                })
            },
            Err(e) => {
                &&& withdraw_err(*old(ctx), *args, program_id@) == Some(e)
                &&& *final(ctx) == *old(ctx)
            },
        },
{
    check_admin_gate(
        &ctx.core_state,
        &ctx.core_state_address,
        &ctx.admin,
        &ctx.vault_authority,
        program_id,
    )?;
    check_account_pair(
        &ctx.admin_token_account,
        &ctx.admin,
        &ctx.vault_token_account,
        &ctx.vault_authority,
        &ctx.token_mint,
    )?;
    let mut vault_account = ctx.vault_token_account;
    let mut admin_account = ctx.admin_token_account;
    transfer_tokens(&mut vault_account, &mut admin_account, args.amount)?;
    ctx.vault_token_account = vault_account;
    ctx.admin_token_account = admin_account;
    Ok(())
}

/// Pausing gates every fund-moving operator path: with `active` off,
/// registration, deposit and withdrawal all fail, whatever else their
/// input holds.
pub proof fn lemma_admin_ops_gated(
    register_ctx: Register,
    register_args: RegisterArgs,
    deposit_ctx: Deposit,
    deposit_args: DepositArgs,
    withdraw_ctx: Withdraw,
    withdraw_args: WithdrawArgs,
    program_id: Seq<u8>,
)
    ensures
        !register_ctx.core_state.active ==> register_err(register_ctx, register_args, program_id)
            is Some,
        !deposit_ctx.core_state.active ==> deposit_err(deposit_ctx, deposit_args, program_id)
            is Some,
        !withdraw_ctx.core_state.active ==> withdraw_err(withdraw_ctx, withdraw_args, program_id)
            is Some,
{
}

/// A withdrawal succeeds only when the claimed vault authority is
/// exactly the address derived from the stored label, operator and
/// nonce: no other signer can debit the vault.
pub proof fn lemma_withdraw_needs_authority(
    ctx: Withdraw,
    args: WithdrawArgs,
    program_id: Seq<u8>,
)
    requires
        withdraw_err(ctx, args, program_id) is None,
    ensures
        vault_authority_ok(ctx.core_state, ctx.vault_authority@, program_id),
        ctx.admin@ == ctx.core_state.admin@,
        ctx.core_state.active,
{
}

} // verus!

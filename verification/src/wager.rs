//! The wager handlers: the synchronous double-or-nothing flip and the
//! two-phase place/settle pair.
//!
//! A wager's stake is collected into the custody vault before any
//! outcome is computed.  A winning wager is paid `2 * amount - fee`
//! back, authorized by the derived vault authority alone.  The
//! two-phase path decouples collection from resolution: placement
//! creates a funded pending record, and the one settlement the record
//! admits resolves against the clock and counter current at settlement
//! time, then destroys the record.

use vstd::prelude::*;
use crate::authority::{
    bet_address_ok, core_address_ok, vault_authority_ok, verify_bet_address, verify_core_address,
    verify_vault_authority,
};
use crate::errors::ErrorCode;
use crate::fees::{calc_fee, payout_of};
use crate::handlers::{account_pair_err, check_account_pair};
use crate::keys::{keys_equal, Pubkey};
use crate::resolver::{calc_hash, spec_flip_outcome};
use crate::state::{BetArgs, BetDirectlyArgs, BetState, CoreState};
use crate::token::{transfer_err, TokenAccount};

verus! {

/// The checks at the head of every wager: the configuration record
/// sits at its derived address, it is active, the synchronous path is open
/// where the wager takes it, and the claimed vault authority
/// re-derives from the stored parameter.
pub open spec fn user_gate_err(
    core: CoreState,
    core_address: Seq<u8>,
    vault_authority: Seq<u8>,
    require_direct: bool,
    program_id: Seq<u8>,
) -> Option<ErrorCode> {
    if !core_address_ok(core, core_address, program_id) {
        Some(ErrorCode::UnauthorizedSigner)
    } else if !core.active {
        Some(ErrorCode::NotActiveCoreState)
    } else if require_direct && !core.allow_direct_bet {
        Some(ErrorCode::DirectBetNotAllowed)
    } else if !vault_authority_ok(core, vault_authority, program_id) {
        Some(ErrorCode::UnauthorizedSigner)
    } else {
        None
    }
}

/// Checks the wager gate.
fn check_user_gate(
    core: &CoreState,
    core_address: &Pubkey,
    vault_authority: &Pubkey,
    require_direct: bool,
    program_id: &Pubkey,
) -> (r: Result<(), ErrorCode>)
    ensures
        match r {
            Ok(()) => user_gate_err(
                *core,
                core_address@,
                vault_authority@,
                require_direct,
                program_id@,
            ) is None,
            Err(e) => user_gate_err(
                *core,
                core_address@,
                vault_authority@,
                require_direct,
                program_id@,
            ) == Some(e),
        },
{
    verify_core_address(core, core_address, program_id)?;
    if !core.active {
        return Err(ErrorCode::NotActiveCoreState);
    }
    if require_direct && !core.allow_direct_bet {
        return Err(ErrorCode::DirectBetNotAllowed);
    }
    verify_vault_authority(core, core.vault_auth_nonce, vault_authority, program_id)?;
    Ok(())
}

/// The accounts `bet_directly` touches.
#[derive(Clone, Copy, Debug, PartialEq, Eq)]
pub struct BetDirectly {
    /// The configuration record gating the wager; its counter is
    /// incremented.
    pub core_state: CoreState,
    /// The address the configuration record sits at.
    pub core_state_address: Pubkey,
    /// The bettor; the transaction's signer.
    pub user: Pubkey,
    /// The claimed vault authority.
    pub vault_authority: Pubkey,
    /// The asset being wagered.
    pub token_mint: Pubkey,
    /// The bettor's account for the asset.
    pub user_token_account: TokenAccount,
    /// The custody vault for the asset.
    pub vault_token_account: TokenAccount,
}

/// Why `bet_directly` rejects its input, if it does.
pub open spec fn bet_directly_err(
    ctx: BetDirectly,
    args: BetDirectlyArgs,
    clock: u64,
    program_id: Seq<u8>,
) -> Option<ErrorCode> {
    let gate = user_gate_err(
        ctx.core_state,
        ctx.core_state_address@,
        ctx.vault_authority@,
        true,
        program_id,
    );
    let pair = account_pair_err(
        ctx.user_token_account,
        ctx.user@,
        ctx.vault_token_account,
        ctx.vault_authority@,
        ctx.token_mint@,
    );
    let stake = transfer_err(
        ctx.user_token_account.amount,
        ctx.vault_token_account.amount,
        args.amount,
    );
    if gate is Some {
        gate
    } else if ctx.core_state.flip_counter == u64::MAX {
        Some(ErrorCode::NumericalOverflow)
    } else if pair is Some {
        pair
    } else if stake is Some {
        stake
    } else {
        let counter = (ctx.core_state.flip_counter + 1) as u64;
        let won = spec_flip_outcome(clock, counter) == args.bet_side;
        if !won {
            None
        } else if 2 * args.amount > u64::MAX {
            Some(ErrorCode::NumericalOverflow)
        } else {
            let payout = payout_of(args.amount, ctx.core_state.fee_percent) as u64;
            let user_after = (ctx.user_token_account.amount - args.amount) as u64;
            let vault_after = (ctx.vault_token_account.amount + args.amount) as u64;
            transfer_err(vault_after, user_after, payout)
        }
    }
}

/// The synchronous wager: collects the stake, increments the counter,
/// resolves against the clock and the new counter, and pays a winner
/// `2 * amount - fee` from the vault under the derived authority.  No
/// record survives the call; the result says whether the bettor won.
pub fn bet_directly(
    ctx: &mut BetDirectly,
    args: &BetDirectlyArgs,
    clock: u64,
    program_id: &Pubkey,
) -> (r: Result<bool, ErrorCode>)
    requires
        old(ctx).core_state.wf(),
    ensures
        match r {
            Ok(won) => {
                &&& bet_directly_err(*old(ctx), *args, clock, program_id@) is None
                &&& won == (spec_flip_outcome(
                    clock,
                    (old(ctx).core_state.flip_counter + 1) as u64,
                ) == args.bet_side)
                &&& final(ctx).core_state == (CoreState {
                    flip_counter: (old(ctx).core_state.flip_counter + 1) as u64,
                    ..old(ctx).core_state
                })
                &&& final(ctx).user_token_account == (TokenAccount {
                    amount: (if won {
                        (old(ctx).user_token_account.amount - args.amount + payout_of(
                            args.amount,
                            old(ctx).core_state.fee_percent,
                        )) as u64
                    } else {
                        (old(ctx).user_token_account.amount - args.amount) as u64
                    }),
                    ..old(ctx).user_token_account
                })
                &&& final(ctx).vault_token_account == (TokenAccount {
                    amount: (if won {
                        (old(ctx).vault_token_account.amount + args.amount - payout_of(
                            args.amount,
                            old(ctx).core_state.fee_percent,
                        )) as u64
                    } else {
                        (old(ctx).vault_token_account.amount + args.amount) as u64
                    }),
                    ..old(ctx).vault_token_account
                })
                &&& final(ctx).core_state_address == old(ctx).core_state_address
                &&& final(ctx).user == old(ctx).user
                &&& final(ctx).vault_authority == old(ctx).vault_authority
                &&& final(ctx).token_mint == old(ctx).token_mint
            },
            Err(e) => {
                &&& bet_directly_err(*old(ctx), *args, clock, program_id@) == Some(e)
                &&& *final(ctx) == *old(ctx)
            },
        },
{
    check_user_gate(
        &ctx.core_state,
        &ctx.core_state_address,
        &ctx.vault_authority,
        true,
        program_id,
    )?;
    if ctx.core_state.flip_counter == u64::MAX {
        return Err(ErrorCode::NumericalOverflow);
    }
    let counter = ctx.core_state.flip_counter + 1;
    check_account_pair(
        &ctx.user_token_account,
        &ctx.user,
        &ctx.vault_token_account,
        &ctx.vault_authority,
        &ctx.token_mint,
    )?;
    if ctx.user_token_account.amount < args.amount {
        return Err(ErrorCode::InsufficientFunds);
    }
    if args.amount > u64::MAX - ctx.vault_token_account.amount {
        return Err(ErrorCode::NumericalOverflow);
    }
    let user_after = ctx.user_token_account.amount - args.amount;
    let vault_after = ctx.vault_token_account.amount + args.amount;
    let hash = calc_hash(clock, counter);
    let won = (hash % 2 == 1) == args.bet_side;
    let user_final: u64;
    let vault_final: u64;
    if won {
        if args.amount > u64::MAX / 2 {
            return Err(ErrorCode::NumericalOverflow);
        }
        let fee = calc_fee(args.amount, ctx.core_state.fee_percent);
        let payout = 2 * args.amount - fee;
        if vault_after < payout {
            return Err(ErrorCode::InsufficientFunds);
        }
        if payout > u64::MAX - user_after {
            return Err(ErrorCode::NumericalOverflow);
        }
        user_final = user_after + payout;
        vault_final = vault_after - payout;
    } else {
        user_final = user_after;
        vault_final = vault_after;
    }
    ctx.core_state.flip_counter = counter;
    ctx.user_token_account.amount = user_final;
    ctx.vault_token_account.amount = vault_final;
    Ok(won)
}

/// The accounts `bet` (placement) touches.
#[derive(Clone, Copy, Debug, PartialEq, Eq)]
pub struct Bet {
    /// The configuration record gating the wager; its counter is
    /// incremented.
    pub core_state: CoreState,
    /// The address the configuration record sits at.
    pub core_state_address: Pubkey,
    /// The bettor; the transaction's signer.
    pub user: Pubkey,
    /// The claimed vault authority.
    pub vault_authority: Pubkey,
    /// The asset being wagered.
    pub token_mint: Pubkey,
    /// The bettor's account for the asset.
    pub user_token_account: TokenAccount,
    /// The custody vault for the asset.
    pub vault_token_account: TokenAccount,
}

/// Why `bet` rejects its input, if it does.
pub open spec fn bet_err(
    ctx: Bet,
    args: BetArgs,
    program_id: Seq<u8>,
) -> Option<ErrorCode> {
    let gate = user_gate_err(
        ctx.core_state,
        ctx.core_state_address@,
        ctx.vault_authority@,
        false,
        program_id,
    );
    let pair = account_pair_err(
        ctx.user_token_account,
        ctx.user@,
        ctx.vault_token_account,
        ctx.vault_authority@,
        ctx.token_mint@,
    );
    let stake = transfer_err(
        ctx.user_token_account.amount,
        ctx.vault_token_account.amount,
        args.amount,
    );
    if gate is Some {
        gate
    } else if ctx.core_state.flip_counter == u64::MAX {
        Some(ErrorCode::NumericalOverflow)
    } else if pair is Some {
        pair
    } else {
        stake
    }
}

/// The pending record `bet` creates: funded and awaiting settlement,
/// keyed by the caller-supplied counter snapshot.
pub open spec fn placed_bet_state(ctx: Bet, args: BetArgs) -> BetState {
    BetState {
        bet_state_nonce: args.bet_state_nonce,
        core_state: ctx.core_state_address,
        user: ctx.user,
        token_mint: ctx.token_mint,
        amount: args.amount,
        bet_side: args.bet_side,
        flip_counter: args.flip_counter,
        approved: true,
    }
}

/// Places a two-phase wager: collects the stake into the vault,
/// increments the counter, and returns the pending record — created
/// with `approved` set, meaning funded and awaiting its one
/// settlement.  The record is keyed by `(operator, args.flip_counter)`,
/// so two pending wagers never collide; the host refuses a second
/// record under the same key.
pub fn bet(ctx: &mut Bet, args: &BetArgs, program_id: &Pubkey) -> (r: Result<
    BetState,
    ErrorCode,
>)
    ensures
        match r {
            Ok(bet_state) => {
                &&& bet_err(*old(ctx), *args, program_id@) is None
                &&& bet_state == placed_bet_state(*old(ctx), *args)
                &&& bet_state.approved
                &&& *final(ctx) == (Bet {
                    core_state: CoreState {
                        flip_counter: (old(ctx).core_state.flip_counter + 1) as u64,
                        ..old(ctx).core_state
                    },
                    user_token_account: TokenAccount {
                        amount: (old(ctx).user_token_account.amount - args.amount) as u64,
                        ..old(ctx).user_token_account
                    },
                    vault_token_account: TokenAccount {
                        amount: (old(ctx).vault_token_account.amount + args.amount) as u64,
                        ..old(ctx).vault_token_account
                    },
                    ..*old(ctx)
                })
            },
            Err(e) => {
                &&& bet_err(*old(ctx), *args, program_id@) == Some(e)
                &&& *final(ctx) == *old(ctx)
            },
        },
{
    check_user_gate(
        &ctx.core_state,
        &ctx.core_state_address,
        &ctx.vault_authority,
        false,
        program_id,
    )?;
    if ctx.core_state.flip_counter == u64::MAX {
        return Err(ErrorCode::NumericalOverflow);
    }
    let counter = ctx.core_state.flip_counter + 1;
    check_account_pair(
        &ctx.user_token_account,
        &ctx.user,
        &ctx.vault_token_account,
        &ctx.vault_authority,
        &ctx.token_mint,
    )?;
    if ctx.user_token_account.amount < args.amount {
        return Err(ErrorCode::InsufficientFunds);
    }
    if args.amount > u64::MAX - ctx.vault_token_account.amount {
        return Err(ErrorCode::NumericalOverflow);
    }
    ctx.core_state.flip_counter = counter;
    ctx.user_token_account.amount = ctx.user_token_account.amount - args.amount;
    ctx.vault_token_account.amount = ctx.vault_token_account.amount + args.amount;
    Ok(
        BetState {
            bet_state_nonce: args.bet_state_nonce,
            core_state: ctx.core_state_address,
            user: ctx.user,
            token_mint: ctx.token_mint,
            amount: args.amount,
            bet_side: args.bet_side,
            flip_counter: args.flip_counter,
            approved: true,
        },
    )
}

/// The accounts `bet_return` (settlement) touches.
#[derive(Clone, Copy, Debug, PartialEq, Eq)]
pub struct BetReturn {
    /// The settlement's caller; the transaction's signer, refunded the
    /// pending record's storage reserve.
    pub admin: Pubkey,
    /// The caller's spendable balance.
    pub admin_lamports: u64,
    /// The configuration record gating the settlement.  Its counter is
    /// read — as it stands now — and not incremented.
    pub core_state: CoreState,
    /// The address the configuration record sits at.
    pub core_state_address: Pubkey,
    /// The wallet being paid on a win.
    pub user: Pubkey,
    /// The claimed vault authority.
    pub vault_authority: Pubkey,
    /// The asset the wager was placed in.
    pub token_mint: Pubkey,
    /// The wallet-side account for the asset.
    pub user_token_account: TokenAccount,
    /// The custody vault for the asset.
    pub vault_token_account: TokenAccount,
    /// The pending record being settled, if it still exists.
    pub bet_state: Option<BetState>,
    /// Where the pending record lives.
    pub bet_state_address: Pubkey,
    /// The storage reserve the pending record holds.
    pub bet_state_lamports: u64,
}

/// Why `bet_return` rejects its input, if it does.
pub open spec fn bet_return_err(ctx: BetReturn, clock: u64, program_id: Seq<u8>) -> Option<
    ErrorCode,
> {
    let gate = user_gate_err(
        ctx.core_state,
        ctx.core_state_address@,
        ctx.vault_authority@,
        false,
        program_id,
    );
    if gate is Some {
        gate
    } else if ctx.bet_state is None {
        Some(ErrorCode::UninitializedAccount)
    } else {
        let bet = ctx.bet_state->Some_0;
        if !bet.approved {
            Some(ErrorCode::UnapprovedBet)
        } else if bet.core_state@ != ctx.core_state_address@ {
            Some(ErrorCode::InvalidCoreState)
        } else if bet.token_mint@ != ctx.token_mint@ {
            Some(ErrorCode::InvalidTokenMint)
        } else if !bet_address_ok(
            ctx.core_state.admin@,
            bet,
            ctx.bet_state_address@,
            program_id,
        ) {
            Some(ErrorCode::UnauthorizedSigner)
        } else {
            let won = spec_flip_outcome(clock, ctx.core_state.flip_counter) == bet.bet_side;
            let pair = account_pair_err(
                ctx.user_token_account,
                ctx.user@,
                ctx.vault_token_account,
                ctx.vault_authority@,
                ctx.token_mint@,
            );
            if won && pair is Some {
                pair
            } else if won && 2 * bet.amount > u64::MAX {
                Some(ErrorCode::NumericalOverflow)
            } else if won && transfer_err(
                ctx.vault_token_account.amount,
                ctx.user_token_account.amount,
                payout_of(bet.amount, ctx.core_state.fee_percent) as u64,
            ) is Some {
                transfer_err(
                    ctx.vault_token_account.amount,
                    ctx.user_token_account.amount,
                    payout_of(bet.amount, ctx.core_state.fee_percent) as u64,
                )
            } else if ctx.admin_lamports + ctx.bet_state_lamports > u64::MAX {
                Some(ErrorCode::NumericalOverflow)
            } else {
                None
            }
        }
    }
}

/// Whether the settlement pays out: the outcome resolved at
/// settlement time — against the counter as it stands now, not the
/// snapshot captured at placement — equals the recorded side.
pub open spec fn bet_return_won(ctx: BetReturn, clock: u64) -> bool {
    spec_flip_outcome(clock, ctx.core_state.flip_counter) == ctx.bet_state->Some_0.bet_side
}

/// The state a successful settlement leaves: the balances after any
/// payout, the reserve refunded to the caller, and the pending record
/// gone.
pub open spec fn bet_return_ok_state(ctx: BetReturn, clock: u64) -> BetReturn {
    let bet = ctx.bet_state->Some_0;
    let payout = payout_of(bet.amount, ctx.core_state.fee_percent);
    let won = bet_return_won(ctx, clock);
    BetReturn {
        user_token_account: TokenAccount {
            amount: (if won {
                (ctx.user_token_account.amount + payout) as u64
            } else {
                ctx.user_token_account.amount
            }),
            ..ctx.user_token_account
        },
        vault_token_account: TokenAccount {
            amount: (if won {
                (ctx.vault_token_account.amount - payout) as u64
            } else {
                ctx.vault_token_account.amount
            }),
            ..ctx.vault_token_account
        },
        admin_lamports: (ctx.admin_lamports + ctx.bet_state_lamports) as u64,
        bet_state_lamports: 0,
        bet_state: None,
        ..ctx
    }
}

/// Settles a pending wager: validates the record against the
/// configuration, the asset and its derived address, resolves against
/// the clock and counter current now, pays a winner from the vault
/// under the derived authority, then destroys the record and refunds
/// its reserve to the caller.  A record can be settled at most once:
/// settlement destroys it, and a record whose `approved` is clear is
/// refused.
pub fn bet_return(ctx: &mut BetReturn, clock: u64, program_id: &Pubkey) -> (r: Result<
    bool,
    ErrorCode,
>)
    requires
        old(ctx).core_state.wf(),
    ensures
        match r {
            Ok(won) => {
                &&& bet_return_err(*old(ctx), clock, program_id@) is None
                &&& won == bet_return_won(*old(ctx), clock)
                &&& *final(ctx) == bet_return_ok_state(*old(ctx), clock)
            },
            Err(e) => {
                &&& bet_return_err(*old(ctx), clock, program_id@) == Some(e)
                &&& *final(ctx) == *old(ctx)
            },
        },
{
    check_user_gate(
        &ctx.core_state,
        &ctx.core_state_address,
        &ctx.vault_authority,
        false,
        program_id,
    )?;
    let bet = match &ctx.bet_state {
        Some(bet) => *bet,
        None => { return Err(ErrorCode::UninitializedAccount); },
    };
    if !bet.approved {
        return Err(ErrorCode::UnapprovedBet);
    }
    if !keys_equal(&bet.core_state, &ctx.core_state_address) {
        return Err(ErrorCode::InvalidCoreState);
    }
    if !keys_equal(&bet.token_mint, &ctx.token_mint) {
        return Err(ErrorCode::InvalidTokenMint);
    }
    verify_bet_address(&ctx.core_state.admin, &bet, &ctx.bet_state_address, program_id)?;
    let hash = calc_hash(clock, ctx.core_state.flip_counter);
    let won = (hash % 2 == 1) == bet.bet_side;
    let user_final: u64;
    let vault_final: u64;
    if won {
        check_account_pair(
            &ctx.user_token_account,
            &ctx.user,
            &ctx.vault_token_account,
            &ctx.vault_authority,
            &ctx.token_mint,
        )?;
        if bet.amount > u64::MAX / 2 {
            return Err(ErrorCode::NumericalOverflow);
        }
        let fee = calc_fee(bet.amount, ctx.core_state.fee_percent);
        let payout = 2 * bet.amount - fee;
        if ctx.vault_token_account.amount < payout {
            return Err(ErrorCode::InsufficientFunds);
        }
        if payout > u64::MAX - ctx.user_token_account.amount {
            return Err(ErrorCode::NumericalOverflow);
        }
        user_final = ctx.user_token_account.amount + payout;
        vault_final = ctx.vault_token_account.amount - payout;
    } else {
        user_final = ctx.user_token_account.amount;
        vault_final = ctx.vault_token_account.amount;
    }
    if ctx.bet_state_lamports > u64::MAX - ctx.admin_lamports {
        return Err(ErrorCode::NumericalOverflow);
    }
    ctx.user_token_account.amount = user_final;
    ctx.vault_token_account.amount = vault_final;
    ctx.admin_lamports = ctx.admin_lamports + ctx.bet_state_lamports;
    ctx.bet_state_lamports = 0;
    ctx.bet_state = None;
    Ok(won)
}

/// Exactly one settlement is possible for a placed wager: after a
/// settlement succeeds, the record is gone, and any further settlement
/// attempt — at any later clock — fails on the record's absence.
pub proof fn lemma_single_settlement(
    ctx: BetReturn,
    clock1: u64,
    clock2: u64,
    program_id: Seq<u8>,
)
    requires
        bet_return_err(ctx, clock1, program_id) is None,
    ensures
        bet_return_err(bet_return_ok_state(ctx, clock1), clock2, program_id) == Some(
            ErrorCode::UninitializedAccount,
        ),
{
}

/// Gating of the wager paths: with the configuration paused, every
/// wager operation fails, and with the synchronous path disabled,
/// `bet_directly` fails whatever else its input holds.
pub proof fn lemma_wagers_gated(
    direct_ctx: BetDirectly,
    direct_args: BetDirectlyArgs,
    place_ctx: Bet,
    place_args: BetArgs,
    settle_ctx: BetReturn,
    clock: u64,
    program_id: Seq<u8>,
)
    ensures
        !direct_ctx.core_state.active ==> bet_directly_err(
            direct_ctx,
            direct_args,
            clock,
            program_id,
        ) is Some,
        !direct_ctx.core_state.allow_direct_bet ==> bet_directly_err(
            direct_ctx,
            direct_args,
            clock,
            program_id,
        ) is Some,
        !place_ctx.core_state.active ==> bet_err(place_ctx, place_args, program_id) is Some,
        !settle_ctx.core_state.active ==> bet_return_err(settle_ctx, clock, program_id) is Some,
{
}

/// A winning payout that actually runs never exceeds the pool the
/// wager contributed to: the vault's balance after the stake was
/// collected covers `2 * amount - fee`, and the payout is at least the
/// stake itself — at the adversarial fee boundaries too.
pub proof fn lemma_payout_within_pool(
    ctx: BetDirectly,
    args: BetDirectlyArgs,
    clock: u64,
    program_id: Seq<u8>,
)
    requires
        ctx.core_state.wf(),
        bet_directly_err(ctx, args, clock, program_id) is None,
        spec_flip_outcome(clock, (ctx.core_state.flip_counter + 1) as u64) == args.bet_side,
    ensures
        args.amount <= payout_of(args.amount, ctx.core_state.fee_percent),
        payout_of(args.amount, ctx.core_state.fee_percent) <= ctx.vault_token_account.amount
            + args.amount,
{
    crate::fees::lemma_fee_bounds(args.amount, ctx.core_state.fee_percent);
}

/// A payout can only have been authorized by the derived vault
/// authority: a wager that runs to completion did so with the claimed
/// authority equal to the address re-derived from the stored label,
/// operator and nonce.
pub proof fn lemma_payouts_need_authority(
    direct_ctx: BetDirectly,
    direct_args: BetDirectlyArgs,
    settle_ctx: BetReturn,
    clock: u64,
    program_id: Seq<u8>,
)
    ensures
        bet_directly_err(direct_ctx, direct_args, clock, program_id) is None
            ==> vault_authority_ok(direct_ctx.core_state, direct_ctx.vault_authority@, program_id),
        bet_return_err(settle_ctx, clock, program_id) is None ==> vault_authority_ok(
            settle_ctx.core_state,
            settle_ctx.vault_authority@,
            program_id,
        ),
{
}

} // verus!

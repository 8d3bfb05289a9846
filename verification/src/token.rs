//! The balance-holding side of the engine: a model of the asset
//! accounts the generic transfer service moves funds between.
//!
//! A [`TokenAccount`] is the engine's view of one balance: its address,
//! the wallet that owns it, the asset it holds, and the amount.  For the
//! native asset the "account" is the wallet's own balance, so its
//! address is the wallet itself.

use vstd::prelude::*;
use crate::errors::ErrorCode;
use crate::keys::{keys_equal, Pubkey};

verus! {

/// One balance as the engine reads it.
#[derive(Clone, Copy, Debug, PartialEq, Eq)]
pub struct TokenAccount {
    /// The account's own address.
    pub address: Pubkey,
    /// The wallet the account belongs to.
    pub owner: Pubkey,
    /// The asset the account holds.
    pub mint: Pubkey,
    /// The balance.
    pub amount: u64,
}

/// The address of the native asset's mint, the fixed address
/// "So11111111111111111111111111111111111111112".
pub open spec fn native_mint_bytes() -> Seq<u8> {
    seq![
        6u8, 155, 136, 87, 254, 171, 129, 132, 251, 104, 127, 99, 70, 24, 192, 53, 218, 196,
        57, 220, 26, 235, 59, 85, 152, 160, 240, 0, 0, 0, 0, 1,
    ]
}

/// Relies on spl_token::native_mint::id(): the fixed mint address of the
/// native asset, declared as "So11111111111111111111111111111111111111112".
#[verifier::external_body]
fn native_mint_id() -> (r: Pubkey)
    ensures
        r@ == native_mint_bytes(),
{
    Pubkey { bytes: spl_token::native_mint::id().to_bytes() }
}

/// Whether `mint` is the native asset.
pub fn is_native_mint(mint: &Pubkey) -> (r: bool)
    ensures
        r == (mint@ == native_mint_bytes()),
{
    let native = native_mint_id();
    keys_equal(mint, &native)
}

/// Why `assert_is_ata` rejects `acc` as `wallet`'s account for `mint`,
/// if it does.
pub open spec fn ata_err(acc: TokenAccount, wallet: Seq<u8>, mint: Seq<u8>) -> Option<ErrorCode> {
    if acc.owner@ != wallet {
        Some(ErrorCode::TokenOnwerMismatch)
    } else if acc.mint@ != mint {
        Some(ErrorCode::TokenMintMismatch)
    } else {
        None
    }
}

/// Fails unless `acc` is `wallet`'s account for the asset `mint`.
pub fn assert_is_ata(acc: &TokenAccount, wallet: &Pubkey, mint: &Pubkey) -> (r: Result<
    (),
    ErrorCode,
>)
    ensures
        match r {
            Ok(()) => ata_err(*acc, wallet@, mint@) is None,
            Err(e) => ata_err(*acc, wallet@, mint@) == Some(e),
        },
{
    if !keys_equal(&acc.owner, wallet) {
        Err(ErrorCode::TokenOnwerMismatch)
    } else if !keys_equal(&acc.mint, mint) {
        Err(ErrorCode::TokenMintMismatch)
    } else {
        Ok(())
    }
}

/// Why a transfer of `amount` from a balance of `from` into a balance
/// of `to` fails, if it does.
pub open spec fn transfer_err(from: u64, to: u64, amount: u64) -> Option<ErrorCode> {
    if from < amount {
        Some(ErrorCode::InsufficientFunds)
    } else if to + amount > u64::MAX {
        Some(ErrorCode::NumericalOverflow)
    } else {
        None
    }
}

/// The engine's ledger model of the generic transfer service: moves
/// `amount` between two balances, or moves nothing at all.
pub fn transfer_tokens(from: &mut TokenAccount, to: &mut TokenAccount, amount: u64) -> (r: Result<
    (),
    ErrorCode,
>)
    ensures
        match r {
            Ok(()) => {
                &&& transfer_err(old(from).amount, old(to).amount, amount) is None
                &&& *final(from) == (TokenAccount {
                    amount: (old(from).amount - amount) as u64,
                    ..*old(from)
                })
                &&& *final(to) == (TokenAccount {
                    amount: (old(to).amount + amount) as u64,
                    ..*old(to)
                })
            },
            Err(e) => {
                &&& transfer_err(old(from).amount, old(to).amount, amount) == Some(e)
                &&& *final(from) == *old(from)
                &&& *final(to) == *old(to)
            },
        },
{
    if from.amount < amount {
        return Err(ErrorCode::InsufficientFunds);
    }
    if amount > u64::MAX - to.amount {
        return Err(ErrorCode::NumericalOverflow);
    }
    from.amount = from.amount - amount;
    to.amount = to.amount + amount;
    Ok(())
}

} // verus!

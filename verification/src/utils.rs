//! The account provisioner: idempotent creation of a custody record.
//!
//! The storage allocator itself (reserving bytes, assigning the owning
//! program) is a host service; what the engine owns — and what is
//! verified here — is the decision to provision and the reserve
//! arithmetic: how many units move from the payer so the new record
//! holds the minimum required reserve.

use vstd::prelude::*;
use crate::errors::ErrorCode;
use crate::keys::Pubkey;
use crate::token::TokenAccount;

verus! {

/// The units still owed so a record holding `current` reaches the
/// minimum required reserve for its storage (never less than one
/// unit).
pub open spec fn required_reserve(rent_minimum_balance: u64, current: u64) -> int {
    let floor = if rent_minimum_balance > 1 {
        rent_minimum_balance as int
    } else {
        1int
    };
    if floor > current {
        floor - current
    } else {
        0int
    }
}

/// Why provisioning a record fails, if it does: the payer cannot cover
/// the missing reserve.
pub open spec fn allocate_err(
    rent_minimum_balance: u64,
    account_lamports: u64,
    payer_lamports: u64,
) -> Option<ErrorCode> {
    if payer_lamports < required_reserve(rent_minimum_balance, account_lamports) {
        Some(ErrorCode::InsufficientFunds)
    } else {
        None
    }
}

/// Funds a record's storage reserve: moves exactly the missing part of
/// the minimum required reserve from the payer to the record, and
/// nothing when the record already holds it.  The storage allocation
/// and owner assignment themselves are the host's work and happen
/// outside the engine.
pub fn create_or_allocate_account_raw(
    rent_minimum_balance: u64,
    new_account_lamports: &mut u64,
    payer_lamports: &mut u64,
) -> (r: Result<(), ErrorCode>)
    ensures
        match r {
            Ok(()) => {
                &&& allocate_err(rent_minimum_balance, *old(new_account_lamports), *old(payer_lamports)) is None
                &&& *final(new_account_lamports) == *old(new_account_lamports) + required_reserve(
                    rent_minimum_balance,
                    *old(new_account_lamports),
                )
                &&& *final(payer_lamports) == *old(payer_lamports) - required_reserve(
                    rent_minimum_balance,
                    *old(new_account_lamports),
                )
            },
            Err(e) => {
                &&& allocate_err(rent_minimum_balance, *old(new_account_lamports), *old(payer_lamports)) == Some(e)
                &&& *final(new_account_lamports) == *old(new_account_lamports)
                &&& *final(payer_lamports) == *old(payer_lamports)
            },
        },
{
    let floor: u64 = if rent_minimum_balance > 1 {
        rent_minimum_balance
    } else {
        1
    };
    let required: u64 = if floor > *new_account_lamports {
        floor - *new_account_lamports
    } else {
        0
    };
    if required > 0 {
        if *payer_lamports < required {
            return Err(ErrorCode::InsufficientFunds);
        }
        *payer_lamports = *payer_lamports - required;
        *new_account_lamports = *new_account_lamports + required;
    }
    Ok(())
}

/// Why [`create_program_token_account_if_not_present`] fails, if it
/// does.
pub open spec fn provision_err(
    record: Option<TokenAccount>,
    record_lamports: u64,
    payer_lamports: u64,
    rent_minimum_balance: u64,
    is_native: bool,
) -> Option<ErrorCode> {
    if !is_native && record is None {
        allocate_err(rent_minimum_balance, record_lamports, payer_lamports)
    } else {
        None
    }
}

/// Idempotently provisions a custody record: a no-op when the record
/// already exists (a duplicate invocation never double-charges), and
/// for the native asset, whose custody is the authority's own balance.
/// Otherwise the payer funds the reserve and the record comes into
/// being empty, holding `treasury_mint`, owned by the derived
/// authority.
pub fn create_program_token_account_if_not_present(
    payment_account: &mut Option<TokenAccount>,
    payment_account_address: &Pubkey,
    payment_account_lamports: &mut u64,
    fee_payer_lamports: &mut u64,
    treasury_mint: &Pubkey,
    owner: &Pubkey,
    rent_minimum_balance: u64,
    is_native: bool,
) -> (r: Result<(), ErrorCode>)
    ensures
        match r {
            Ok(()) => {
                &&& provision_err(
                    *old(payment_account),
                    *old(payment_account_lamports),
                    *old(fee_payer_lamports),
                    rent_minimum_balance,
                    is_native,
                ) is None
                &&& if !is_native && *old(payment_account) is None {
                    &&& *final(payment_account) == Some(TokenAccount {
                        address: *payment_account_address,
                        owner: *owner,
                        mint: *treasury_mint,
                        amount: 0,
                    })
                    &&& *final(payment_account_lamports) == *old(payment_account_lamports)
                        + required_reserve(rent_minimum_balance, *old(payment_account_lamports))
                    &&& *final(fee_payer_lamports) == *old(fee_payer_lamports) - required_reserve(
                        rent_minimum_balance,
                        *old(payment_account_lamports),
                    )
                } else {
                    &&& *final(payment_account) == *old(payment_account)
                    &&& *final(payment_account_lamports) == *old(payment_account_lamports)
                    &&& *final(fee_payer_lamports) == *old(fee_payer_lamports)
                }
            },
            Err(e) => {
                &&& provision_err(
                    *old(payment_account),
                    *old(payment_account_lamports),
                    *old(fee_payer_lamports),
                    rent_minimum_balance,
                    is_native,
                ) == Some(e)
                &&& *final(payment_account) == *old(payment_account)
                &&& *final(payment_account_lamports) == *old(payment_account_lamports)
                &&& *final(fee_payer_lamports) == *old(fee_payer_lamports)
            },
        },
{
    if !is_native && payment_account.is_none() {
        create_or_allocate_account_raw(
            rent_minimum_balance,
            payment_account_lamports,
            fee_payer_lamports,
        )?;
        *payment_account = Some(
            TokenAccount {
                address: *payment_account_address,
                owner: *owner,
                mint: *treasury_mint,
                amount: 0,
            },
        );
    }
    Ok(())
}

} // verus!

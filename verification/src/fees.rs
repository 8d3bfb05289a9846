//! Fee and payout arithmetic for wagers.
//!
//! A wager of `amount` at a configured `fee_percent` (0 to 100) pays a
//! flat fee of `floor(amount * fee_percent / 100)`; a winning wager is
//! paid `2 * amount - fee` back from the vault.

use vstd::prelude::*;

verus! {

/// The flat fee retained on a wager of `amount` at rate `fee_percent`.
pub open spec fn fee_of(amount: u64, fee_percent: u8) -> int {
    (amount * fee_percent) / 100
}

/// The gross payout owed to a winning wager of `amount`.
pub open spec fn payout_of(amount: u64, fee_percent: u8) -> int {
    2 * amount - fee_of(amount, fee_percent)
}

/// The fee never exceeds the wager, so a winning payout is always
/// between the wager itself and twice the wager.  In particular the
/// payout never exceeds the pool the wager contributed to: the stake
/// already collected plus at most one further stake of the vault's own
/// funds.
pub proof fn lemma_fee_bounds(amount: u64, fee_percent: u8)
    requires
        fee_percent <= 100,
    ensures
        0 <= fee_of(amount, fee_percent) <= amount,
        amount <= payout_of(amount, fee_percent) <= 2 * amount,
{
    assert(amount * fee_percent <= amount * 100) by (nonlinear_arith)
        requires fee_percent <= 100,
    ;
    assert((amount * fee_percent) / 100 <= (amount * 100) / 100) by (nonlinear_arith)
        requires amount * fee_percent <= amount * 100,
    ;
    assert((amount * 100) / 100 == amount) by (nonlinear_arith);
    assert(0 <= amount * fee_percent) by (nonlinear_arith);
}

/// Computes the wager fee without overflow by widening to `u128`.
pub fn calc_fee(amount: u64, fee_percent: u8) -> (fee: u64)
    requires
        fee_percent <= 100,
    ensures
        fee == fee_of(amount, fee_percent),
        fee <= amount,
{
    proof {
        lemma_fee_bounds(amount, fee_percent);
    }
    let wide: u128 = (amount as u128) * (fee_percent as u128);
    (wide / 100) as u64
}

} // verus!

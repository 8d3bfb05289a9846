//! The persistent records of the wagering engine and the argument
//! records its operations take.

use vstd::prelude::*;
use crate::keys::Pubkey;

verus! {

/// The one configuration record of an operator: the single source of
/// truth that gates every other operation.
///
/// `core_state_nonce` and `vault_auth_nonce` are the derivation
/// parameters of the record's own address and of the vault authority;
/// they are fixed at creation.  `flip_counter` only ever grows.
#[derive(Clone, Copy, Debug, PartialEq, Eq)]
pub struct CoreState {
    pub core_state_nonce: u8,
    pub vault_auth_nonce: u8,
    /// The operator's identity.
    pub admin: Pubkey,
    /// Monotonically non-decreasing wager sequence number.
    pub flip_counter: u64,
    /// Flat wager fee rate, 0 to 100.
    pub fee_percent: u8,
    /// When false, every fund-moving operation is rejected.
    pub active: bool,
    /// When false, only the two-phase wager path is open.
    pub allow_direct_bet: bool,
}

impl CoreState {
    /// The record's internal invariant: the fee rate is a percentage.
    pub open spec fn wf(self) -> bool {
        self.fee_percent <= 100
    }
}

/// One in-flight two-phase wager: created funded at placement,
/// destroyed at settlement.
///
/// `approved == true` means "funded, awaiting settlement", not
/// "accepted": it is cleared by the one settlement the record admits.
#[derive(Clone, Copy, Debug, PartialEq, Eq)]
pub struct BetState {
    /// Derivation parameter of the record's own address.
    pub bet_state_nonce: u8,
    /// Address of the configuration record the wager was placed under.
    pub core_state: Pubkey,
    /// The bettor.
    pub user: Pubkey,
    /// The asset the stake was collected in.
    pub token_mint: Pubkey,
    /// The stake.
    pub amount: u64,
    /// The side the bettor chose.  `true` is heads.
    pub bet_side: bool,
    /// The counter value the record is keyed by.
    pub flip_counter: u64,
    /// Cleared by settlement; a cleared record settles no further.
    pub approved: bool,
}

/// Arguments of [`crate::handlers::initialize`].
#[derive(Clone, Copy, Debug, PartialEq, Eq)]
pub struct InitializeArgs {
    pub core_state_nonce: u8,
    pub vault_auth_nonce: u8,
    pub fee_percent: u8,
}

/// Arguments of [`crate::handlers::update_core_state`].
#[derive(Clone, Copy, Debug, PartialEq, Eq)]
pub struct UpdateCoreStateArgs {
    pub fee_percent: u8,
    pub active: bool,
    pub allow_direct_bet: bool,
}

/// Arguments of [`crate::handlers::register`].
#[derive(Clone, Copy, Debug, PartialEq, Eq)]
pub struct RegisterArgs {
    pub vault_token_account_nonce: u8,
}

/// Arguments of [`crate::handlers::deposit`].
#[derive(Clone, Copy, Debug, PartialEq, Eq)]
pub struct DepositArgs {
    pub amount: u64,
}

/// Arguments of [`crate::handlers::withdraw`].
#[derive(Clone, Copy, Debug, PartialEq, Eq)]
pub struct WithdrawArgs {
    pub amount: u64,
}

/// Arguments of [`crate::wager::bet_directly`].
#[derive(Clone, Copy, Debug, PartialEq, Eq)]
pub struct BetDirectlyArgs {
    pub amount: u64,
    /// `true` is heads, `false` is tails.
    pub bet_side: bool,
}

/// Arguments of [`crate::wager::bet`].
#[derive(Clone, Copy, Debug, PartialEq, Eq)]
pub struct BetArgs {
    pub amount: u64,
    /// `true` is heads, `false` is tails.
    pub bet_side: bool,
    /// The counter value the new record is keyed by.
    pub flip_counter: u64,
    pub bet_state_nonce: u8,
}

} // verus!

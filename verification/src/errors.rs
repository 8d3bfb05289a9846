//! The error taxonomy of the wagering engine.
//!
//! Every error is fatal to the enclosing operation: a handler that
//! returns one of these leaves every record and balance exactly as it
//! found them.

use vstd::prelude::*;

verus! {

/// The reasons a handler rejects an operation.
///
/// Identity-mismatch class: [`ErrorCode::WrongAdmin`],
/// [`ErrorCode::TokenOnwerMismatch`], [`ErrorCode::TokenMintMismatch`],
/// [`ErrorCode::IncorrectOwner`], [`ErrorCode::PublicKeyMismatch`],
/// [`ErrorCode::UnauthorizedSigner`].
/// State-validity class: [`ErrorCode::NotActiveCoreState`],
/// [`ErrorCode::DirectBetNotAllowed`], [`ErrorCode::InvalidCoreState`],
/// [`ErrorCode::InvalidTokenMint`], [`ErrorCode::UnapprovedBet`].
/// Resource class: [`ErrorCode::InsufficientFunds`],
/// [`ErrorCode::UninitializedAccount`], [`ErrorCode::NumericalOverflow`].
#[derive(Clone, Copy, Debug, PartialEq, Eq, Structural)]
pub enum ErrorCode {
    /// The caller is not the operator recorded in the configuration.
    WrongAdmin,
    /// A token account is not owned by the expected wallet.
    TokenOnwerMismatch,
    /// A token account does not hold the expected asset.
    TokenMintMismatch,
    /// A transfer's source holds less than the requested amount.
    InsufficientFunds,
    /// An account is owned by the wrong program.
    IncorrectOwner,
    /// A record that the operation needs has no storage yet.
    UninitializedAccount,
    /// Two addresses that had to coincide do not.
    PublicKeyMismatch,
    /// The pending wager was already settled.
    UnapprovedBet,
    /// The pending wager references a different configuration record.
    InvalidCoreState,
    /// The pending wager was placed for a different asset.
    InvalidTokenMint,
    /// The configuration record is paused.
    NotActiveCoreState,
    /// Fee, payout or balance arithmetic left the representable range.
    NumericalOverflow,
    /// The synchronous wager path is disabled.
    DirectBetNotAllowed,
    /// A supplied derivation parameter does not reproduce the claimed
    /// authority or record address.
    UnauthorizedSigner,
}

} // verus!

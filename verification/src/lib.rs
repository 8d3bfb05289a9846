//! Verified core of an on-chain coin-flip wagering escrow.
//!
//! The crate models the engine of the program as verified state
//! transitions over plain values: a per-operator configuration record
//! ([`state::CoreState`]), a pending-wager record ([`state::BetState`]),
//! balance-holding token accounts, a storage-less derived signing
//! authority, and a pseudo-random outcome resolver.  The host runtime's
//! own services (asset transfers, storage allocation, clock and entropy
//! sysvars, signature checks) are out of scope: handlers receive their
//! observable effects as plain values and describe the resulting state
//! exactly in their contracts.
//!
//! Security caveat: the outcome resolver mixes publicly observable
//! identifiers with wall-clock seconds and a counter through a
//! non-cryptographic hash.  It is deterministic and predictable by a
//! caller who controls settlement timing; this mirrors the wagering
//! design being modeled and is deliberately not "fixed" here.

pub mod authority;
pub mod errors;
pub mod fees;
pub mod handlers;
pub mod keys;
pub mod resolver;
pub mod state;
pub mod token;
pub mod utils;
pub mod wager;

//! The outcome resolver: a pure function from host-provided entropy
//! identifiers, wall-clock seconds and the wager counter to one of two
//! outcomes.
//!
//! Security caveat: the two entropy identifiers are fixed, widely known
//! addresses, and the clock and counter are observable before a
//! transaction is final, so the outcome is predictable by a motivated
//! caller.  This is a known weakness of the design being modeled; the
//! resolver's exact behaviour is preserved rather than repaired.

use vstd::prelude::*;
use crate::keys::Pubkey;

verus! {

/// The digest of a pair of addresses, as the standard hasher computes
/// it over a two-element address array.
pub uninterp spec fn key_pair_digest(a: Seq<u8>, b: Seq<u8>) -> u64;

/// The digest of a triple of words, as the standard hasher computes it
/// over a three-element `u64` array.
pub uninterp spec fn word_triple_digest(a: u64, b: u64, c: u64) -> u64;

/// Relies on std's DefaultHasher (std::collections::hash_map): hashers
/// made by `new` are documented to be identical to one another, so the
/// digest of the two-element address array depends on the two
/// addresses alone.
#[verifier::external_body]
fn hash_key_pair(a: &Pubkey, b: &Pubkey) -> (r: u64)
    ensures
        r == key_pair_digest(a@, b@),
{
    let mut hasher = std::collections::hash_map::DefaultHasher::new();
    let pair = [
        anchor_lang::solana_program::pubkey::Pubkey::new_from_array(a.bytes),
        anchor_lang::solana_program::pubkey::Pubkey::new_from_array(b.bytes),
    ];
    std::hash::Hash::hash(&pair, &mut hasher);
    std::hash::Hasher::finish(&hasher)
}

/// Relies on std's DefaultHasher (std::collections::hash_map) in the
/// same way: the digest of the three-element word array depends on the
/// three words alone.
#[verifier::external_body]
fn hash_word_triple(a: u64, b: u64, c: u64) -> (r: u64)
    ensures
        r == word_triple_digest(a, b, c),
{
    let mut hasher = std::collections::hash_map::DefaultHasher::new();
    std::hash::Hash::hash(&[a, b, c], &mut hasher);
    std::hash::Hasher::finish(&hasher)
}

/// The fixed identifier of the recent-block-hashes sysvar, the address
/// "SysvarRecentB1ockHashes11111111111111111111".
pub open spec fn recent_blockhashes_id_bytes() -> Seq<u8> {
    seq![
        6u8, 167, 213, 23, 25, 44, 86, 142, 224, 138, 132, 95, 115, 210, 151, 136, 207, 3, 92,
        49, 69, 178, 26, 179, 68, 216, 6, 46, 169, 64, 0, 0,
    ]
}

/// The fixed identifier of the slot-hashes sysvar, the address
/// "SysvarS1otHashes111111111111111111111111111".
pub open spec fn slot_hashes_id_bytes() -> Seq<u8> {
    seq![
        6u8, 167, 213, 23, 25, 47, 10, 175, 198, 242, 101, 227, 251, 119, 204, 122, 218, 130,
        197, 41, 208, 190, 59, 19, 110, 45, 0, 85, 32, 0, 0, 0,
    ]
}

/// Relies on solana_program's sysvar::recent_blockhashes::id()
/// (re-exported by anchor_lang): the fixed sysvar address declared as
/// "SysvarRecentB1ockHashes11111111111111111111".
#[verifier::external_body]
#[allow(deprecated)]
fn recent_blockhashes_id() -> (r: Pubkey)
    ensures
        r@ == recent_blockhashes_id_bytes(),
{
    let id = anchor_lang::solana_program::sysvar::recent_blockhashes::id();
    Pubkey { bytes: id.to_bytes() }
}

/// Relies on solana_program's sysvar::slot_hashes::id() (re-exported by
/// anchor_lang): the fixed sysvar address declared as
/// "SysvarS1otHashes111111111111111111111111111".
#[verifier::external_body]
fn slot_hashes_id() -> (r: Pubkey)
    ensures
        r@ == slot_hashes_id_bytes(),
{
    let id = anchor_lang::solana_program::sysvar::slot_hashes::id();
    Pubkey { bytes: id.to_bytes() }
}

/// The resolver's mixing hash over a pair of entropy identifiers, the
/// clock and the counter: the pair's digest is folded with the two
/// scalars through a second digest.
pub open spec fn entropy_digest(
    entropy_a: Seq<u8>,
    entropy_b: Seq<u8>,
    clock: u64,
    counter: u64,
) -> u64 {
    word_triple_digest(key_pair_digest(entropy_a, entropy_b), clock, counter)
}

/// The mixing hash with the engine's fixed entropy identifiers.
pub open spec fn spec_calc_hash(clock: u64, flip_counter: u64) -> u64 {
    entropy_digest(recent_blockhashes_id_bytes(), slot_hashes_id_bytes(), clock, flip_counter)
}

/// The binary outcome: the parity of the mixing hash.  `true` is the
/// canonical outcome that a heads (`true`) wager wins on.
pub open spec fn spec_resolve(
    entropy_a: Seq<u8>,
    entropy_b: Seq<u8>,
    clock: u64,
    counter: u64,
) -> bool {
    entropy_digest(entropy_a, entropy_b, clock, counter) % 2 == 1
}

/// The outcome the wager handlers resolve against: the parity of
/// [`spec_calc_hash`].
pub open spec fn spec_flip_outcome(clock: u64, flip_counter: u64) -> bool {
    spec_calc_hash(clock, flip_counter) % 2 == 1
}

/// The resolver's mixing hash over the engine's fixed entropy
/// identifiers, the clock and the counter.
pub fn calc_hash(clock: u64, flip_counter: u64) -> (r: u64)
    ensures
        r == spec_calc_hash(clock, flip_counter),
{
    let block_hash = recent_blockhashes_id();
    let slot_hash = slot_hashes_id();
    let hash0 = hash_key_pair(&block_hash, &slot_hash);
    hash_word_triple(hash0, clock, flip_counter)
}

/// Resolves one wager: a pure function of the entropy identifiers, the
/// wall-clock seconds and the counter, with no side effects and no
/// state read beyond its arguments.
pub fn resolve(
    entropy_a: &Pubkey,
    entropy_b: &Pubkey,
    clock_seconds: u64,
    counter: u64,
) -> (outcome: bool)
    ensures
        outcome == spec_resolve(entropy_a@, entropy_b@, clock_seconds, counter),
{
    let hash0 = hash_key_pair(entropy_a, entropy_b);
    let hash = hash_word_triple(hash0, clock_seconds, counter);
    hash % 2 == 1
}

/// Determinism of the resolver: identical inputs always yield the
/// identical outcome, because each outcome equals one spec-level
/// function of the inputs alone.
pub proof fn lemma_resolve_deterministic(
    entropy_a: Seq<u8>,
    entropy_b: Seq<u8>,
    clock_seconds: u64,
    counter: u64,
    outcome1: bool,
    outcome2: bool,
)
    requires
        outcome1 == spec_resolve(entropy_a, entropy_b, clock_seconds, counter),
        outcome2 == spec_resolve(entropy_a, entropy_b, clock_seconds, counter),
    ensures
        outcome1 == outcome2,
{
}

} // verus!

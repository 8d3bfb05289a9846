#![allow(deprecated)]

use std::collections::hash_map::DefaultHasher;
use std::hash::{Hash, Hasher};

use anchor_lang::solana_program::sysvar::{recent_blockhashes, slot_hashes};
use coin_flip::keys::Pubkey;
use coin_flip::resolver::{calc_hash, resolve};

#[test]
fn calc_hash_is_deterministic() {
    for &(clock, counter) in &[(0u64, 0u64), (1, 2), (1_700_000_000, 42), (u64::MAX, u64::MAX)] {
        assert_eq!(calc_hash(clock, counter), calc_hash(clock, counter));
    }
}

#[test]
fn resolve_is_deterministic() {
    let a = Pubkey { bytes: [1; 32] };
    let b = Pubkey { bytes: [2; 32] };
    for clock in 0u64..20 {
        assert_eq!(resolve(&a, &b, clock, 7), resolve(&a, &b, clock, 7));
    }
}

#[test]
fn calc_hash_matches_the_reference_mix() {
    for &(clock, counter) in &[(0u64, 1u64), (1_650_000_000, 3), (987_654_321, 100)] {
        let mut hasher = DefaultHasher::new();
        let block_hash = recent_blockhashes::id();
        let slot_hash = slot_hashes::id();
        [block_hash, slot_hash].hash(&mut hasher);
        let hash0 = hasher.finish();
        let mut hasher = DefaultHasher::new();
        [hash0, clock, counter].hash(&mut hasher);
        let expected = hasher.finish();

        assert_eq!(calc_hash(clock, counter), expected);
    }
}

#[test]
fn resolve_is_the_parity_of_the_mix() {
    let a = Pubkey { bytes: recent_blockhashes::id().to_bytes() };
    let b = Pubkey { bytes: slot_hashes::id().to_bytes() };
    for clock in 0u64..16 {
        let outcome = resolve(&a, &b, clock, 5);
        assert_eq!(outcome, calc_hash(clock, 5) % 2 == 1);
    }
}

#[test]
fn the_mix_actually_depends_on_its_inputs() {
    let mut changed = false;
    for counter in 1u64..40 {
        if calc_hash(12345, counter) != calc_hash(12345, 0) {
            changed = true;
        }
    }
    assert!(changed);

    let mut clock_changed = false;
    for clock in 1u64..40 {
        if calc_hash(clock, 7) != calc_hash(0, 7) {
            clock_changed = true;
        }
    }
    assert!(clock_changed);
}

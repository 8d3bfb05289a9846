//! Account addresses and the byte seeds that derived records are
//! addressed by.
//!
//! An address is 32 bytes.  A derived record (configuration, vault
//! authority, custody vault, pending wager) lives at an address computed
//! from an ordered list of byte seeds: a fixed label, the owning
//! identities, and for wagers a little-endian counter, followed by a
//! one-byte derivation parameter (the "bump").

use vstd::prelude::*;
use crate::errors::ErrorCode;

verus! {

/// A 32-byte account address or identity.
#[derive(Clone, Copy, Debug, PartialEq, Eq)]
pub struct Pubkey {
    pub bytes: [u8; 32],
}

impl View for Pubkey {
    type V = Seq<u8>;

    open spec fn view(&self) -> Seq<u8> {
        self.bytes@
    }
}

/// Byte-wise equality of two addresses.
pub fn keys_equal(a: &Pubkey, b: &Pubkey) -> (r: bool)
    ensures
        r == (a@ == b@),
{
    let mut i: usize = 0;
    while i < 32
        invariant
            0 <= i <= 32,
            forall|j: int| 0 <= j < i ==> a.bytes@[j] == b.bytes@[j],
        decreases 32 - i,
    {
        if a.bytes[i] != b.bytes[i] {
            assert(a@[i as int] != b@[i as int]);
            return false;
        }
        i += 1;
    }
    proof {
        assert(a.bytes@ =~= b.bytes@);
    }
    true
}

/// Fails with [`ErrorCode::PublicKeyMismatch`] unless the two addresses
/// coincide.
pub fn assert_keys_equal(key1: &Pubkey, key2: &Pubkey) -> (r: Result<(), ErrorCode>)
    ensures
        r is Ok <==> key1@ == key2@,
        r is Err ==> r == Err::<(), ErrorCode>(ErrorCode::PublicKeyMismatch),
{
    if keys_equal(key1, key2) {
        Ok(())
    } else {
        Err(ErrorCode::PublicKeyMismatch)
    }
}

/// The address bytes as a growable byte vector.
pub fn pubkey_to_vec(key: &Pubkey) -> (r: Vec<u8>)
    ensures
        r@ == key@,
{
    vstd::slice::slice_to_vec(vstd::array::array_as_slice(&key.bytes))
}

/// The label of configuration records: the ASCII bytes of "core-state".
pub open spec fn core_state_seed_bytes() -> Seq<u8> {
    seq![99u8, 111, 114, 101, 45, 115, 116, 97, 116, 101]
}

/// The label of the derived vault authority: the ASCII bytes of
/// "vault-auth".
pub open spec fn vault_auth_seed_bytes() -> Seq<u8> {
    seq![118u8, 97, 117, 108, 116, 45, 97, 117, 116, 104]
}

/// The label of custody vault records: the ASCII bytes of
/// "vault-token-account".
pub open spec fn vault_token_account_seed_bytes() -> Seq<u8> {
    seq![118u8, 97, 117, 108, 116, 45, 116, 111, 107, 101, 110, 45, 97, 99, 99, 111, 117, 110, 116]
}

/// The label of pending wager records: the ASCII bytes of "bet-state".
pub open spec fn bet_state_seed_bytes() -> Seq<u8> {
    seq![98u8, 101, 116, 45, 115, 116, 97, 116, 101]
}

/// The label of configuration records, as runnable bytes.
pub fn core_state_seed() -> (r: Vec<u8>)
    ensures
        r@ == core_state_seed_bytes(),
{
    let r: Vec<u8> = vec![99u8, 111, 114, 101, 45, 115, 116, 97, 116, 101];
    r
}

/// The label of the derived vault authority, as runnable bytes.
pub fn vault_auth_seed() -> (r: Vec<u8>)
    ensures
        r@ == vault_auth_seed_bytes(),
{
    let r: Vec<u8> = vec![118u8, 97, 117, 108, 116, 45, 97, 117, 116, 104];
    r
}

/// The label of custody vault records, as runnable bytes.
pub fn vault_token_account_seed() -> (r: Vec<u8>)
    ensures
        r@ == vault_token_account_seed_bytes(),
{
    let r: Vec<u8> = vec![
        118u8, 97, 117, 108, 116, 45, 116, 111, 107, 101, 110, 45, 97, 99, 99, 111, 117, 110,
        116,
    ];
    r
}

/// The label of pending wager records, as runnable bytes.
pub fn bet_state_seed() -> (r: Vec<u8>)
    ensures
        r@ == bet_state_seed_bytes(),
{
    let r: Vec<u8> = vec![98u8, 101, 116, 45, 115, 116, 97, 116, 101];
    r
}

/// The byte sequences a list of seed vectors stands for.
pub open spec fn seeds_view(seeds: Seq<Vec<u8>>) -> Seq<Seq<u8>> {
    seeds.map_values(|s: Vec<u8>| s@)
}

/// Appends the one-byte bump to an ordered list of seeds.
pub fn seeds_with_bump(parts: Vec<Vec<u8>>, bump: u8) -> (r: Vec<Vec<u8>>)
    ensures
        seeds_view(r@) == seeds_view(parts@).push(seq![bump]),
{
    let ghost parts0 = parts@;
    let mut r = parts;
    let mut b: Vec<u8> = Vec::new();
    b.push(bump);
    assert(b@ =~= seq![bump]);
    r.push(b);
    proof {
        assert(seeds_view(r@) =~= seeds_view(parts0).push(seq![bump]));
    }
    r
}

/// The ordered seeds of a labelled, owner-addressed record:
/// `[label, owner, [bump]]`.
pub open spec fn spec_pda_seeds(label: Seq<u8>, owner: Seq<u8>, bump: u8) -> Seq<Seq<u8>> {
    seq![label, owner, seq![bump]]
}

/// Builds the ordered seed list `[label, owner, [bump]]`.
pub fn pda_seeds(label: Vec<u8>, owner: &Pubkey, bump: u8) -> (r: Vec<Vec<u8>>)
    ensures
        seeds_view(r@) == spec_pda_seeds(label@, owner@, bump),
{
    let ghost label0 = label@;
    let mut parts: Vec<Vec<u8>> = Vec::new();
    parts.push(label);
    parts.push(pubkey_to_vec(owner));
    let r = seeds_with_bump(parts, bump);
    proof {
        assert(seeds_view(r@) =~= spec_pda_seeds(label0, owner@, bump));
    }
    r
}

} // verus!

//! What holds of a forward round and the reverse round paired with it.

use vstd::prelude::*;
use crate::aespcbc::{lemma_decrypt_encrypt, lemma_encrypt_decrypt};
use crate::mixing::lemma_xor_cancel;
use crate::tester::{
    all_zero, encrypt_lanes, decrypt_lanes, forward_chaining, reverse_chaining,
};

verus! {

/// After any number of lanes, the reverse round over the encrypted lanes
/// holds the chaining value that the forward round held at the same place.
pub proof fn lemma_chaining_symmetry(key: u128, seed: u128, lanes: Seq<u128>, m: int)
    requires
        0 <= m <= lanes.len(),
    ensures
        reverse_chaining(key, seed, encrypt_lanes(key, seed, lanes).take(m)) == forward_chaining(
            key,
            seed,
            lanes.take(m),
        ),
    decreases m,
{
    let c = encrypt_lanes(key, seed, lanes);
    if m > 0 {
        lemma_chaining_symmetry(key, seed, lanes, m - 1);
        assert(c.take(m).drop_last() =~= c.take(m - 1));
        assert(lanes.take(m).drop_last() =~= lanes.take(m - 1));
        let chain = forward_chaining(key, seed, lanes.take(m - 1));
        lemma_decrypt_encrypt(key, chain, lanes[m - 1]);
        lemma_xor_cancel(c[m - 1], lanes[m - 1]);
    }
}

/// After any number of lanes, the forward round over the decrypted lanes
/// holds the chaining value that the reverse round held at the same place.
pub proof fn lemma_chaining_symmetry_back(key: u128, seed: u128, lanes: Seq<u128>, m: int)
    requires
        0 <= m <= lanes.len(),
    ensures
        forward_chaining(key, seed, decrypt_lanes(key, seed, lanes).take(m)) == reverse_chaining(
            key,
            seed,
            lanes.take(m),
        ),
    decreases m,
{
    let d = decrypt_lanes(key, seed, lanes);
    if m > 0 {
        lemma_chaining_symmetry_back(key, seed, lanes, m - 1);
        assert(d.take(m).drop_last() =~= d.take(m - 1));
        assert(lanes.take(m).drop_last() =~= lanes.take(m - 1));
        let chain = reverse_chaining(key, seed, lanes.take(m - 1));
        lemma_encrypt_decrypt(key, chain, lanes[m - 1]);
        lemma_xor_cancel(d[m - 1], lanes[m - 1]);
    }
}

/// A reverse round with the key and seed of a forward round restores every
/// lane, and ends on the chaining value on which the forward round ended.
pub proof fn lemma_round_trip(key: u128, seed: u128, lanes: Seq<u128>)
    ensures
        decrypt_lanes(key, seed, encrypt_lanes(key, seed, lanes)) == lanes,
        reverse_chaining(key, seed, encrypt_lanes(key, seed, lanes)) == forward_chaining(
            key,
            seed,
            lanes,
        ),
{
    let c = encrypt_lanes(key, seed, lanes);
    let d = decrypt_lanes(key, seed, c);
    assert forall|i: int| 0 <= i < lanes.len() implies d[i] == lanes[i] by {
        lemma_chaining_symmetry(key, seed, lanes, i);
        lemma_decrypt_encrypt(key, forward_chaining(key, seed, lanes.take(i)), lanes[i]);
    }
    assert(d =~= lanes);
    lemma_chaining_symmetry(key, seed, lanes, lanes.len() as int);
    assert(c.take(lanes.len() as int) =~= c);
    assert(lanes.take(lanes.len() as int) =~= lanes);
}

/// A forward round with the key and seed of a reverse round restores every
/// lane, and ends on the chaining value on which the reverse round ended.
pub proof fn lemma_round_trip_back(key: u128, seed: u128, lanes: Seq<u128>)
    ensures
        encrypt_lanes(key, seed, decrypt_lanes(key, seed, lanes)) == lanes,
        forward_chaining(key, seed, decrypt_lanes(key, seed, lanes)) == reverse_chaining(
            key,
            seed,
            lanes,
        ),
{
    let d = decrypt_lanes(key, seed, lanes);
    let c = encrypt_lanes(key, seed, d);
    assert forall|i: int| 0 <= i < lanes.len() implies c[i] == lanes[i] by {
        lemma_chaining_symmetry_back(key, seed, lanes, i);
        lemma_encrypt_decrypt(key, reverse_chaining(key, seed, lanes.take(i)), lanes[i]);
    }
    assert(c =~= lanes);
    lemma_chaining_symmetry_back(key, seed, lanes, lanes.len() as int);
    assert(d.take(lanes.len() as int) =~= d);
    assert(lanes.take(lanes.len() as int) =~= lanes);
}

/// A round trip over all-zero lanes ends on all-zero lanes: the verified
/// reverse round finds nothing.
pub proof fn lemma_zero_round_trip(key: u128, seed: u128, lanes: Seq<u128>)
    requires
        all_zero(lanes),
    ensures
        all_zero(decrypt_lanes(key, seed, encrypt_lanes(key, seed, lanes))),
{
    lemma_round_trip(key, seed, lanes);
}

/// Memory that differs in any lane from what the forward round over all-zero
/// lanes left does not decrypt to all-zero lanes: the verified reverse round
/// finds it.
pub proof fn lemma_corruption_found(key: u128, seed: u128, lanes: Seq<u128>, corrupted: Seq<u128>)
    requires
        all_zero(lanes),
        corrupted.len() == lanes.len(),
        corrupted != encrypt_lanes(key, seed, lanes),
    ensures
        !all_zero(decrypt_lanes(key, seed, corrupted)),
{
    let d = decrypt_lanes(key, seed, corrupted);
    if all_zero(d) {
        assert(d =~= lanes);
        lemma_round_trip_back(key, seed, corrupted);
    }
}

} // verus!

//! The block-mixing cipher engine: five rounds of AES with a chaining value
//! that is renewed after every lane as output XOR input.

use vstd::prelude::*;
use crate::mixing::{
    sub_bytes, inv_sub_bytes, shift_rows, inv_shift_rows, mix_columns, inv_mix_columns,
    forward_round, forward_last, reverse_round, reverse_last, next_key,
    lemma_sub_bytes_inverse, lemma_shift_rows_inverse, lemma_mix_columns_inverse,
    lemma_inv_mix_columns_linear, lemma_xor_cancel,
    mix_forward, mix_forward_last, mix_reverse, mix_reverse_last, derive_next_key,
    inv_mix_lane_columns,
};

verus! {

/// The `i`-th round key of the forward schedule derived from `key`.
pub open spec fn round_key(key: u128, i: int) -> u128 {
    let k1 = next_key(key, 1);
    let k2 = next_key(k1, 2);
    let k3 = next_key(k2, 4);
    let k4 = next_key(k3, 8);
    let k5 = next_key(k4, 16);
    if i <= 0 {
        key
    } else if i == 1 {
        k1
    } else if i == 2 {
        k2
    } else if i == 3 {
        k3
    } else if i == 4 {
        k4
    } else {
        k5
    }
}

/// The `i`-th round key of the reverse schedule: the interior keys of the
/// forward schedule pass through the inverse column mixing.
pub open spec fn reverse_key(key: u128, i: int) -> u128 {
    if 1 <= i <= 4 {
        inv_mix_columns(round_key(key, i))
    } else {
        round_key(key, i)
    }
}

/// The encryption of the lane `x` under `key` with the chaining value `chain`.
#[verifier::opaque]
pub open spec fn encrypt_lane(key: u128, chain: u128, x: u128) -> u128 {
    let s0 = (x ^ chain) ^ round_key(key, 0);
    let s1 = forward_round(s0, round_key(key, 1));
    let s2 = forward_round(s1, round_key(key, 2));
    let s3 = forward_round(s2, round_key(key, 3));
    let s4 = forward_round(s3, round_key(key, 4));
    forward_last(s4, round_key(key, 5))
}

/// The decryption of the lane `y` under `key` with the chaining value `chain`.
#[verifier::opaque]
pub open spec fn decrypt_lane(key: u128, chain: u128, y: u128) -> u128 {
    let t5 = y ^ reverse_key(key, 5);
    let t4 = reverse_round(t5, reverse_key(key, 4));
    let t3 = reverse_round(t4, reverse_key(key, 3));
    let t2 = reverse_round(t3, reverse_key(key, 2));
    let t1 = reverse_round(t2, reverse_key(key, 1));
    reverse_last(t1, reverse_key(key, 0)) ^ chain
}

/// The chaining value that follows a lane operation, in either direction.
pub open spec fn next_chaining(input: u128, output: u128) -> u128 {
    output ^ input
}

/// A reverse round with the unmixed key undoes a forward round, up to the
/// substitution and shift that the next reverse step removes.
pub proof fn lemma_reverse_undoes_forward(s: u128, k: u128)
    ensures
        reverse_round(shift_rows(sub_bytes(forward_round(s, k))), inv_mix_columns(k))
            == shift_rows(sub_bytes(s)),
{
    let f = forward_round(s, k);
    let m = mix_columns(shift_rows(sub_bytes(s)));
    lemma_shift_rows_inverse(sub_bytes(f));
    lemma_sub_bytes_inverse(f);
    lemma_inv_mix_columns_linear(m, k);
    lemma_xor_cancel(inv_mix_columns(m), inv_mix_columns(k));
    lemma_mix_columns_inverse(shift_rows(sub_bytes(s)));
}

/// A forward round undoes a reverse round with the unmixed key, up to the
/// unshift and unsubstitution that the next forward step removes.
pub proof fn lemma_forward_undoes_reverse(t: u128, k: u128)
    ensures
        forward_round(inv_sub_bytes(inv_shift_rows(reverse_round(t, inv_mix_columns(k)))), k)
            == inv_sub_bytes(inv_shift_rows(t)),
{
    let a = inv_sub_bytes(inv_shift_rows(t));
    let r = reverse_round(t, inv_mix_columns(k));
    lemma_sub_bytes_inverse(inv_shift_rows(r));
    lemma_shift_rows_inverse(r);
    lemma_inv_mix_columns_linear(a, k);
    lemma_mix_columns_inverse(a ^ k);
    lemma_xor_cancel(a, k);
}

/// Decryption inverts encryption under the same key and chaining value.
pub proof fn lemma_decrypt_encrypt(key: u128, chain: u128, x: u128)
    ensures
        decrypt_lane(key, chain, encrypt_lane(key, chain, x)) == x,
{
    reveal(encrypt_lane);
    reveal(decrypt_lane);
    let s0 = (x ^ chain) ^ round_key(key, 0);
    let s1 = forward_round(s0, round_key(key, 1));
    let s2 = forward_round(s1, round_key(key, 2));
    let s3 = forward_round(s2, round_key(key, 3));
    let s4 = forward_round(s3, round_key(key, 4));
    lemma_xor_cancel(shift_rows(sub_bytes(s4)), round_key(key, 5));
    lemma_reverse_undoes_forward(s3, round_key(key, 4));
    lemma_reverse_undoes_forward(s2, round_key(key, 3));
    lemma_reverse_undoes_forward(s1, round_key(key, 2));
    lemma_reverse_undoes_forward(s0, round_key(key, 1));
    lemma_shift_rows_inverse(sub_bytes(s0));
    lemma_sub_bytes_inverse(s0);
    lemma_xor_cancel(x ^ chain, round_key(key, 0));
    lemma_xor_cancel(x, chain);
}

/// Encryption inverts decryption under the same key and chaining value.
pub proof fn lemma_encrypt_decrypt(key: u128, chain: u128, y: u128)
    ensures
        encrypt_lane(key, chain, decrypt_lane(key, chain, y)) == y,
{
    reveal(encrypt_lane);
    reveal(decrypt_lane);
    let t5 = y ^ reverse_key(key, 5);
    let t4 = reverse_round(t5, reverse_key(key, 4));
    let t3 = reverse_round(t4, reverse_key(key, 3));
    let t2 = reverse_round(t3, reverse_key(key, 2));
    let t1 = reverse_round(t2, reverse_key(key, 1));
    let a = inv_sub_bytes(inv_shift_rows(t1));
    let x = (a ^ round_key(key, 0)) ^ chain;
    lemma_xor_cancel(a ^ round_key(key, 0), chain);
    lemma_xor_cancel(a, round_key(key, 0));
    lemma_forward_undoes_reverse(t2, round_key(key, 1));
    lemma_forward_undoes_reverse(t3, round_key(key, 2));
    lemma_forward_undoes_reverse(t4, round_key(key, 3));
    lemma_forward_undoes_reverse(t5, round_key(key, 4));
    lemma_sub_bytes_inverse(inv_shift_rows(t5));
    lemma_shift_rows_inverse(t5);
    lemma_xor_cancel(y, round_key(key, 5));
}

/// The cipher engine: both key schedules and the current chaining value.
#[derive(Clone, Copy)]
pub struct Aes128Pcbc {
    encrypt_keys: [u128; 6],
    decrypt_keys: [u128; 6],
    nonce: u128,
}

/// `enc` and `dec` are the forward and the reverse schedule derived from `key`.
pub open spec fn holds_schedules(enc: Seq<u128>, dec: Seq<u128>, key: u128) -> bool {
    &&& enc.len() == 6
    &&& dec.len() == 6
    &&& enc[0] == round_key(key, 0)
    &&& enc[1] == round_key(key, 1)
    &&& enc[2] == round_key(key, 2)
    &&& enc[3] == round_key(key, 3)
    &&& enc[4] == round_key(key, 4)
    &&& enc[5] == round_key(key, 5)
    &&& dec[0] == reverse_key(key, 0)
    &&& dec[1] == reverse_key(key, 1)
    &&& dec[2] == reverse_key(key, 2)
    &&& dec[3] == reverse_key(key, 3)
    &&& dec[4] == reverse_key(key, 4)
    &&& dec[5] == reverse_key(key, 5)
}

/// Derives the forward and the reverse key schedule from `key`.
fn expand(key: &u128) -> (r: ([u128; 6], [u128; 6]))
    ensures
        holds_schedules(r.0@, r.1@, *key),
{
    let k0: u128 = *key;
    let k1: u128 = derive_next_key(k0, 1);
    let k2: u128 = derive_next_key(k1, 2);
    let k3: u128 = derive_next_key(k2, 4);
    let k4: u128 = derive_next_key(k3, 8);
    let k5: u128 = derive_next_key(k4, 16);
    let enc_keys: [u128; 6] = [k0, k1, k2, k3, k4, k5];
    let dec_keys: [u128; 6] = [
        k0,
        inv_mix_lane_columns(k1),
        inv_mix_lane_columns(k2),
        inv_mix_lane_columns(k3),
        inv_mix_lane_columns(k4),
        k5,
    ];
    (enc_keys, dec_keys)
}

impl Aes128Pcbc {
    /// The key that the engine was made with.
    pub closed spec fn key(&self) -> u128 {
        self.encrypt_keys@[0]
    }

    /// The current chaining value.
    pub closed spec fn chaining(&self) -> u128 {
        self.nonce
    }

    /// Both schedules are the ones derived from the key.
    pub closed spec fn wf(&self) -> bool {
        holds_schedules(self.encrypt_keys@, self.decrypt_keys@, self.encrypt_keys@[0])
    }

    /// An engine for `key` whose chaining value starts at `nonce`.
    pub fn new(key: &u128, nonce: &u128) -> (r: Self)
        ensures
            r.wf(),
            r.key() == *key,
            r.chaining() == *nonce,
    {
        let (encrypt_keys, decrypt_keys) = expand(key);
        Self { encrypt_keys: encrypt_keys, decrypt_keys: decrypt_keys, nonce: *nonce }
    }

    /// Encrypts one lane and renews the chaining value.
    pub fn encrypt(&mut self, plaintext: u128) -> (r: u128)
        requires
            old(self).wf(),
        ensures
            final(self).wf(),
            final(self).key() == old(self).key(),
            r == encrypt_lane(old(self).key(), old(self).chaining(), plaintext),
            final(self).chaining() == next_chaining(plaintext, r),
    {
        proof {
            reveal(encrypt_lane);
        }
        let mut b: u128 = plaintext;
        b = b ^ self.nonce;
        b = b ^ self.encrypt_keys[0];
        b = mix_forward(b, self.encrypt_keys[1]);
        b = mix_forward(b, self.encrypt_keys[2]);
        b = mix_forward(b, self.encrypt_keys[3]);
        b = mix_forward(b, self.encrypt_keys[4]);
        b = mix_forward_last(b, self.encrypt_keys[5]);
        self.nonce = b ^ plaintext;
        b
    }

    /// Decrypts one lane and renews the chaining value.
    pub fn decrypt(&mut self, ciphertext: u128) -> (r: u128)
        requires
            old(self).wf(),
        ensures
            final(self).wf(),
            final(self).key() == old(self).key(),
            r == decrypt_lane(old(self).key(), old(self).chaining(), ciphertext),
            final(self).chaining() == next_chaining(ciphertext, r),
    {
        proof {
            reveal(decrypt_lane);
        }
        let mut b: u128 = ciphertext;
        b = b ^ self.decrypt_keys[5];
        b = mix_reverse(b, self.decrypt_keys[4]);
        b = mix_reverse(b, self.decrypt_keys[3]);
        b = mix_reverse(b, self.decrypt_keys[2]);
        b = mix_reverse(b, self.decrypt_keys[1]);
        b = mix_reverse_last(b, self.decrypt_keys[0]);
        b = b ^ self.nonce;
        self.nonce = b ^ ciphertext;
        b
    }

    /// The current chaining value.
    pub fn nonce(&self) -> (r: u128)
        ensures
            r == self.chaining(),
    {
        self.nonce
    }
}

} // verus!

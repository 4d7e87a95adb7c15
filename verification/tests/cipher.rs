use rsmemtest::aespcbc::Aes128Pcbc;
use rsmemtest::mixing::{
    derive_next_key, inv_mix_lane_columns, inv_shift_lane_rows, inv_substitute_bytes,
    mix_forward, mix_forward_last, mix_lane_columns, mix_reverse, mix_reverse_last,
    shift_lane_rows, substitute_bytes,
};
use rsmemtest::sbox::{inv_substitute, substitute};

fn lane(hex: &str) -> u128 {
    let mut bytes = [0u8; 16];
    for i in 0..16 {
        bytes[i] = u8::from_str_radix(&hex[2 * i..2 * i + 2], 16).unwrap();
    }
    u128::from_le_bytes(bytes)
}

const KEY: &str = "2b7e151628aed2a6abf7158809cf4f3c";

#[test]
fn substitution_known_values() {
    assert_eq!(substitute(0x00), 0x63);
    assert_eq!(substitute(0x01), 0x7c);
    assert_eq!(substitute(0x53), 0xed);
    assert_eq!(substitute(0xff), 0x16);
    assert_eq!(inv_substitute(0x63), 0x00);
    assert_eq!(inv_substitute(0xed), 0x53);
}

#[test]
fn substitution_is_a_permutation() {
    for b in 0..=255u8 {
        assert_eq!(inv_substitute(substitute(b)), b);
        assert_eq!(substitute(inv_substitute(b)), b);
    }
}

#[test]
fn key_schedule_matches_standard_vectors() {
    let k0 = lane(KEY);
    let k1 = derive_next_key(k0, 1);
    assert_eq!(k1, lane("a0fafe1788542cb123a339392a6c7605"));
    let k2 = derive_next_key(k1, 2);
    assert_eq!(k2, lane("f2c295f27a96b9435935807a7359f67f"));
    let k3 = derive_next_key(k2, 4);
    assert_eq!(k3, lane("3d80477d4716fe3e1e237e446d7a883b"));
    let k4 = derive_next_key(k3, 8);
    assert_eq!(k4, lane("ef44a541a8525b7fb671253bdb0bad00"));
    let k5 = derive_next_key(k4, 16);
    assert_eq!(k5, lane("d4d1c6f87c839d87caf2b8bc11f915bc"));
}

#[test]
fn round_steps_match_standard_vectors() {
    let start = lane("193de3bea0f4e22b9ac68d2ae9f84808");
    let substituted = substitute_bytes(start);
    assert_eq!(substituted, lane("d42711aee0bf98f1b8b45de51e415230"));
    let shifted = shift_lane_rows(substituted);
    assert_eq!(shifted, lane("d4bf5d30e0b452aeb84111f11e2798e5"));
    let mixed = mix_lane_columns(shifted);
    assert_eq!(mixed, lane("046681e5e0cb199a48f8d37a2806264c"));
    assert_eq!(inv_mix_lane_columns(mixed), shifted);
    assert_eq!(inv_shift_lane_rows(shifted), substituted);
    assert_eq!(inv_substitute_bytes(substituted), start);
}

#[test]
fn forward_rounds_match_standard_vectors() {
    let k0 = lane(KEY);
    let k1 = derive_next_key(k0, 1);
    let k2 = derive_next_key(k1, 2);
    let k3 = derive_next_key(k2, 4);
    let k4 = derive_next_key(k3, 8);
    let input = lane("3243f6a8885a308d313198a2e0370734");
    let s0 = input ^ k0;
    assert_eq!(s0, lane("193de3bea0f4e22b9ac68d2ae9f84808"));
    let s1 = mix_forward(s0, k1);
    assert_eq!(s1, lane("a49c7ff2689f352b6b5bea43026a5049"));
    let s2 = mix_forward(s1, k2);
    assert_eq!(s2, lane("aa8f5f0361dde3ef82d24ad26832469a"));
    let s3 = mix_forward(s2, k3);
    assert_eq!(s3, lane("486c4eee671d9d0d4de3b138d65f58e7"));
    let s4 = mix_forward(s3, k4);
    assert_eq!(s4, lane("e0927fe8c86363c0d9b1355085b8be01"));
}

#[test]
fn reverse_rounds_undo_forward_rounds() {
    let k = lane(KEY);
    let s = lane("00112233445566778899aabbccddeeff");
    let last = mix_forward_last(s, k);
    assert_ne!(last, s);
    assert_eq!(mix_reverse_last(last ^ k, 0), s);
    let full = mix_forward(s, k);
    let back = mix_reverse(shift_lane_rows(substitute_bytes(full)), inv_mix_lane_columns(k));
    assert_eq!(back, shift_lane_rows(substitute_bytes(s)));
}

#[test]
fn encrypt_follows_the_round_order() {
    let key = lane(KEY);
    let seed = lane("000102030405060708090a0b0c0d0e0f");
    let x = lane("3243f6a8885a308d313198a2e0370734");
    let k1 = derive_next_key(key, 1);
    let k2 = derive_next_key(k1, 2);
    let k3 = derive_next_key(k2, 4);
    let k4 = derive_next_key(k3, 8);
    let k5 = derive_next_key(k4, 16);
    let mut b = x ^ seed ^ key;
    b = mix_forward(b, k1);
    b = mix_forward(b, k2);
    b = mix_forward(b, k3);
    b = mix_forward(b, k4);
    b = mix_forward_last(b, k5);
    let mut cipher = Aes128Pcbc::new(&key, &seed);
    assert_eq!(cipher.nonce(), seed);
    let y = cipher.encrypt(x);
    assert_eq!(y, b);
    assert_eq!(cipher.nonce(), y ^ x);
}

#[test]
fn decrypt_inverts_encrypt() {
    let key = lane(KEY);
    let seed = lane("f0e0d0c0b0a090807060504030201000");
    let mut forward = Aes128Pcbc::new(&key, &seed);
    let mut reverse = Aes128Pcbc::new(&key, &seed);
    let mut x: u128 = 0x0123_4567_89ab_cdef_0fed_cba9_8765_4321;
    for _ in 0..200 {
        let y = forward.encrypt(x);
        assert_ne!(y, x);
        let back = reverse.decrypt(y);
        assert_eq!(back, x);
        assert_eq!(forward.nonce(), y ^ x);
        assert_eq!(reverse.nonce(), forward.nonce());
        x = x.wrapping_mul(0x9e37_79b9_7f4a_7c15_f39c_c060_5ced_c835).wrapping_add(y);
    }
}

#[test]
fn encrypt_inverts_decrypt() {
    let key: u128 = 7;
    let seed: u128 = u128::MAX;
    let mut reverse = Aes128Pcbc::new(&key, &seed);
    let mut forward = Aes128Pcbc::new(&key, &seed);
    for y in [0u128, 1, u128::MAX, 1 << 127, 0xdead_beef] {
        let x = reverse.decrypt(y);
        assert_eq!(forward.encrypt(x), y);
        assert_eq!(forward.nonce(), reverse.nonce());
    }
}

#[test]
fn chaining_changes_the_ciphertext() {
    let key = lane(KEY);
    let mut cipher = Aes128Pcbc::new(&key, &0);
    let first = cipher.encrypt(0);
    let second = cipher.encrypt(0);
    assert_ne!(first, second);
    assert_eq!(cipher.nonce(), second);
}

//! The mixing steps on a 128-bit lane: byte substitution, row shifting and
//! column mixing, each with its inverse, and the rounds built from them.
//!
//! A lane holds sixteen bytes, byte `i` in bits `8 * i` to `8 * i + 7`; four
//! consecutive bytes are one column.

use vstd::prelude::*;
use crate::sbox::{sbox, inv_sbox, substitute, inv_substitute, lemma_sbox_inverse};

verus! {

/// The byte of `s` that starts at bit `shift`.
pub open spec fn lane_byte(s: u128, shift: u128) -> u8 {
    ((s >> shift) & 0xff) as u8
}

/// The lane made of sixteen bytes, lowest first.
pub open spec fn pack16(b0: u8, b1: u8, b2: u8, b3: u8, b4: u8, b5: u8, b6: u8, b7: u8, b8: u8, b9: u8, b10: u8, b11: u8, b12: u8, b13: u8, b14: u8, b15: u8) -> u128 {
    (b0 as u128)
        | ((b1 as u128) << 8)
        | ((b2 as u128) << 16)
        | ((b3 as u128) << 24)
        | ((b4 as u128) << 32)
        | ((b5 as u128) << 40)
        | ((b6 as u128) << 48)
        | ((b7 as u128) << 56)
        | ((b8 as u128) << 64)
        | ((b9 as u128) << 72)
        | ((b10 as u128) << 80)
        | ((b11 as u128) << 88)
        | ((b12 as u128) << 96)
        | ((b13 as u128) << 104)
        | ((b14 as u128) << 112)
        | ((b15 as u128) << 120)
}

/// Byte substitution on all sixteen bytes.
pub open spec fn sub_bytes(s: u128) -> u128 {
    pack16(
        sbox(lane_byte(s, 0)),
        sbox(lane_byte(s, 8)),
        sbox(lane_byte(s, 16)),
        sbox(lane_byte(s, 24)),
        sbox(lane_byte(s, 32)),
        sbox(lane_byte(s, 40)),
        sbox(lane_byte(s, 48)),
        sbox(lane_byte(s, 56)),
        sbox(lane_byte(s, 64)),
        sbox(lane_byte(s, 72)),
        sbox(lane_byte(s, 80)),
        sbox(lane_byte(s, 88)),
        sbox(lane_byte(s, 96)),
        sbox(lane_byte(s, 104)),
        sbox(lane_byte(s, 112)),
        sbox(lane_byte(s, 120)),
    )
}

/// Reverse byte substitution on all sixteen bytes.
pub open spec fn inv_sub_bytes(s: u128) -> u128 {
    pack16(
        inv_sbox(lane_byte(s, 0)),
        inv_sbox(lane_byte(s, 8)),
        inv_sbox(lane_byte(s, 16)),
        inv_sbox(lane_byte(s, 24)),
        inv_sbox(lane_byte(s, 32)),
        inv_sbox(lane_byte(s, 40)),
        inv_sbox(lane_byte(s, 48)),
        inv_sbox(lane_byte(s, 56)),
        inv_sbox(lane_byte(s, 64)),
        inv_sbox(lane_byte(s, 72)),
        inv_sbox(lane_byte(s, 80)),
        inv_sbox(lane_byte(s, 88)),
        inv_sbox(lane_byte(s, 96)),
        inv_sbox(lane_byte(s, 104)),
        inv_sbox(lane_byte(s, 112)),
        inv_sbox(lane_byte(s, 120)),
    )
}

/// Row `r` of the state moves by `r` columns.
pub open spec fn shift_rows(s: u128) -> u128 {
    pack16(
        lane_byte(s, 0),
        lane_byte(s, 40),
        lane_byte(s, 80),
        lane_byte(s, 120),
        lane_byte(s, 32),
        lane_byte(s, 72),
        lane_byte(s, 112),
        lane_byte(s, 24),
        lane_byte(s, 64),
        lane_byte(s, 104),
        lane_byte(s, 16),
        lane_byte(s, 56),
        lane_byte(s, 96),
        lane_byte(s, 8),
        lane_byte(s, 48),
        lane_byte(s, 88),
    )
}

/// The inverse of `shift_rows`.
pub open spec fn inv_shift_rows(s: u128) -> u128 {
    pack16(
        lane_byte(s, 0),
        lane_byte(s, 104),
        lane_byte(s, 80),
        lane_byte(s, 56),
        lane_byte(s, 32),
        lane_byte(s, 8),
        lane_byte(s, 112),
        lane_byte(s, 88),
        lane_byte(s, 64),
        lane_byte(s, 40),
        lane_byte(s, 16),
        lane_byte(s, 120),
        lane_byte(s, 96),
        lane_byte(s, 72),
        lane_byte(s, 48),
        lane_byte(s, 24),
    )
}

/// Every byte multiplied by `x` in GF(2^8), reduced by x^8 + x^4 + x^3 + x + 1.
pub open spec fn xtime_bytes(s: u128) -> u128 {
    let h = (s >> 7) & 0x01010101_01010101_01010101_01010101u128;
    ((s & 0x7f7f7f7f_7f7f7f7f_7f7f7f7f_7f7f7f7fu128) << 1) ^ h ^ (h << 1) ^ (h << 3) ^ (h << 4)
}

/// Every column rotated by one byte: byte `r` takes the value of byte `r + 1`.
pub open spec fn rotate_columns(s: u128) -> u128 {
    ((s >> 8) & 0x00ffffff_00ffffff_00ffffff_00ffffffu128)
        | ((s & 0x000000ff_000000ff_000000ff_000000ffu128) << 24)
}

/// Column mixing: every column multiplied by the matrix with rows (2 3 1 1).
pub open spec fn mix_columns(s: u128) -> u128 {
    let d = xtime_bytes(s);
    let r2 = rotate_columns(rotate_columns(s));
    d ^ rotate_columns(s ^ d) ^ r2 ^ rotate_columns(r2)
}

/// The inverse of `mix_columns`.
pub open spec fn inv_mix_columns(s: u128) -> u128 {
    let u = xtime_bytes(xtime_bytes(s ^ rotate_columns(rotate_columns(s))));
    mix_columns(s ^ u)
}

/// A full forward round: substitute, shift, mix, add the round key.
pub open spec fn forward_round(s: u128, k: u128) -> u128 {
    mix_columns(shift_rows(sub_bytes(s))) ^ k
}

/// The last forward round, which does not mix columns.
pub open spec fn forward_last(s: u128, k: u128) -> u128 {
    shift_rows(sub_bytes(s)) ^ k
}

/// A full reverse round: unshift, unsubstitute, unmix, add the round key.
pub open spec fn reverse_round(s: u128, k: u128) -> u128 {
    inv_mix_columns(inv_sub_bytes(inv_shift_rows(s))) ^ k
}

/// The last reverse round, which does not unmix columns.
pub open spec fn reverse_last(s: u128, k: u128) -> u128 {
    inv_sub_bytes(inv_shift_rows(s)) ^ k
}

/// The round key that follows `k`, for the round constant `rcon`.
pub open spec fn next_key(k: u128, rcon: u128) -> u128 {
    let w = sub_bytes(k) >> 96;
    let g = ((w >> 8) | ((w & 0xff) << 24)) ^ rcon;
    let g4 = g | (g << 32) | (g << 64) | (g << 96);
    k ^ (k << 32) ^ (k << 64) ^ (k << 96) ^ g4
}

/// Unpacking a packed lane gives the bytes back.
pub proof fn lemma_unpack_pack(b0: u8, b1: u8, b2: u8, b3: u8, b4: u8, b5: u8, b6: u8, b7: u8, b8: u8, b9: u8, b10: u8, b11: u8, b12: u8, b13: u8, b14: u8, b15: u8)
    ensures
        lane_byte(pack16(b0, b1, b2, b3, b4, b5, b6, b7, b8, b9, b10, b11, b12, b13, b14, b15), 0) == b0,
        lane_byte(pack16(b0, b1, b2, b3, b4, b5, b6, b7, b8, b9, b10, b11, b12, b13, b14, b15), 8) == b1,
        lane_byte(pack16(b0, b1, b2, b3, b4, b5, b6, b7, b8, b9, b10, b11, b12, b13, b14, b15), 16) == b2,
        lane_byte(pack16(b0, b1, b2, b3, b4, b5, b6, b7, b8, b9, b10, b11, b12, b13, b14, b15), 24) == b3,
        lane_byte(pack16(b0, b1, b2, b3, b4, b5, b6, b7, b8, b9, b10, b11, b12, b13, b14, b15), 32) == b4,
        lane_byte(pack16(b0, b1, b2, b3, b4, b5, b6, b7, b8, b9, b10, b11, b12, b13, b14, b15), 40) == b5,
        lane_byte(pack16(b0, b1, b2, b3, b4, b5, b6, b7, b8, b9, b10, b11, b12, b13, b14, b15), 48) == b6,
        lane_byte(pack16(b0, b1, b2, b3, b4, b5, b6, b7, b8, b9, b10, b11, b12, b13, b14, b15), 56) == b7,
        lane_byte(pack16(b0, b1, b2, b3, b4, b5, b6, b7, b8, b9, b10, b11, b12, b13, b14, b15), 64) == b8,
        lane_byte(pack16(b0, b1, b2, b3, b4, b5, b6, b7, b8, b9, b10, b11, b12, b13, b14, b15), 72) == b9,
        lane_byte(pack16(b0, b1, b2, b3, b4, b5, b6, b7, b8, b9, b10, b11, b12, b13, b14, b15), 80) == b10,
        lane_byte(pack16(b0, b1, b2, b3, b4, b5, b6, b7, b8, b9, b10, b11, b12, b13, b14, b15), 88) == b11,
        lane_byte(pack16(b0, b1, b2, b3, b4, b5, b6, b7, b8, b9, b10, b11, b12, b13, b14, b15), 96) == b12,
        lane_byte(pack16(b0, b1, b2, b3, b4, b5, b6, b7, b8, b9, b10, b11, b12, b13, b14, b15), 104) == b13,
        lane_byte(pack16(b0, b1, b2, b3, b4, b5, b6, b7, b8, b9, b10, b11, b12, b13, b14, b15), 112) == b14,
        lane_byte(pack16(b0, b1, b2, b3, b4, b5, b6, b7, b8, b9, b10, b11, b12, b13, b14, b15), 120) == b15,
{
    let p = pack16(b0, b1, b2, b3, b4, b5, b6, b7, b8, b9, b10, b11, b12, b13, b14, b15);
    assert(lane_byte(p, 0) == b0 && lane_byte(p, 8) == b1 && lane_byte(p, 16) == b2 && lane_byte(p, 24) == b3 && lane_byte(p, 32) == b4 && lane_byte(p, 40) == b5 && lane_byte(p, 48) == b6 && lane_byte(p, 56) == b7 && lane_byte(p, 64) == b8 && lane_byte(p, 72) == b9 && lane_byte(p, 80) == b10 && lane_byte(p, 88) == b11 && lane_byte(p, 96) == b12 && lane_byte(p, 104) == b13 && lane_byte(p, 112) == b14 && lane_byte(p, 120) == b15) by (bit_vector)
        requires
            p == pack16(b0, b1, b2, b3, b4, b5, b6, b7, b8, b9, b10, b11, b12, b13, b14, b15),
    ;
}

/// Packing the bytes of a lane gives the lane back.
pub proof fn lemma_pack_unpack(s: u128)
    ensures
        s == pack16(lane_byte(s, 0), lane_byte(s, 8), lane_byte(s, 16), lane_byte(s, 24), lane_byte(s, 32), lane_byte(s, 40), lane_byte(s, 48), lane_byte(s, 56), lane_byte(s, 64), lane_byte(s, 72), lane_byte(s, 80), lane_byte(s, 88), lane_byte(s, 96), lane_byte(s, 104), lane_byte(s, 112), lane_byte(s, 120)),
{
    assert(s == pack16(lane_byte(s, 0), lane_byte(s, 8), lane_byte(s, 16), lane_byte(s, 24), lane_byte(s, 32), lane_byte(s, 40), lane_byte(s, 48), lane_byte(s, 56), lane_byte(s, 64), lane_byte(s, 72), lane_byte(s, 80), lane_byte(s, 88), lane_byte(s, 96), lane_byte(s, 104), lane_byte(s, 112), lane_byte(s, 120))) by (bit_vector);
}

/// The two substitutions of a lane undo each other.
pub proof fn lemma_sub_bytes_inverse(s: u128)
    ensures
        inv_sub_bytes(sub_bytes(s)) == s,
        sub_bytes(inv_sub_bytes(s)) == s,
{
    lemma_pack_unpack(s);
    lemma_unpack_pack(sbox(lane_byte(s, 0)), sbox(lane_byte(s, 8)), sbox(lane_byte(s, 16)), sbox(lane_byte(s, 24)), sbox(lane_byte(s, 32)), sbox(lane_byte(s, 40)), sbox(lane_byte(s, 48)), sbox(lane_byte(s, 56)), sbox(lane_byte(s, 64)), sbox(lane_byte(s, 72)), sbox(lane_byte(s, 80)), sbox(lane_byte(s, 88)), sbox(lane_byte(s, 96)), sbox(lane_byte(s, 104)), sbox(lane_byte(s, 112)), sbox(lane_byte(s, 120)));
    lemma_unpack_pack(inv_sbox(lane_byte(s, 0)), inv_sbox(lane_byte(s, 8)), inv_sbox(lane_byte(s, 16)), inv_sbox(lane_byte(s, 24)), inv_sbox(lane_byte(s, 32)), inv_sbox(lane_byte(s, 40)), inv_sbox(lane_byte(s, 48)), inv_sbox(lane_byte(s, 56)), inv_sbox(lane_byte(s, 64)), inv_sbox(lane_byte(s, 72)), inv_sbox(lane_byte(s, 80)), inv_sbox(lane_byte(s, 88)), inv_sbox(lane_byte(s, 96)), inv_sbox(lane_byte(s, 104)), inv_sbox(lane_byte(s, 112)), inv_sbox(lane_byte(s, 120)));
    lemma_sbox_inverse(lane_byte(s, 0));
    lemma_sbox_inverse(lane_byte(s, 8));
    lemma_sbox_inverse(lane_byte(s, 16));
    lemma_sbox_inverse(lane_byte(s, 24));
    lemma_sbox_inverse(lane_byte(s, 32));
    lemma_sbox_inverse(lane_byte(s, 40));
    lemma_sbox_inverse(lane_byte(s, 48));
    lemma_sbox_inverse(lane_byte(s, 56));
    lemma_sbox_inverse(lane_byte(s, 64));
    lemma_sbox_inverse(lane_byte(s, 72));
    lemma_sbox_inverse(lane_byte(s, 80));
    lemma_sbox_inverse(lane_byte(s, 88));
    lemma_sbox_inverse(lane_byte(s, 96));
    lemma_sbox_inverse(lane_byte(s, 104));
    lemma_sbox_inverse(lane_byte(s, 112));
    lemma_sbox_inverse(lane_byte(s, 120));
}

/// The two row shifts undo each other.
pub proof fn lemma_shift_rows_inverse(s: u128)
    ensures
        inv_shift_rows(shift_rows(s)) == s,
        shift_rows(inv_shift_rows(s)) == s,
{
    assert(inv_shift_rows(shift_rows(s)) == s) by (bit_vector);
    assert(shift_rows(inv_shift_rows(s)) == s) by (bit_vector);
}

/// The two column mixings undo each other.
pub proof fn lemma_mix_columns_inverse(s: u128)
    ensures
        inv_mix_columns(mix_columns(s)) == s,
        mix_columns(inv_mix_columns(s)) == s,
{
    assert(inv_mix_columns(mix_columns(s)) == s) by (bit_vector);
    assert(mix_columns(inv_mix_columns(s)) == s) by (bit_vector);
}

/// Column unmixing distributes over the addition of lanes.
pub proof fn lemma_inv_mix_columns_linear(a: u128, b: u128)
    ensures
        inv_mix_columns(a ^ b) == inv_mix_columns(a) ^ inv_mix_columns(b),
{
    assert(inv_mix_columns(a ^ b) == inv_mix_columns(a) ^ inv_mix_columns(b)) by (bit_vector);
}

/// Adding a lane twice adds nothing.
pub proof fn lemma_xor_cancel(a: u128, b: u128)
    ensures
        (a ^ b) ^ b == a,
        a ^ a == 0,
        a ^ 0 == a,
        a ^ b == b ^ a,
{
    assert((a ^ b) ^ b == a) by (bit_vector);
    assert(a ^ a == 0) by (bit_vector);
    assert(a ^ 0 == a) by (bit_vector);
    assert(a ^ b == b ^ a) by (bit_vector);
}

/// Reads the byte of `s` that starts at bit `shift`.
pub fn byte_at(s: u128, shift: u128) -> (r: u8)
    requires
        shift < 128,
    ensures
        r == lane_byte(s, shift),
{
    let low: u128 = (s >> shift) & 0xff;
    assert(low < 256) by (bit_vector)
        requires
            low == (s >> shift) & 0xff,
    ;
    low as u8
}

/// Packs sixteen bytes into a lane, lowest first.
pub fn pack(b0: u8, b1: u8, b2: u8, b3: u8, b4: u8, b5: u8, b6: u8, b7: u8, b8: u8, b9: u8, b10: u8, b11: u8, b12: u8, b13: u8, b14: u8, b15: u8) -> (r: u128)
    ensures
        r == pack16(b0, b1, b2, b3, b4, b5, b6, b7, b8, b9, b10, b11, b12, b13, b14, b15),
{
    (b0 as u128)
        | ((b1 as u128) << 8)
        | ((b2 as u128) << 16)
        | ((b3 as u128) << 24)
        | ((b4 as u128) << 32)
        | ((b5 as u128) << 40)
        | ((b6 as u128) << 48)
        | ((b7 as u128) << 56)
        | ((b8 as u128) << 64)
        | ((b9 as u128) << 72)
        | ((b10 as u128) << 80)
        | ((b11 as u128) << 88)
        | ((b12 as u128) << 96)
        | ((b13 as u128) << 104)
        | ((b14 as u128) << 112)
        | ((b15 as u128) << 120)
}

/// Computes `sub_bytes`.
pub fn substitute_bytes(s: u128) -> (r: u128)
    ensures
        r == sub_bytes(s),
{
    let c0: u8 = substitute(byte_at(s, 0));
    let c1: u8 = substitute(byte_at(s, 8));
    let c2: u8 = substitute(byte_at(s, 16));
    let c3: u8 = substitute(byte_at(s, 24));
    let c4: u8 = substitute(byte_at(s, 32));
    let c5: u8 = substitute(byte_at(s, 40));
    let c6: u8 = substitute(byte_at(s, 48));
    let c7: u8 = substitute(byte_at(s, 56));
    let c8: u8 = substitute(byte_at(s, 64));
    let c9: u8 = substitute(byte_at(s, 72));
    let c10: u8 = substitute(byte_at(s, 80));
    let c11: u8 = substitute(byte_at(s, 88));
    let c12: u8 = substitute(byte_at(s, 96));
    let c13: u8 = substitute(byte_at(s, 104));
    let c14: u8 = substitute(byte_at(s, 112));
    let c15: u8 = substitute(byte_at(s, 120));
    pack(c0, c1, c2, c3, c4, c5, c6, c7, c8, c9, c10, c11, c12, c13, c14, c15)
}

/// Computes `inv_sub_bytes`.
pub fn inv_substitute_bytes(s: u128) -> (r: u128)
    ensures
        r == inv_sub_bytes(s),
{
    let c0: u8 = inv_substitute(byte_at(s, 0));
    let c1: u8 = inv_substitute(byte_at(s, 8));
    let c2: u8 = inv_substitute(byte_at(s, 16));
    let c3: u8 = inv_substitute(byte_at(s, 24));
    let c4: u8 = inv_substitute(byte_at(s, 32));
    let c5: u8 = inv_substitute(byte_at(s, 40));
    let c6: u8 = inv_substitute(byte_at(s, 48));
    let c7: u8 = inv_substitute(byte_at(s, 56));
    let c8: u8 = inv_substitute(byte_at(s, 64));
    let c9: u8 = inv_substitute(byte_at(s, 72));
    let c10: u8 = inv_substitute(byte_at(s, 80));
    let c11: u8 = inv_substitute(byte_at(s, 88));
    let c12: u8 = inv_substitute(byte_at(s, 96));
    let c13: u8 = inv_substitute(byte_at(s, 104));
    let c14: u8 = inv_substitute(byte_at(s, 112));
    let c15: u8 = inv_substitute(byte_at(s, 120));
    pack(c0, c1, c2, c3, c4, c5, c6, c7, c8, c9, c10, c11, c12, c13, c14, c15)
}

/// Computes `shift_rows`.
pub fn shift_lane_rows(s: u128) -> (r: u128)
    ensures
        r == shift_rows(s),
{
    let c0: u8 = byte_at(s, 0);
    let c1: u8 = byte_at(s, 40);
    let c2: u8 = byte_at(s, 80);
    let c3: u8 = byte_at(s, 120);
    let c4: u8 = byte_at(s, 32);
    let c5: u8 = byte_at(s, 72);
    let c6: u8 = byte_at(s, 112);
    let c7: u8 = byte_at(s, 24);
    let c8: u8 = byte_at(s, 64);
    let c9: u8 = byte_at(s, 104);
    let c10: u8 = byte_at(s, 16);
    let c11: u8 = byte_at(s, 56);
    let c12: u8 = byte_at(s, 96);
    let c13: u8 = byte_at(s, 8);
    let c14: u8 = byte_at(s, 48);
    let c15: u8 = byte_at(s, 88);
    pack(c0, c1, c2, c3, c4, c5, c6, c7, c8, c9, c10, c11, c12, c13, c14, c15)
}

/// Computes `inv_shift_rows`.
pub fn inv_shift_lane_rows(s: u128) -> (r: u128)
    ensures
        r == inv_shift_rows(s),
{
    let c0: u8 = byte_at(s, 0);
    let c1: u8 = byte_at(s, 104);
    let c2: u8 = byte_at(s, 80);
    let c3: u8 = byte_at(s, 56);
    let c4: u8 = byte_at(s, 32);
    let c5: u8 = byte_at(s, 8);
    let c6: u8 = byte_at(s, 112);
    let c7: u8 = byte_at(s, 88);
    let c8: u8 = byte_at(s, 64);
    let c9: u8 = byte_at(s, 40);
    let c10: u8 = byte_at(s, 16);
    let c11: u8 = byte_at(s, 120);
    let c12: u8 = byte_at(s, 96);
    let c13: u8 = byte_at(s, 72);
    let c14: u8 = byte_at(s, 48);
    let c15: u8 = byte_at(s, 24);
    pack(c0, c1, c2, c3, c4, c5, c6, c7, c8, c9, c10, c11, c12, c13, c14, c15)
}

fn times_x(s: u128) -> (r: u128)
    ensures
        r == xtime_bytes(s),
{
    let h: u128 = (s >> 7) & 0x01010101_01010101_01010101_01010101u128;
    ((s & 0x7f7f7f7f_7f7f7f7f_7f7f7f7f_7f7f7f7fu128) << 1) ^ h ^ (h << 1) ^ (h << 3) ^ (h << 4)
}

fn rotate(s: u128) -> (r: u128)
    ensures
        r == rotate_columns(s),
{
    ((s >> 8) & 0x00ffffff_00ffffff_00ffffff_00ffffffu128)
        | ((s & 0x000000ff_000000ff_000000ff_000000ffu128) << 24)
}

/// Computes `mix_columns`.
pub fn mix_lane_columns(s: u128) -> (r: u128)
    ensures
        r == mix_columns(s),
{
    let d: u128 = times_x(s);
    let r2: u128 = rotate(rotate(s));
    d ^ rotate(s ^ d) ^ r2 ^ rotate(r2)
}

/// Computes `inv_mix_columns`.
pub fn inv_mix_lane_columns(s: u128) -> (r: u128)
    ensures
        r == inv_mix_columns(s),
{
    let u: u128 = times_x(times_x(s ^ rotate(rotate(s))));
    mix_lane_columns(s ^ u)
}

/// One full forward round on a lane.
pub fn mix_forward(s: u128, k: u128) -> (r: u128)
    ensures
        r == forward_round(s, k),
{
    mix_lane_columns(shift_lane_rows(substitute_bytes(s))) ^ k
}

/// The last forward round on a lane.
pub fn mix_forward_last(s: u128, k: u128) -> (r: u128)
    ensures
        r == forward_last(s, k),
{
    shift_lane_rows(substitute_bytes(s)) ^ k
}

/// One full reverse round on a lane.
pub fn mix_reverse(s: u128, k: u128) -> (r: u128)
    ensures
        r == reverse_round(s, k),
{
    inv_mix_lane_columns(inv_substitute_bytes(inv_shift_lane_rows(s))) ^ k
}

/// The last reverse round on a lane.
pub fn mix_reverse_last(s: u128, k: u128) -> (r: u128)
    ensures
        r == reverse_last(s, k),
{
    inv_substitute_bytes(inv_shift_lane_rows(s)) ^ k
}

/// Derives the round key that follows `k`.
pub fn derive_next_key(k: u128, rcon: u128) -> (r: u128)
    ensures
        r == next_key(k, rcon),
{
    let w: u128 = substitute_bytes(k) >> 96;
    let g: u128 = ((w >> 8) | ((w & 0xff) << 24)) ^ rcon;
    let g4: u128 = g | (g << 32) | (g << 64) | (g << 96);
    k ^ (k << 32) ^ (k << 64) ^ (k << 96) ^ g4
}

} // verus!

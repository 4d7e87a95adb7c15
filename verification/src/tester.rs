//! The round driver: one cipher round over a slice of test blocks, forwards
//! or backwards, with the cache eviction after every block.

use vstd::prelude::*;
use crate::aespcbc::{Aes128Pcbc, encrypt_lane, decrypt_lane};
use crate::fence::full_fence;

verus! {

/// The number of 128-bit lanes in a test block.
pub const LANES_PER_BLOCK: usize = 512;

/// The size of a test block in bytes.
pub const BLOCK_BYTES: usize = 8192;

/// The number of lanes in one cache line of 64 bytes.
pub const LANES_PER_CACHE_LINE: usize = 4;

/// The unit of memory under test.
pub struct TestBlock {
    pub lanes: [u128; 512],
}

/// What a worker reports.
#[derive(Clone, Copy, Debug, PartialEq, Eq)]
pub enum TesterMessage {
    CoveredBytes(usize),
    FoundError,
}

/// All lanes of a slice of blocks, in memory order.
#[verifier::opaque]
pub open spec fn lanes_of(blocks: Seq<TestBlock>) -> Seq<u128> {
    Seq::new((blocks.len() * 512) as nat, |i: int| blocks[i / 512].lanes@[i % 512])
}

/// Every lane is the all-zero pattern.
pub open spec fn all_zero(lanes: Seq<u128>) -> bool {
    forall|i: int| 0 <= i < lanes.len() ==> lanes[i] == 0
}

/// The chaining value after a forward round from `seed` over `lanes`.
pub open spec fn forward_chaining(key: u128, seed: u128, lanes: Seq<u128>) -> u128
    decreases lanes.len(),
{
    if lanes.len() == 0 {
        seed
    } else {
        let before = forward_chaining(key, seed, lanes.drop_last());
        encrypt_lane(key, before, lanes.last()) ^ lanes.last()
    }
}

/// What a forward round from `seed` leaves in place of `lanes`.
pub open spec fn encrypt_lanes(key: u128, seed: u128, lanes: Seq<u128>) -> Seq<u128> {
    Seq::new(
        lanes.len(),
        |i: int| encrypt_lane(key, forward_chaining(key, seed, lanes.take(i)), lanes[i]),
    )
}

/// The chaining value after a reverse round from `seed` over `lanes`.
pub open spec fn reverse_chaining(key: u128, seed: u128, lanes: Seq<u128>) -> u128
    decreases lanes.len(),
{
    if lanes.len() == 0 {
        seed
    } else {
        let before = reverse_chaining(key, seed, lanes.drop_last());
        decrypt_lane(key, before, lanes.last()) ^ lanes.last()
    }
}

/// What a complete reverse round from `seed` leaves in place of `lanes`.
pub open spec fn decrypt_lanes(key: u128, seed: u128, lanes: Seq<u128>) -> Seq<u128> {
    Seq::new(
        lanes.len(),
        |i: int| decrypt_lane(key, reverse_chaining(key, seed, lanes.take(i)), lanes[i]),
    )
}

/// A verified reverse round stopped at lane `n`: `n` is the first lane whose
/// decryption `dec[n]` is not zero, the lanes up to and including `n` hold
/// their decryption, and the lanes behind it are as they were.
pub open spec fn stopped_at(before: Seq<u128>, after: Seq<u128>, dec: Seq<u128>, n: int) -> bool {
    &&& 0 <= n < dec.len()
    &&& dec[n] != 0
    &&& forall|i: int| 0 <= i < n ==> dec[i] == 0
    &&& forall|i: int| 0 <= i <= n ==> after[i] == dec[i]
    &&& forall|i: int| n < i < before.len() ==> after[i] == before[i]
}

/// A slice of blocks holds 512 lanes for each block.
pub proof fn lemma_lanes_len(blocks: Seq<TestBlock>)
    ensures
        lanes_of(blocks).len() == 512 * blocks.len(),
{
    reveal(lanes_of);
}

/// Writing one lane of one block changes that lane of the flat view alone.
pub proof fn lemma_lane_update(prev: Seq<TestBlock>, cur: Seq<TestBlock>, b: int, j: int, y: u128)
    requires
        0 <= b < prev.len(),
        0 <= j < 512,
        cur.len() == prev.len(),
        forall|k: int| 0 <= k < prev.len() && k != b ==> cur[k] == prev[k],
        cur[b].lanes@ == prev[b].lanes@.update(j, y),
    ensures
        lanes_of(prev).len() == 512 * prev.len(),
        lanes_of(cur) == lanes_of(prev).update(512 * b + j, y),
        lanes_of(prev)[512 * b + j] == prev[b].lanes@[j],
{
    reveal(lanes_of);
    let p = 512 * b + j;
    assert(p / 512 == b && p % 512 == j);
    assert forall|i: int| 0 <= i < 512 * prev.len() implies lanes_of(cur)[i] == lanes_of(
        prev,
    ).update(p, y)[i] by {
        let bi = i / 512;
        let ji = i % 512;
        if i != p {
            if bi == b {
                assert(ji != j);
            }
        }
    }
    assert(lanes_of(cur) =~= lanes_of(prev).update(p, y));
}

/// Forces the blocks `start .. start + len` out of the cache, as far as
/// portable code can: a fence, a touch of every cache line, a fence. The
/// content of the blocks is left as it was.
pub fn flush_cache(blocks: &mut [TestBlock], start: usize, len: usize)
    requires
        start + len <= old(blocks)@.len(),
    ensures
        final(blocks)@ == old(blocks)@,
{
    full_fence();
    let n = blocks.len();
    let end: usize = start + len;
    let mut b: usize = start;
    while b < end
        invariant
            start <= b <= end,
            end <= blocks@.len(),
            blocks@ == old(blocks)@,
        decreases end - b,
    {
        let mut l: usize = 0;
        while l < LANES_PER_BLOCK
            invariant
                b < blocks@.len(),
                l <= 515,
                blocks@ == old(blocks)@,
            decreases 516 - l,
        {
            let _touched: u128 = blocks[b].lanes[l];
            l = l + LANES_PER_CACHE_LINE;
        }
        b = b + 1;
    }
    full_fence();
}

/// One forward round: every lane, in order, is replaced by its encryption
/// under `key`, the chaining value starting at `nonce`; the result is the
/// chaining value after the last lane.
pub fn test_encrypt_round(blocks: &mut [TestBlock], key: &u128, nonce: &u128) -> (r: u128)
    ensures
        final(blocks)@.len() == old(blocks)@.len(),
        lanes_of(final(blocks)@) == encrypt_lanes(*key, *nonce, lanes_of(old(blocks)@)),
        r == forward_chaining(*key, *nonce, lanes_of(old(blocks)@)),
{
    let ghost orig = lanes_of(blocks@);
    let ghost enc = encrypt_lanes(*key, *nonce, orig);
    let n = blocks.len();
    let mut cipher = Aes128Pcbc::new(key, nonce);
    let mut b: usize = 0;
    proof {
        lemma_lanes_len(blocks@);
        assert(orig.take(0) =~= Seq::<u128>::empty());
    }
    while b < n
        invariant
            b <= n,
            blocks@.len() == n,
            orig.len() == 512 * n,
            enc == encrypt_lanes(*key, *nonce, orig),
            cipher.wf(),
            cipher.key() == *key,
            cipher.chaining() == forward_chaining(*key, *nonce, orig.take(512 * b)),
            lanes_of(blocks@).len() == 512 * n,
            forall|i: int| 0 <= i < 512 * b ==> lanes_of(blocks@)[i] == enc[i],
            forall|i: int| 512 * b <= i < 512 * n ==> lanes_of(blocks@)[i] == orig[i],
        decreases n - b,
    {
        let mut j: usize = 0;
        while j < LANES_PER_BLOCK
            invariant
                b < n,
                j <= 512,
                blocks@.len() == n,
                orig.len() == 512 * n,
                enc == encrypt_lanes(*key, *nonce, orig),
                cipher.wf(),
                cipher.key() == *key,
                cipher.chaining() == forward_chaining(*key, *nonce, orig.take(512 * b + j)),
                lanes_of(blocks@).len() == 512 * n,
                forall|i: int| 0 <= i < 512 * b + j ==> lanes_of(blocks@)[i] == enc[i],
                forall|i: int| 512 * b + j <= i < 512 * n ==> lanes_of(blocks@)[i] == orig[i],
            decreases 512 - j,
        {
            let ghost p: int = 512 * b + j;
            let ghost prev = blocks@;
            let x: u128 = blocks[b].lanes[j];
            let y: u128 = cipher.encrypt(x);
            blocks[b].lanes[j] = y;
            proof {
                lemma_lane_update(prev, blocks@, b as int, j as int, y);
                assert(x == orig[p]);
                assert(orig.take(p + 1).drop_last() =~= orig.take(p));
                assert(orig.take(p + 1).last() == orig[p]);
                assert(enc[p] == y);
            }
            j = j + 1;
        }
        flush_cache(blocks, b, 1);
        b = b + 1;
    }
    proof {
        assert(orig.take(512 * n) =~= orig);
        assert(lanes_of(blocks@) =~= enc);
    }
    cipher.nonce()
}

/// One reverse round: every lane, in order, is replaced by its decryption
/// under `key`, the chaining value starting at `nonce`. With `check` set the
/// round stops at the first lane that does not decrypt to zero and returns
/// `false`; otherwise it runs to the end and returns `true`. Every block that
/// the round has written to is evicted, the one it stopped in too.
pub fn test_decrypt_round(blocks: &mut [TestBlock], key: &u128, nonce: &u128, check: bool) -> (ok:
    bool)
    ensures
        final(blocks)@.len() == old(blocks)@.len(),
        ok <==> (!check || all_zero(decrypt_lanes(*key, *nonce, lanes_of(old(blocks)@)))),
        ok ==> lanes_of(final(blocks)@) == decrypt_lanes(*key, *nonce, lanes_of(old(blocks)@)),
        !ok ==> exists|n: int|
            stopped_at(
                lanes_of(old(blocks)@),
                lanes_of(final(blocks)@),
                decrypt_lanes(*key, *nonce, lanes_of(old(blocks)@)),
                n,
            ),
{
    let ghost orig = lanes_of(blocks@);
    let ghost dec = decrypt_lanes(*key, *nonce, orig);
    let n = blocks.len();
    let mut cipher = Aes128Pcbc::new(key, nonce);
    let mut b: usize = 0;
    proof {
        lemma_lanes_len(blocks@);
        assert(orig.take(0) =~= Seq::<u128>::empty());
    }
    while b < n
        invariant
            b <= n,
            blocks@.len() == n,
            orig.len() == 512 * n,
            dec == decrypt_lanes(*key, *nonce, orig),
            orig == lanes_of(old(blocks)@),
            n == old(blocks)@.len(),
            cipher.wf(),
            cipher.key() == *key,
            cipher.chaining() == reverse_chaining(*key, *nonce, orig.take(512 * b)),
            lanes_of(blocks@).len() == 512 * n,
            forall|i: int| 0 <= i < 512 * b ==> lanes_of(blocks@)[i] == dec[i],
            forall|i: int| 512 * b <= i < 512 * n ==> lanes_of(blocks@)[i] == orig[i],
            check ==> forall|i: int| 0 <= i < 512 * b ==> dec[i] == 0,
        decreases n - b,
    {
        let mut j: usize = 0;
        while j < LANES_PER_BLOCK
            invariant
                b < n,
                j <= 512,
                blocks@.len() == n,
                orig.len() == 512 * n,
                dec == decrypt_lanes(*key, *nonce, orig),
            orig == lanes_of(old(blocks)@),
            n == old(blocks)@.len(),
                cipher.wf(),
                cipher.key() == *key,
                cipher.chaining() == reverse_chaining(*key, *nonce, orig.take(512 * b + j)),
                lanes_of(blocks@).len() == 512 * n,
                forall|i: int| 0 <= i < 512 * b + j ==> lanes_of(blocks@)[i] == dec[i],
                forall|i: int| 512 * b + j <= i < 512 * n ==> lanes_of(blocks@)[i] == orig[i],
                check ==> forall|i: int| 0 <= i < 512 * b + j ==> dec[i] == 0,
            decreases 512 - j,
        {
            let ghost p: int = 512 * b + j;
            let ghost prev = blocks@;
            let y: u128 = blocks[b].lanes[j];
            let x: u128 = cipher.decrypt(y);
            blocks[b].lanes[j] = x;
            proof {
                lemma_lane_update(prev, blocks@, b as int, j as int, x);
                assert(y == orig[p]);
                assert(orig.take(p + 1).drop_last() =~= orig.take(p));
                assert(orig.take(p + 1).last() == orig[p]);
                assert(dec[p] == x);
            }
            if check {
                if x != 0 {
                    flush_cache(blocks, b, 1);
                    proof {
                        assert(stopped_at(orig, lanes_of(blocks@), dec, p));
                    }
                    return false;
                }
            }
            j = j + 1;
        }
        flush_cache(blocks, b, 1);
        b = b + 1;
    }
    proof {
        assert(orig.take(512 * n) =~= orig);
        assert(lanes_of(blocks@) =~= dec);
    }
    true
}

} // verus!

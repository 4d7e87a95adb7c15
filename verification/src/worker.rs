//! One test cycle of a worker: a forward pass of encrypt rounds with fresh
//! keys, a reverse pass that undoes them in the opposite order, the last of
//! its rounds verified, and the messages that the cycle reports.

use vstd::prelude::*;
use crate::entropy::random_lane;
use crate::laws::{lemma_round_trip, lemma_round_trip_back};
use crate::tester::{
    TestBlock, TesterMessage, BLOCK_BYTES, all_zero, decrypt_lanes, encrypt_lanes, flush_cache,
    forward_chaining, lanes_of, stopped_at, test_decrypt_round,
    test_encrypt_round,
};

verus! {

/// The number of keys that a worker draws for one cycle.
pub const NUM_TEST_ITERS: usize = 4;

/// The lanes and the chaining value after the first `i` forward rounds.
pub open spec fn wound(keys: Seq<u128>, seed: u128, lanes: Seq<u128>, i: nat) -> (Seq<u128>, u128)
    decreases i,
{
    if i == 0 {
        (lanes, seed)
    } else {
        let before = wound(keys, seed, lanes, (i - 1) as nat);
        (
            encrypt_lanes(keys[i - 1], before.1, before.0),
            forward_chaining(keys[i - 1], before.1, before.0),
        )
    }
}

/// The lanes after complete reverse rounds for the keys from the last one
/// down to the `i`-th.
pub open spec fn unwound(keys: Seq<u128>, nonces: Seq<u128>, lanes: Seq<u128>, i: nat) -> Seq<u128>
    decreases keys.len() - i,
{
    if i >= keys.len() {
        lanes
    } else {
        decrypt_lanes(keys[i as int], nonces[i as int], unwound(keys, nonces, lanes, i + 1))
    }
}

/// `nonces` holds the seed and the chaining value after every forward round.
pub open spec fn records_pass(nonces: Seq<u128>, keys: Seq<u128>, seed: u128, lanes: Seq<u128>) -> bool {
    &&& nonces.len() == keys.len() + 1
    &&& forall|i: nat| i <= keys.len() ==> nonces[i as int] == #[trigger] wound(keys, seed, lanes, i).1
}

/// The bytes that one round of a cycle with `rounds` keys accounts for: half
/// of the partition, divided among the rounds of a pass.
pub open spec fn round_share(num_bytes: int, rounds: int) -> int {
    num_bytes / (rounds * 2)
}

/// `count` progress messages of `share` bytes each.
pub open spec fn progress_run(count: nat, share: usize) -> Seq<TesterMessage> {
    Seq::new(count, |i: int| TesterMessage::CoveredBytes(share))
}

/// The messages of one cycle with `rounds` keys, in the order of the rounds:
/// one progress message for every round, and before the last of them the
/// error message if the verified round failed.
pub open spec fn cycle_messages(rounds: int, share: usize, clean: bool) -> Seq<TesterMessage> {
    let progress = progress_run((2 * rounds - 1) as nat, share);
    if clean {
        progress.push(TesterMessage::CoveredBytes(share))
    } else {
        progress.push(TesterMessage::FoundError).push(TesterMessage::CoveredBytes(share))
    }
}

/// The sum of the covered bytes that a sequence of messages reports.
pub open spec fn covered_total(messages: Seq<TesterMessage>) -> int
    decreases messages.len(),
{
    if messages.len() == 0 {
        0
    } else {
        covered_total(messages.drop_last()) + match messages.last() {
            TesterMessage::CoveredBytes(n) => n as int,
            TesterMessage::FoundError => 0,
        }
    }
}

/// The number of error messages in a sequence of messages.
pub open spec fn error_count(messages: Seq<TesterMessage>) -> int
    decreases messages.len(),
{
    if messages.len() == 0 {
        0
    } else {
        error_count(messages.drop_last()) + match messages.last() {
            TesterMessage::CoveredBytes(_) => 0int,
            TesterMessage::FoundError => 1int,
        }
    }
}

/// Progress messages alone report their number times the share, and no error.
pub proof fn lemma_progress_total(count: nat, share: usize)
    ensures
        covered_total(progress_run(count, share)) == count * share,
        error_count(progress_run(count, share)) == 0,
    decreases count,
{
    let s = progress_run(count, share);
    if count > 0 {
        lemma_progress_total((count - 1) as nat, share);
        assert(s.drop_last() =~= progress_run((count - 1) as nat, share));
        assert(count * share == (count - 1) * share + share) by (nonlinear_arith);
    }
}

/// Over one cycle the covered bytes add up to the size of the partition,
/// whatever the number of rounds that divides it evenly and whether or not
/// an error was found; and the cycle reports an error exactly once if the
/// verified round failed, and never otherwise.
pub proof fn lemma_coverage_accounting(num_bytes: usize, rounds: usize, clean: bool)
    requires
        rounds >= 1,
        rounds * 2 <= usize::MAX,
        num_bytes as int % (rounds as int * 2) == 0,
    ensures
        covered_total(cycle_messages(rounds as int, round_share(num_bytes as int, rounds as int) as usize, clean))
            == num_bytes,
        error_count(cycle_messages(rounds as int, round_share(num_bytes as int, rounds as int) as usize, clean))
            == if clean { 0int } else { 1int },
{
    let d: int = rounds * 2;
    let q: int = num_bytes as int / d;
    assert(0 <= q <= num_bytes && q * d == num_bytes) by (nonlinear_arith)
        requires
            d >= 2,
            q == num_bytes as int / d,
            num_bytes as int % d == 0,
            num_bytes >= 0,
    ;
    let share = q as usize;
    let progress = progress_run((2 * rounds - 1) as nat, share);
    lemma_progress_total((2 * rounds - 1) as nat, share);
    assert((2 * rounds - 1) * q + q == q * d) by (nonlinear_arith)
        requires
            d == rounds * 2,
    ;
    if clean {
        assert(progress.push(TesterMessage::CoveredBytes(share)).drop_last() =~= progress);
    } else {
        let with_error = progress.push(TesterMessage::FoundError);
        assert(with_error.push(TesterMessage::CoveredBytes(share)).drop_last() =~= with_error);
        assert(with_error.drop_last() =~= progress);
        assert(covered_total(with_error) == covered_total(progress));
        assert(error_count(with_error) == error_count(progress) + 1);
    }
}

/// Every pass state has as many lanes as the partition.
pub proof fn lemma_wound_len(keys: Seq<u128>, seed: u128, lanes: Seq<u128>, i: nat)
    ensures
        wound(keys, seed, lanes, i).0.len() == lanes.len(),
    decreases i,
{
    if i > 0 {
        lemma_wound_len(keys, seed, lanes, (i - 1) as nat);
    }
}

/// Every state of the reverse pass has as many lanes as the partition.
pub proof fn lemma_unwound_len(keys: Seq<u128>, nonces: Seq<u128>, lanes: Seq<u128>, i: nat)
    ensures
        unwound(keys, nonces, lanes, i).len() == lanes.len(),
    decreases keys.len() - i,
{
    if i < keys.len() {
        lemma_unwound_len(keys, nonces, lanes, i + 1);
    }
}

/// The reverse pass over what the forward pass left walks back through the
/// states of the forward pass.
pub proof fn lemma_unwinds(keys: Seq<u128>, nonces: Seq<u128>, seed: u128, lanes: Seq<u128>, i: nat)
    requires
        records_pass(nonces, keys, seed, lanes),
        i <= keys.len(),
    ensures
        unwound(keys, nonces, wound(keys, seed, lanes, keys.len()).0, i) == wound(
            keys,
            seed,
            lanes,
            i,
        ).0,
    decreases keys.len() - i,
{
    if i < keys.len() {
        lemma_unwinds(keys, nonces, seed, lanes, i + 1);
        let before = wound(keys, seed, lanes, i);
        assert(nonces[i as int] == before.1);
        lemma_round_trip(keys[i as int], before.1, before.0);
    }
}

/// Memory that differs from what the forward pass left stays different from
/// the states of the forward pass all the way back.
pub proof fn lemma_corruption_persists(
    keys: Seq<u128>,
    nonces: Seq<u128>,
    seed: u128,
    lanes: Seq<u128>,
    corrupted: Seq<u128>,
    i: nat,
)
    requires
        records_pass(nonces, keys, seed, lanes),
        i <= keys.len(),
        corrupted.len() == lanes.len(),
        corrupted != wound(keys, seed, lanes, keys.len()).0,
    ensures
        unwound(keys, nonces, corrupted, i) != wound(keys, seed, lanes, i).0,
    decreases keys.len() - i,
{
    if i < keys.len() {
        lemma_corruption_persists(keys, nonces, seed, lanes, corrupted, i + 1);
        let before = wound(keys, seed, lanes, i);
        let next = unwound(keys, nonces, corrupted, i + 1);
        assert(nonces[i as int] == before.1);
        lemma_round_trip_back(keys[i as int], before.1, next);
    }
}

/// Any change to the memory between the forward pass over an all-zero
/// partition and the reverse pass is found: the lanes that the verified round
/// decrypts are not all zero.
pub proof fn lemma_corruption_sensitivity(
    keys: Seq<u128>,
    nonces: Seq<u128>,
    seed: u128,
    lanes: Seq<u128>,
    corrupted: Seq<u128>,
)
    requires
        all_zero(lanes),
        records_pass(nonces, keys, seed, lanes),
        corrupted.len() == lanes.len(),
        corrupted != wound(keys, seed, lanes, keys.len()).0,
    ensures
        !all_zero(unwound(keys, nonces, corrupted, 0)),
{
    lemma_corruption_persists(keys, nonces, seed, lanes, corrupted, 0);
    lemma_unwound_len(keys, nonces, corrupted, 0);
    let d = unwound(keys, nonces, corrupted, 0);
    if all_zero(d) {
        assert(d =~= lanes);
    }
}

/// A single flipped bit in any lane, between the forward pass over an
/// all-zero partition and the reverse pass, is found.
pub proof fn lemma_flipped_bit_found(
    keys: Seq<u128>,
    nonces: Seq<u128>,
    seed: u128,
    lanes: Seq<u128>,
    lane: int,
    bit: u128,
)
    requires
        all_zero(lanes),
        records_pass(nonces, keys, seed, lanes),
        0 <= lane < lanes.len(),
        bit < 128,
    ensures
        ({
            let left = wound(keys, seed, lanes, keys.len()).0;
            !all_zero(unwound(keys, nonces, left.update(lane, left[lane] ^ (1u128 << bit)), 0))
        }),
{
    let left = wound(keys, seed, lanes, keys.len()).0;
    let x = left[lane];
    let flipped = x ^ (1u128 << bit);
    lemma_wound_len(keys, seed, lanes, keys.len());
    assert(flipped != x) by (bit_vector)
        requires
            bit < 128,
            flipped == x ^ (1u128 << bit),
    ;
    assert(left.update(lane, flipped)[lane] != left[lane]);
    lemma_corruption_sensitivity(keys, nonces, seed, lanes, left.update(lane, flipped));
}

/// The forward pass: one encrypt round for every key, in order, each from
/// the chaining value that the round before it left, the first from `seed`.
/// The result holds the seed and the chaining value after every round.
pub fn forward_pass(blocks: &mut [TestBlock], keys: &Vec<u128>, seed: u128) -> (nonces: Vec<u128>)
    ensures
        final(blocks)@.len() == old(blocks)@.len(),
        records_pass(nonces@, keys@, seed, lanes_of(old(blocks)@)),
        lanes_of(final(blocks)@) == wound(
            keys@,
            seed,
            lanes_of(old(blocks)@),
            keys@.len(),
        ).0,
{
    let ghost orig = lanes_of(blocks@);
    let mut nonces: Vec<u128> = Vec::new();
    nonces.push(seed);
    let mut i: usize = 0;
    while i < keys.len()
        invariant
            i <= keys@.len(),
            blocks@.len() == old(blocks)@.len(),
            orig == lanes_of(old(blocks)@),
            nonces@.len() == i + 1,
            forall|t: nat| t <= i ==> nonces@[t as int] == #[trigger] wound(keys@, seed, orig, t).1,
            lanes_of(blocks@) == wound(keys@, seed, orig, i as nat).0,
        decreases keys@.len() - i,
    {
        let nonce: u128 = test_encrypt_round(blocks, &keys[i], &nonces[i]);
        nonces.push(nonce);
        i = i + 1;
    }
    nonces
}

/// The reverse pass: one decrypt round for every key, from the last down to
/// the first, each from the chaining value that its forward round started
/// from; only the round of the first key is verified. The result says
/// whether that round found every lane zero.
pub fn reverse_pass(blocks: &mut [TestBlock], keys: &Vec<u128>, nonces: &Vec<u128>) -> (clean: bool)
    requires
        keys@.len() >= 1,
        nonces@.len() >= keys@.len(),
    ensures
        final(blocks)@.len() == old(blocks)@.len(),
        clean <==> all_zero(unwound(keys@, nonces@, lanes_of(old(blocks)@), 0)),
        clean ==> lanes_of(final(blocks)@) == unwound(keys@, nonces@, lanes_of(old(blocks)@), 0),
        !clean ==> exists|n: int|
            stopped_at(
                unwound(keys@, nonces@, lanes_of(old(blocks)@), 1),
                lanes_of(final(blocks)@),
                unwound(keys@, nonces@, lanes_of(old(blocks)@), 0),
                n,
            ),
{
    let ghost orig = lanes_of(blocks@);
    let mut i: usize = keys.len();
    while i > 1
        invariant
            1 <= i <= keys@.len(),
            nonces@.len() >= keys@.len(),
            blocks@.len() == old(blocks)@.len(),
            orig == lanes_of(old(blocks)@),
            lanes_of(blocks@) == unwound(keys@, nonces@, orig, i as nat),
        decreases i,
    {
        i = i - 1;
        let ok: bool = test_decrypt_round(blocks, &keys[i], &nonces[i], false);
    }
    test_decrypt_round(blocks, &keys[0], &nonces[0], true)
}

/// The messages of one cycle, built in the order of its rounds.
pub fn report_cycle(rounds: usize, share: usize, clean: bool) -> (messages: Vec<TesterMessage>)
    requires
        rounds >= 1,
        rounds * 2 <= usize::MAX,
    ensures
        messages@ == cycle_messages(rounds as int, share, clean),
{
    let mut messages: Vec<TesterMessage> = Vec::new();
    let count: usize = rounds * 2 - 1;
    let mut i: usize = 0;
    while i < count
        invariant
            i <= count,
            messages@ == progress_run(i as nat, share),
        decreases count - i,
    {
        messages.push(TesterMessage::CoveredBytes(share));
        assert(messages@ =~= progress_run((i + 1) as nat, share));
        i = i + 1;
    }
    if !clean {
        messages.push(TesterMessage::FoundError);
    }
    messages.push(TesterMessage::CoveredBytes(share));
    messages
}

/// One full cycle with the given keys and seed: the forward pass, the
/// reverse pass, and the eviction of the whole partition. An all-zero
/// partition comes back as it was, with progress messages alone; any other
/// makes the verified round stop at its first lane that is not zero, and the
/// cycle reports one error.
pub fn run_cycle(blocks: &mut [TestBlock], keys: &Vec<u128>, seed: u128) -> (messages: Vec<
    TesterMessage,
>)
    requires
        keys@.len() >= 1,
        keys@.len() * 2 <= usize::MAX,
        old(blocks)@.len() * 8192 <= usize::MAX,
    ensures
        final(blocks)@.len() == old(blocks)@.len(),
        messages@ == cycle_messages(
            keys@.len() as int,
            round_share((old(blocks)@.len() * 8192) as int, keys@.len() as int) as usize,
            all_zero(lanes_of(old(blocks)@)),
        ),
        all_zero(lanes_of(old(blocks)@)) ==> lanes_of(final(blocks)@) == lanes_of(old(blocks)@),
        !all_zero(lanes_of(old(blocks)@)) ==> exists|n: int|
            stopped_at(
                wound(keys@, seed, lanes_of(old(blocks)@), 1).0,
                lanes_of(final(blocks)@),
                lanes_of(old(blocks)@),
                n,
            ),
{
    let ghost orig = lanes_of(blocks@);
    let num_bytes: usize = blocks.len() * BLOCK_BYTES;
    let share: usize = num_bytes / (keys.len() * 2);
    let nonces: Vec<u128> = forward_pass(blocks, keys, seed);
    proof {
        lemma_unwinds(keys@, nonces@, seed, orig, 0);
        lemma_unwinds(keys@, nonces@, seed, orig, 1);
    }
    let clean: bool = reverse_pass(blocks, keys, &nonces);
    let n: usize = blocks.len();
    flush_cache(blocks, 0, n);
    report_cycle(keys.len(), share, clean)
}

/// The lanes up to and including `n`, the first that is not zero, are as
/// they were before the cycle.
pub open spec fn restored_up_to(before: Seq<u128>, after: Seq<u128>, n: int) -> bool {
    &&& 0 <= n < before.len()
    &&& before[n] != 0
    &&& forall|i: int| 0 <= i < n ==> before[i] == 0
    &&& forall|i: int| 0 <= i <= n ==> after[i] == before[i]
}

/// One full cycle with fresh random keys and a fresh random seed. Whatever
/// was drawn, an all-zero partition comes back as it was, and the cycle
/// reports an error exactly if the partition was not all zero; the lanes up
/// to the first that is not zero then come back as they were.
pub fn test_cycle(blocks: &mut [TestBlock]) -> (messages: Vec<TesterMessage>)
    requires
        old(blocks)@.len() * 8192 <= usize::MAX,
    ensures
        final(blocks)@.len() == old(blocks)@.len(),
        messages@ == cycle_messages(
            4,
            round_share((old(blocks)@.len() * 8192) as int, 4) as usize,
            all_zero(lanes_of(old(blocks)@)),
        ),
        all_zero(lanes_of(old(blocks)@)) ==> lanes_of(final(blocks)@) == lanes_of(old(blocks)@),
        !all_zero(lanes_of(old(blocks)@)) ==> exists|n: int|
            restored_up_to(lanes_of(old(blocks)@), lanes_of(final(blocks)@), n),
{
    let mut keys: Vec<u128> = Vec::new();
    let mut i: usize = 0;
    while i < NUM_TEST_ITERS
        invariant
            i <= 4,
            keys@.len() == i,
        decreases 4 - i,
    {
        keys.push(random_lane());
        i = i + 1;
    }
    let seed: u128 = random_lane();
    let messages: Vec<TesterMessage> = run_cycle(blocks, &keys, seed);
    proof {
        let before = lanes_of(old(blocks)@);
        let after = lanes_of(blocks@);
        if !all_zero(before) {
            let n = choose|n: int| stopped_at(wound(keys@, seed, before, 1).0, after, before, n);
            assert(restored_up_to(before, after, n));
        }
    }
    messages
}

} // verus!

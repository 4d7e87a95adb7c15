use rsmemtest::tester::{flush_cache, test_decrypt_round, test_encrypt_round};
use rsmemtest::worker::{forward_pass, report_cycle, reverse_pass, run_cycle};
use rsmemtest::{test_cycle, Aes128Pcbc, TestBlock, TesterMessage};

fn zero_blocks(count: usize) -> Vec<TestBlock> {
    (0..count).map(|_| TestBlock { lanes: [0u128; 512] }).collect()
}

fn is_zero(blocks: &[TestBlock]) -> bool {
    blocks.iter().all(|b| b.lanes.iter().all(|x| *x == 0))
}

fn covered(messages: &[TesterMessage]) -> usize {
    let mut total = 0;
    for m in messages {
        if let TesterMessage::CoveredBytes(n) = m {
            total += *n;
        }
    }
    total
}

fn errors(messages: &[TesterMessage]) -> usize {
    messages.iter().filter(|m| **m == TesterMessage::FoundError).count()
}

const KEYS: [u128; 4] = [
    0x0f0e0d0c_0b0a0908_07060504_03020100,
    0x1f1e1d1c_1b1a1918_17161514_13121110,
    0x2f2e2d2c_2b2a2928_27262524_23222120,
    0x3f3e3d3c_3b3a3938_37363534_33323130,
];

const SEED: u128 = 0xa5a5a5a5_5a5a5a5a_01234567_89abcdef;

#[test]
fn round_trip_restores_zero() {
    let mut blocks = zero_blocks(3);
    let end = test_encrypt_round(&mut blocks, &KEYS[0], &SEED);
    assert!(!is_zero(&blocks));
    assert_ne!(end, SEED);
    assert!(test_decrypt_round(&mut blocks, &KEYS[0], &SEED, true));
    assert!(is_zero(&blocks));
}

#[test]
fn round_trip_restores_any_content() {
    let mut blocks = zero_blocks(2);
    for (b, block) in blocks.iter_mut().enumerate() {
        for (j, x) in block.lanes.iter_mut().enumerate() {
            *x = ((b as u128) << 64) ^ ((j as u128) * 0x1_0001_0001);
        }
    }
    let before: Vec<[u128; 512]> = blocks.iter().map(|b| b.lanes).collect();
    test_encrypt_round(&mut blocks, &KEYS[1], &SEED);
    assert!(test_decrypt_round(&mut blocks, &KEYS[1], &SEED, false));
    let after: Vec<[u128; 512]> = blocks.iter().map(|b| b.lanes).collect();
    assert_eq!(before, after);
}

#[test]
fn forward_round_is_lane_by_lane_encryption() {
    let mut blocks = zero_blocks(2);
    blocks[1].lanes[5] = 77;
    let mut cipher = Aes128Pcbc::new(&KEYS[2], &SEED);
    let mut expected: Vec<u128> = Vec::new();
    for block in blocks.iter() {
        for x in block.lanes.iter() {
            expected.push(cipher.encrypt(*x));
        }
    }
    let end = test_encrypt_round(&mut blocks, &KEYS[2], &SEED);
    let got: Vec<u128> = blocks.iter().flat_map(|b| b.lanes.iter().copied()).collect();
    assert_eq!(got, expected);
    assert_eq!(end, cipher.nonce());
}

#[test]
fn chaining_is_symmetric() {
    let mut blocks = zero_blocks(1);
    let end = test_encrypt_round(&mut blocks, &KEYS[3], &SEED);
    let mut cipher = Aes128Pcbc::new(&KEYS[3], &SEED);
    for x in blocks[0].lanes.iter() {
        assert_eq!(cipher.decrypt(*x), 0);
    }
    assert_eq!(cipher.nonce(), end);
}

#[test]
fn verified_round_stops_at_first_failure() {
    let mut blocks = zero_blocks(2);
    test_encrypt_round(&mut blocks, &KEYS[0], &SEED);
    blocks[0].lanes[10] ^= 1;
    let corrupted: Vec<[u128; 512]> = blocks.iter().map(|b| b.lanes).collect();
    assert!(!test_decrypt_round(&mut blocks, &KEYS[0], &SEED, true));
    for j in 0..10 {
        assert_eq!(blocks[0].lanes[j], 0);
    }
    assert_ne!(blocks[0].lanes[10], 0);
    for j in 11..512 {
        assert_eq!(blocks[0].lanes[j], corrupted[0][j]);
    }
    assert_eq!(blocks[1].lanes, corrupted[1]);
}

#[test]
fn unverified_round_runs_to_the_end() {
    let mut blocks = zero_blocks(1);
    blocks[0].lanes[0] = 1;
    let before = blocks[0].lanes;
    assert!(test_decrypt_round(&mut blocks, &KEYS[0], &SEED, false));
    for j in 0..512 {
        assert_ne!(blocks[0].lanes[j], before[j]);
    }
}

#[test]
fn empty_partition_round() {
    let mut blocks = zero_blocks(0);
    assert_eq!(test_encrypt_round(&mut blocks, &KEYS[0], &SEED), SEED);
    assert!(test_decrypt_round(&mut blocks, &KEYS[0], &SEED, true));
}

#[test]
fn eviction_keeps_content() {
    let mut blocks = zero_blocks(4);
    for (b, block) in blocks.iter_mut().enumerate() {
        for (j, x) in block.lanes.iter_mut().enumerate() {
            *x = (b as u128 + 1).wrapping_mul(0x9e3779b97f4a7c15).wrapping_add(j as u128) << 17;
        }
    }
    let before: Vec<[u128; 512]> = blocks.iter().map(|b| b.lanes).collect();
    flush_cache(&mut blocks, 1, 2);
    flush_cache(&mut blocks, 0, 4);
    flush_cache(&mut blocks, 4, 0);
    let after: Vec<[u128; 512]> = blocks.iter().map(|b| b.lanes).collect();
    assert_eq!(before, after);
}

#[test]
fn scenario_clean_cycle() {
    let mut blocks = zero_blocks(16);
    let messages = run_cycle(&mut blocks, &KEYS.to_vec(), SEED);
    assert_eq!(errors(&messages), 0);
    assert_eq!(messages, vec![TesterMessage::CoveredBytes(16 * 8192 / 8); 8]);
    assert!(is_zero(&blocks));
}

#[test]
fn scenario_flipped_bit() {
    let mut blocks = zero_blocks(16);
    let keys = KEYS.to_vec();
    let nonces = forward_pass(&mut blocks, &keys, SEED);
    assert_eq!(nonces.len(), 5);
    assert_eq!(nonces[0], SEED);
    blocks[3].lanes[100] ^= 1 << 42;
    let clean = reverse_pass(&mut blocks, &keys, &nonces);
    assert!(!clean);
    let messages = report_cycle(4, 16 * 8192 / 8, clean);
    assert_eq!(errors(&messages), 1);
    assert_eq!(messages.len(), 9);
    assert_eq!(messages[7], TesterMessage::FoundError);
    assert_eq!(messages[8], TesterMessage::CoveredBytes(16384));
    for m in &messages[..7] {
        assert_eq!(*m, TesterMessage::CoveredBytes(16384));
    }
    for b in 0..3 {
        assert!(blocks[b].lanes.iter().all(|x| *x == 0));
    }
    assert!(!is_zero(&blocks));
}

#[test]
fn every_flipped_bit_position_is_found() {
    let keys = vec![KEYS[0], KEYS[1]];
    for bit in [0u32, 1, 63, 64, 127] {
        for pos in [0usize, 255, 511] {
            let mut blocks = zero_blocks(1);
            let nonces = forward_pass(&mut blocks, &keys, SEED);
            blocks[0].lanes[pos] ^= 1u128 << bit;
            assert!(!reverse_pass(&mut blocks, &keys, &nonces));
        }
    }
}

#[test]
fn forward_pass_records_chaining_values() {
    let mut blocks = zero_blocks(2);
    let mut mirror = zero_blocks(2);
    let keys = KEYS.to_vec();
    let nonces = forward_pass(&mut blocks, &keys, SEED);
    let mut chain = SEED;
    for i in 0..4 {
        assert_eq!(nonces[i], chain);
        chain = test_encrypt_round(&mut mirror, &keys[i], &chain);
    }
    assert_eq!(nonces[4], chain);
    assert!(reverse_pass(&mut blocks, &keys, &nonces));
    assert!(is_zero(&blocks));
}

#[test]
fn dirty_partition_reports_one_error() {
    let mut blocks = zero_blocks(2);
    blocks[1].lanes[7] = 3;
    let messages = run_cycle(&mut blocks, &KEYS.to_vec(), SEED);
    assert_eq!(errors(&messages), 1);
    assert_eq!(messages[7], TesterMessage::FoundError);
    assert_eq!(covered(&messages), 2 * 8192);
    for j in 0..512 {
        assert_eq!(blocks[0].lanes[j], 0);
    }
    for j in 0..7 {
        assert_eq!(blocks[1].lanes[j], 0);
    }
    assert_eq!(blocks[1].lanes[7], 3);
}

#[test]
fn coverage_adds_up_to_partition_size() {
    for rounds in [1usize, 2, 4, 8] {
        for count in [1usize, 3, 16] {
            let mut blocks = zero_blocks(count);
            let keys: Vec<u128> = (0..rounds).map(|i| KEYS[i % 4] ^ (i as u128)).collect();
            let messages = run_cycle(&mut blocks, &keys, SEED);
            assert_eq!(messages.len(), 2 * rounds);
            assert_eq!(covered(&messages), count * 8192);
            assert_eq!(errors(&messages), 0);
            assert!(is_zero(&blocks));
        }
    }
}

#[test]
fn uneven_share_rounds_down() {
    let mut blocks = zero_blocks(1);
    let keys = vec![KEYS[0], KEYS[1], KEYS[2]];
    let messages = run_cycle(&mut blocks, &keys, SEED);
    assert_eq!(messages, vec![TesterMessage::CoveredBytes(1365); 6]);
}

#[test]
fn report_orders_messages_by_round() {
    assert_eq!(report_cycle(1, 5, true), vec![TesterMessage::CoveredBytes(5), TesterMessage::CoveredBytes(5)]);
    assert_eq!(
        report_cycle(1, 5, false),
        vec![
            TesterMessage::CoveredBytes(5),
            TesterMessage::FoundError,
            TesterMessage::CoveredBytes(5)
        ]
    );
}

#[test]
fn random_cycle_restores_zero() {
    let mut blocks = zero_blocks(4);
    for _ in 0..2 {
        let messages = test_cycle(&mut blocks);
        assert_eq!(messages, vec![TesterMessage::CoveredBytes(4 * 8192 / 8); 8]);
        assert!(is_zero(&blocks));
    }
}

#[test]
fn random_keys_differ_between_cycles() {
    let mut first = zero_blocks(1);
    let mut second = zero_blocks(1);
    first[0].lanes[0] = 1;
    second[0].lanes[0] = 1;
    let a = test_cycle(&mut first);
    let b = test_cycle(&mut second);
    assert_eq!(errors(&a), 1);
    assert_eq!(errors(&b), 1);
    assert_eq!(first[0].lanes[0], 1);
    assert_ne!(first[0].lanes[511], second[0].lanes[511]);
}

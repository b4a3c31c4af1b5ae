use lottery::batch::{batch_from_candidates, generate_random, ValidationError};
use lottery::entropy::{serialize_entropy, EntropyInputs};
use lottery::expander::expand_slot;
use lottery::hashing::seed_digest;
use lottery::sampler::{rejection_sampling, MAX_SAFE};

fn sample_inputs(count: u8) -> EntropyInputs {
    EntropyInputs {
        oid: b"order-42".to_vec(),
        count,
        slot: 123456789,
        timestamp: 1700000000,
        player: [7u8; 32],
        signer: [9u8; 32],
        latest: b"8c5f2a".to_vec(),
    }
}

#[test]
fn deterministic_same_inputs_same_outputs() {
    let a = sample_inputs(10);
    let b = sample_inputs(10);
    assert_eq!(seed_digest(&a), seed_digest(&b));
    assert_eq!(generate_random(&a).unwrap(), generate_random(&b).unwrap());
}

#[test]
fn seed_digest_is_32_bytes_and_not_the_input() {
    let inputs = sample_inputs(1);
    let data = serialize_entropy(&inputs);
    let digest = seed_digest(&inputs);
    assert_eq!(digest.len(), 32);
    assert_ne!(data.len(), 32);
    assert_ne!(digest.as_slice(), &data[..32]);
}

#[test]
fn avalanche_each_field_changes_seed() {
    let base = sample_inputs(5);
    let base_seed = seed_digest(&base);

    let mut m = sample_inputs(5);
    m.oid = b"order-43".to_vec();
    assert_ne!(seed_digest(&m), base_seed);

    let mut m = sample_inputs(5);
    m.count = 6;
    assert_ne!(seed_digest(&m), base_seed);

    let mut m = sample_inputs(5);
    m.slot = 123456790;
    assert_ne!(seed_digest(&m), base_seed);

    let mut m = sample_inputs(5);
    m.timestamp = 1700000001;
    assert_ne!(seed_digest(&m), base_seed);

    let mut m = sample_inputs(5);
    m.player[0] = 8;
    assert_ne!(seed_digest(&m), base_seed);

    let mut m = sample_inputs(5);
    m.signer[31] = 10;
    assert_ne!(seed_digest(&m), base_seed);

    let mut m = sample_inputs(5);
    m.latest = b"8c5f2b".to_vec();
    assert_ne!(seed_digest(&m), base_seed);
}

#[test]
fn count_zero_gives_empty_batch() {
    let batch = generate_random(&sample_inputs(0)).unwrap();
    assert!(batch.is_empty());
}

#[test]
fn count_five_gives_five_values_in_range() {
    let batch = generate_random(&sample_inputs(5)).unwrap();
    assert_eq!(batch.len(), 5);
    for v in batch {
        assert!(1 <= v && v <= 100000);
    }
}

#[test]
fn batch_matches_manual_expansion() {
    let inputs = sample_inputs(8);
    let seed = seed_digest(&inputs);
    let mut raws: Vec<u64> = Vec::new();
    for i in 1..=8 {
        raws.push(expand_slot(&seed, i));
    }
    let expected: Vec<u32> = raws.iter().map(|&r| rejection_sampling(r).unwrap()).collect();
    assert_eq!(generate_random(&inputs).unwrap(), expected);
    assert_eq!(batch_from_candidates(&raws), expected);
}

#[test]
fn slots_get_distinct_digests() {
    let inputs = sample_inputs(2);
    let seed = seed_digest(&inputs);
    assert_ne!(expand_slot(&seed, 1), expand_slot(&seed, 2));
}

#[test]
fn identifier_of_17_bytes_is_rejected() {
    let mut inputs = sample_inputs(5);
    inputs.oid = vec![b'x'; 17];
    assert_eq!(generate_random(&inputs).unwrap_err(), ValidationError::IdentifierTooLong);
}

#[test]
fn identifier_of_16_bytes_is_accepted() {
    let mut inputs = sample_inputs(5);
    inputs.oid = vec![b'x'; 16];
    assert!(generate_random(&inputs).is_ok());
}

#[test]
fn count_of_51_is_rejected() {
    let inputs = sample_inputs(51);
    assert_eq!(generate_random(&inputs).unwrap_err(), ValidationError::CountTooLarge);
}

#[test]
fn count_of_50_is_accepted() {
    let batch = generate_random(&sample_inputs(50)).unwrap();
    assert_eq!(batch.len(), 50);
}

#[test]
fn identifier_checked_before_count() {
    let mut inputs = sample_inputs(51);
    inputs.oid = vec![b'x'; 17];
    assert_eq!(generate_random(&inputs).unwrap_err(), ValidationError::IdentifierTooLong);
}

#[test]
fn forced_rejection_at_slot_three_truncates_batch() {
    let mut raws: Vec<u64> = vec![5, 70000, MAX_SAFE];
    for _ in 0..7 {
        raws.push(1);
    }
    assert_eq!(raws.len(), 10);
    let batch = batch_from_candidates(&raws);
    assert_eq!(batch, vec![6, 70001]);
    assert_eq!(batch.len(), 2);
}

#[test]
fn rejection_at_first_slot_gives_empty_batch() {
    let raws: Vec<u64> = vec![u64::MAX, 5, 6];
    assert!(batch_from_candidates(&raws).is_empty());
}

#[test]
fn all_candidates_accepted_gives_full_batch() {
    let raws: Vec<u64> = vec![0, 99999, 100000, 200004];
    assert_eq!(batch_from_candidates(&raws), vec![1, 100000, 1, 5]);
}

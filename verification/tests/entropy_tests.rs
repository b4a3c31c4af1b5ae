use lottery::entropy::{serialize_entropy, EntropyInputs};

fn sample_inputs() -> EntropyInputs {
    EntropyInputs {
        oid: b"ord-1".to_vec(),
        count: 3,
        slot: 4,
        timestamp: 1700000000,
        player: [7u8; 32],
        signer: [9u8; 32],
        latest: b"blk".to_vec(),
    }
}

#[test]
fn serialization_exact_bytes() {
    let inputs = EntropyInputs {
        oid: vec![1, 2],
        count: 3,
        slot: 4,
        timestamp: -2,
        player: [7u8; 32],
        signer: [9u8; 32],
        latest: vec![8],
    };
    let mut expected: Vec<u8> = Vec::new();
    expected.extend_from_slice(&[1, 2]);
    expected.push(3);
    expected.extend_from_slice(&[4, 0, 0, 0, 0, 0, 0, 0]);
    expected.extend_from_slice(&[254, 255, 255, 255, 255, 255, 255, 255]);
    expected.extend_from_slice(&[7u8; 32]);
    expected.extend_from_slice(&[9u8; 32]);
    expected.push(8);
    assert_eq!(serialize_entropy(&inputs), expected);
}

#[test]
fn serialization_numeric_fields_little_endian() {
    let mut inputs = sample_inputs();
    inputs.oid = Vec::new();
    inputs.latest = Vec::new();
    inputs.count = 0xAB;
    inputs.slot = 0x0102030405060708;
    inputs.timestamp = 0x1112131415161718;
    let data = serialize_entropy(&inputs);
    assert_eq!(data.len(), 1 + 8 + 8 + 32 + 32);
    assert_eq!(data[0], 0xAB);
    assert_eq!(&data[1..9], &[8, 7, 6, 5, 4, 3, 2, 1]);
    assert_eq!(&data[9..17], &[0x18, 0x17, 0x16, 0x15, 0x14, 0x13, 0x12, 0x11]);
}

#[test]
fn serialization_most_negative_timestamp() {
    let mut inputs = sample_inputs();
    inputs.timestamp = i64::MIN;
    let data = serialize_entropy(&inputs);
    let off = inputs.oid.len() + 1 + 8;
    assert_eq!(&data[off..off + 8], &[0, 0, 0, 0, 0, 0, 0, 0x80]);
}

#[test]
fn serialization_preserves_field_order() {
    let inputs = sample_inputs();
    let data = serialize_entropy(&inputs);
    let expected_len = inputs.oid.len() + 1 + 8 + 8 + 32 + 32 + inputs.latest.len();
    assert_eq!(data.len(), expected_len);
    assert_eq!(&data[..inputs.oid.len()], inputs.oid.as_slice());
    assert_eq!(data[inputs.oid.len()], inputs.count);
    assert_eq!(&data[data.len() - 3..], inputs.latest.as_slice());
}

use remitano_project::address::Address;
use remitano_project::codec::deserialize_entry;
use remitano_project::codec::serialize_entry;
use remitano_project::pool::BasicLiquidityPool;

fn sample_entry() -> BasicLiquidityPool {
    BasicLiquidityPool {
        name: b"sol_pool".to_vec(),
        created_at: 1_700_000_000,
        signer_bump: 254,
        pool_provider: Address { bytes: vec![4u8; 32] },
    }
}

#[test]
fn serialize_produces_the_exact_layout() {
    let bytes = serialize_entry(&sample_entry());
    let mut expected: Vec<u8> = Vec::new();
    expected.extend_from_slice(&8u32.to_le_bytes());
    expected.extend_from_slice(b"sol_pool");
    expected.extend_from_slice(&1_700_000_000i64.to_le_bytes());
    expected.push(254);
    expected.extend_from_slice(&[4u8; 32]);
    assert_eq!(bytes, expected);
    assert_eq!(bytes.len(), 8 + 45);
}

#[test]
fn serialize_then_deserialize_returns_the_same_entry() {
    let entry = sample_entry();
    let bytes = serialize_entry(&entry);
    let back = deserialize_entry(&bytes).expect("serialized entry parses");
    assert_eq!(back.name, entry.name);
    assert_eq!(back.created_at, entry.created_at);
    assert_eq!(back.signer_bump, entry.signer_bump);
    assert_eq!(back.pool_provider.bytes, entry.pool_provider.bytes);
}

#[test]
fn round_trip_keeps_a_negative_timestamp_and_empty_name() {
    let entry = BasicLiquidityPool {
        name: Vec::new(),
        created_at: -1,
        signer_bump: 0,
        pool_provider: Address { bytes: vec![0u8; 32] },
    };
    let bytes = serialize_entry(&entry);
    assert_eq!(bytes.len(), 45);
    let back = deserialize_entry(&bytes).expect("serialized entry parses");
    assert_eq!(back.name, Vec::<u8>::new());
    assert_eq!(back.created_at, -1);
    assert_eq!(back.signer_bump, 0);
    assert_eq!(back.pool_provider.bytes, vec![0u8; 32]);
}

#[test]
fn deserialize_rejects_malformed_bytes() {
    // too short for the fixed fields
    assert!(deserialize_entry(&vec![0u8; 44]).is_none());
    // a name length over the bound
    let mut long_name = vec![33u8, 0, 0, 0];
    long_name.extend_from_slice(&vec![0u8; 33 + 41]);
    assert!(deserialize_entry(&long_name).is_none());
    // a length prefix that disagrees with the actual length
    let mut short = vec![2u8, 0, 0, 0];
    short.extend_from_slice(&vec![0u8; 42]);
    assert!(deserialize_entry(&short).is_none());
    // one byte too many
    let entry = sample_entry();
    let mut bytes = serialize_entry(&entry);
    bytes.push(0);
    assert!(deserialize_entry(&bytes).is_none());
}

use chaintap::event::normalize;
use chaintap::event::RawLog;

fn sample_raw() -> RawLog {
    RawLog {
        block_number: Some(123),
        transaction_hash: Some(vec![0xab; 32]),
        log_index: Some(7),
        topics: vec![vec![0x01; 32], vec![0xff; 32]],
        data: vec![0xde, 0xad, 0xbe, 0xef],
    }
}

#[test]
fn missing_fields_become_defined_defaults() {
    let raw = RawLog {
        block_number: None,
        transaction_hash: None,
        log_index: None,
        topics: Vec::new(),
        data: Vec::new(),
    };
    let e = normalize(&raw, None, "Custom", &[0x11; 20], &None, "t");
    assert_eq!(e.block_number, 0);
    assert_eq!(e.log_index, 0);
    assert_eq!(e.transaction_hash, "");
    assert_eq!(e.data, "");
    assert_eq!(e.topics.len(), 0);
}

#[test]
fn fields_are_hex_rendered() {
    let raw = sample_raw();
    let e = normalize(
        &raw,
        Some(1),
        "Ethereum Mainnet",
        &[0x22; 20],
        &Some("Transfer(address,address,uint256)".to_string()),
        "2024-01-01T00:00:00+00:00",
    );
    assert_eq!(e.timestamp, "2024-01-01T00:00:00+00:00");
    assert_eq!(e.chain_id, Some(1));
    assert_eq!(e.chain_name, "Ethereum Mainnet");
    assert_eq!(e.block_number, 123);
    assert_eq!(e.log_index, 7);
    assert_eq!(e.transaction_hash, format!("0x{}", "ab".repeat(32)));
    assert_eq!(e.contract_address, format!("0x{}", "22".repeat(20)));
    assert_eq!(e.topics.len(), 2);
    assert_eq!(e.topics[0], format!("0x{}", "01".repeat(32)));
    assert_eq!(e.topics[1], format!("0x{}", "ff".repeat(32)));
    assert_eq!(e.data, "deadbeef");
    assert_eq!(
        e.event_signature,
        Some("Transfer(address,address,uint256)".to_string())
    );
}

#[test]
fn data_hex_matches_hex_crate() {
    let raw = sample_raw();
    let e = normalize(&raw, None, "Custom", &[0x22; 20], &None, "t");
    assert_eq!(e.data, hex::encode(vec![0xde, 0xad, 0xbe, 0xef]));
    assert_eq!(e.transaction_hash, format!("0x{}", hex::encode(vec![0xab; 32])));
}

#[test]
fn renormalizing_differs_only_in_timestamp() {
    let raw = sample_raw();
    let sig = Some("Transfer(address,address,uint256)".to_string());
    let a = normalize(&raw, Some(137), "Polygon", &[0x33; 20], &sig, "t1");
    let b = normalize(&raw, Some(137), "Polygon", &[0x33; 20], &sig, "t2");
    assert_eq!(a.timestamp, "t1");
    assert_eq!(b.timestamp, "t2");
    assert_eq!(a.chain_id, b.chain_id);
    assert_eq!(a.chain_name, b.chain_name);
    assert_eq!(a.block_number, b.block_number);
    assert_eq!(a.transaction_hash, b.transaction_hash);
    assert_eq!(a.log_index, b.log_index);
    assert_eq!(a.contract_address, b.contract_address);
    assert_eq!(a.topics, b.topics);
    assert_eq!(a.data, b.data);
    assert_eq!(a.event_signature, b.event_signature);

    let c = normalize(&raw, Some(137), "Polygon", &[0x33; 20], &sig, "t1");
    assert_eq!(a.timestamp, c.timestamp);
    assert_eq!(a.data, c.data);
    assert_eq!(a.topics, c.topics);
}

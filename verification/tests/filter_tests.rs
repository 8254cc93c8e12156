use chaintap::filter::build_filter;
use chaintap::filter::compute_event_topic;

#[test]
fn transfer_topic_matches_published_hash() {
    let topic = compute_event_topic("Transfer(address,address,uint256)");
    let expected =
        hex::decode("ddf252ad1be2c89b69c2b068fc378daa952ba7f163c4a11628f55a4df523b3ef").unwrap();
    assert_eq!(topic, expected);
}

#[test]
fn topic_matches_direct_keccak() {
    let sig = "Approval(address,address,uint256)";
    let topic = compute_event_topic(sig);
    assert_eq!(topic, ethers_core::utils::keccak256(sig.as_bytes()).to_vec());
    assert_eq!(topic.len(), 32);
}

#[test]
fn filter_without_signature_matches_all_events() {
    let f = build_filter(&[0x42; 20], &None, 100, 105);
    assert_eq!(f.address, vec![0x42; 20]);
    assert!(f.topic0.is_none());
    assert_eq!(f.from_block, 100);
    assert_eq!(f.to_block, 105);
}

#[test]
fn filter_with_signature_carries_its_topic_hash() {
    let sig = "Transfer(address,address,uint256)".to_string();
    let f = build_filter(&[0x42; 20], &Some(sig.clone()), 1, 2);
    assert_eq!(f.topic0, Some(compute_event_topic(&sig)));
}

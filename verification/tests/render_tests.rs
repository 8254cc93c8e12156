use chaintap::event::EventData;
use chaintap::render::render_compact;
use chaintap::render::render_json;
use chaintap::render::render_pretty;

fn sample_event() -> EventData {
    EventData {
        timestamp: "2024-01-01T00:00:00+00:00".to_string(),
        chain_id: Some(1),
        chain_name: "Ethereum Mainnet".to_string(),
        block_number: 123,
        transaction_hash: "0xabc".to_string(),
        log_index: 7,
        contract_address: "0xdef".to_string(),
        topics: vec!["0x01".to_string(), "0x02".to_string()],
        data: "deadbeef".to_string(),
        event_signature: Some("Transfer(address,address,uint256)".to_string()),
    }
}

#[test]
fn json_is_exact() {
    let expected = "{\"timestamp\":\"2024-01-01T00:00:00+00:00\",\"chain_id\":1,\"chain_name\":\"Ethereum Mainnet\",\"block_number\":123,\"transaction_hash\":\"0xabc\",\"log_index\":7,\"contract_address\":\"0xdef\",\"topics\":[\"0x01\",\"0x02\"],\"data\":\"deadbeef\",\"event_signature\":\"Transfer(address,address,uint256)\"}";
    assert_eq!(render_json(&sample_event()), expected);
}

#[test]
fn json_none_fields_are_null() {
    let mut e = sample_event();
    e.chain_id = None;
    e.event_signature = None;
    e.topics = Vec::new();
    let s = render_json(&e);
    assert!(s.contains("\"chain_id\":null"));
    assert!(s.contains("\"event_signature\":null"));
    assert!(s.contains("\"topics\":[]"));
}

#[test]
fn json_is_valid_and_escaped() {
    let mut e = sample_event();
    e.chain_name = "a\"b\\c\nd\te".to_string();
    let s = render_json(&e);
    let v: serde_json::Value = serde_json::from_str(&s).expect("rendered JSON must parse");
    assert_eq!(v["chain_name"].as_str(), Some("a\"b\\c\nd\te"));
    assert_eq!(v["block_number"].as_u64(), Some(123));
    assert_eq!(v["chain_id"].as_u64(), Some(1));
    assert_eq!(v["topics"][1].as_str(), Some("0x02"));
    assert_eq!(v["data"].as_str(), Some("deadbeef"));
}

#[test]
fn json_line_has_no_raw_newline() {
    let mut e = sample_event();
    e.chain_name = "line\nbreak".to_string();
    let s = render_json(&e);
    assert!(!s.contains('\n'));
}

#[test]
fn compact_truncates_long_values() {
    let mut e = sample_event();
    e.transaction_hash = "0xabcdef0123456789".to_string();
    e.contract_address = "0x123456789abcdef0".to_string();
    let line = render_compact(&e);
    assert_eq!(
        line,
        "[2024-01-01T00:00:00+00:00] Block 123 | Tx 0xabcdef01 | Contract 0x12345678 | Topics: 2"
    );
}

#[test]
fn compact_keeps_short_values_whole() {
    let line = render_compact(&sample_event());
    assert_eq!(
        line,
        "[2024-01-01T00:00:00+00:00] Block 123 | Tx 0xabc | Contract 0xdef | Topics: 2"
    );
}

#[test]
fn pretty_shows_every_field() {
    let text = render_pretty(&sample_event());
    assert!(text.starts_with("\n\u{2554}"));
    assert!(text.contains("\u{2551} Event Detected!\n"));
    assert!(text.contains("\u{2551} Time: 2024-01-01T00:00:00+00:00\n"));
    assert!(text.contains("\u{2551} Chain: Ethereum Mainnet (ID: 1)\n"));
    assert!(text.contains("\u{2551} Block: 123\n"));
    assert!(text.contains("\u{2551} Transaction: 0xabc\n"));
    assert!(text.contains("\u{2551} Log Index: 7\n"));
    assert!(text.contains("\u{2551} Contract: 0xdef\n"));
    assert!(text.contains("\u{2551} Event: Transfer(address,address,uint256)\n"));
    assert!(text.contains("\u{2551} Topics:\n"));
    assert!(text.contains("\u{2551}   [0] 0x01\n"));
    assert!(text.contains("\u{2551}   [1] 0x02\n"));
    assert!(text.contains("\u{2551} Data: deadbeef\n"));
    assert!(text.ends_with("\u{2550}\n"));
}

#[test]
fn pretty_omits_empty_sections() {
    let mut e = sample_event();
    e.topics = Vec::new();
    e.data = String::new();
    e.event_signature = None;
    e.chain_id = None;
    let text = render_pretty(&e);
    assert!(!text.contains("Topics:"));
    assert!(!text.contains("Data:"));
    assert!(!text.contains("\u{2551} Event: "));
    assert!(text.contains(" (ID: 0)\n"));
}

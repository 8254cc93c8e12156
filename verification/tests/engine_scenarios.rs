use chaintap::controller::process_tick;
use chaintap::engine::plan_tick;
use chaintap::event::RawLog;
use chaintap::watermark::EngineError;
use chaintap::watermark::Watermark;

fn raw_log_at(block: u64, log_index: u64) -> RawLog {
    RawLog {
        block_number: Some(block),
        transaction_hash: Some(vec![0xaa; 32]),
        log_index: Some(log_index),
        topics: vec![vec![0x11; 32]],
        data: vec![0xde, 0xad],
    }
}

#[test]
fn two_tick_scenario() {
    let mut wm = Watermark::new(100);
    let addr = vec![0x22u8; 20];

    let range = plan_tick(&wm, 105).expect("head past watermark must issue a query");
    assert_eq!(range.from_block, 100);
    assert_eq!(range.to_block, 105);

    let logs = vec![raw_log_at(101, 0), raw_log_at(104, 3)];
    let out = process_tick(
        &mut wm,
        105,
        Ok(logs),
        Some(1),
        "Ethereum Mainnet",
        &addr,
        &None,
        &Vec::new(),
    );
    assert_eq!(out.records.len(), 2);
    assert_eq!(out.records[0].block_number, 101);
    assert_eq!(out.records[1].block_number, 104);
    assert_eq!(wm.current(), 106);

    assert!(plan_tick(&wm, 105).is_none());
    assert_eq!(wm.current(), 106);
}

#[test]
fn failed_query_leaves_watermark() {
    let mut wm = Watermark::new(50);
    let addr = vec![0u8; 20];
    assert!(plan_tick(&wm, 60).is_some());
    let out = process_tick(
        &mut wm,
        60,
        Err("connection reset".to_string()),
        None,
        "Custom",
        &addr,
        &None,
        &Vec::new(),
    );
    assert_eq!(out.records.len(), 0);
    assert_eq!(wm.current(), 50);

    let retry = plan_tick(&wm, 61).expect("the failed range is retried");
    assert_eq!(retry.from_block, 50);
}

#[test]
fn ranges_are_contiguous() {
    let mut wm = Watermark::new(10);
    let addr = vec![0u8; 20];

    let first = plan_tick(&wm, 15).unwrap();
    assert_eq!((first.from_block, first.to_block), (10, 15));
    process_tick(&mut wm, 15, Ok(Vec::new()), None, "Custom", &addr, &None, &Vec::new());

    let second = plan_tick(&wm, 20).unwrap();
    assert_eq!(second.from_block, first.to_block + 1);
    assert_eq!(second.to_block, 20);
}

#[test]
fn watermark_refuses_regression() {
    let mut wm = Watermark::new(100);
    assert_eq!(wm.advance_to(100), Err(EngineError::InvariantViolation));
    assert_eq!(wm.advance_to(99), Err(EngineError::InvariantViolation));
    assert_eq!(wm.current(), 100);
    assert_eq!(wm.advance_to(101), Ok(()));
    assert_eq!(wm.current(), 101);
}

#[test]
fn head_equal_to_watermark_issues_single_block_range() {
    let wm = Watermark::new(7);
    let range = plan_tick(&wm, 7).expect("a one-block range is still new work");
    assert_eq!((range.from_block, range.to_block), (7, 7));
}

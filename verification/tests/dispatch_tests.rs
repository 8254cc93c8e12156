use chaintap::dispatch::dispatch_plan;
use chaintap::dispatch::summarize_outcomes;
use chaintap::dispatch::DeliveryOutcome;
use chaintap::dispatch::OutputFormat;
use chaintap::dispatch::Sink;
use chaintap::dispatch::SinkKind;
use chaintap::event::EventData;
use chaintap::render::render_compact;
use chaintap::render::render_json;

fn sample_event() -> EventData {
    EventData {
        timestamp: "2024-01-01T00:00:00+00:00".to_string(),
        chain_id: Some(1),
        chain_name: "Ethereum Mainnet".to_string(),
        block_number: 123,
        transaction_hash: "0xabc".to_string(),
        log_index: 7,
        contract_address: "0xdef".to_string(),
        topics: vec!["0x01".to_string()],
        data: "deadbeef".to_string(),
        event_signature: None,
    }
}

fn three_sinks() -> Vec<Sink> {
    vec![
        Sink { kind: SinkKind::Console(OutputFormat::Compact), enabled: true },
        Sink { kind: SinkKind::File("events.log".to_string()), enabled: true },
        Sink { kind: SinkKind::Webhook("https://example.com/hook".to_string()), enabled: true },
    ]
}

#[test]
fn webhook_failure_does_not_starve_other_sinks() {
    let e = sample_event();
    let sinks = three_sinks();
    let plan = dispatch_plan(&e, &sinks);

    assert_eq!(plan.len(), 3);
    assert_eq!(plan[0].sink_index, 0);
    assert_eq!(plan[0].payload, render_compact(&e));
    assert_eq!(plan[1].sink_index, 1);
    assert_eq!(plan[1].payload, render_json(&e));
    assert!(!plan[1].payload.contains('\n'));
    assert_eq!(plan[2].sink_index, 2);
    assert_eq!(plan[2].payload, render_json(&e));

    let outcomes = vec![
        DeliveryOutcome::Delivered,
        DeliveryOutcome::Delivered,
        DeliveryOutcome::HttpStatus(500),
    ];
    let report = summarize_outcomes(&outcomes);
    assert_eq!(report.attempted, 3);
    assert_eq!(report.delivered, 2);
    assert_eq!(report.failed, 1);
}

#[test]
fn disabled_sinks_receive_nothing() {
    let e = sample_event();
    let sinks = vec![
        Sink { kind: SinkKind::Console(OutputFormat::Json), enabled: true },
        Sink { kind: SinkKind::Webhook("https://example.com".to_string()), enabled: false },
        Sink { kind: SinkKind::File("a.log".to_string()), enabled: true },
    ];
    let plan = dispatch_plan(&e, &sinks);
    assert_eq!(plan.len(), 2);
    assert_eq!(plan[0].sink_index, 0);
    assert_eq!(plan[1].sink_index, 2);
}

#[test]
fn webhook_success_status_counts_as_delivered() {
    let outcomes = vec![
        DeliveryOutcome::HttpStatus(200),
        DeliveryOutcome::HttpStatus(299),
        DeliveryOutcome::HttpStatus(301),
        DeliveryOutcome::TransportFailure,
        DeliveryOutcome::WriteFailure,
    ];
    let report = summarize_outcomes(&outcomes);
    assert_eq!(report.attempted, 5);
    assert_eq!(report.delivered, 2);
    assert_eq!(report.failed, 3);
}

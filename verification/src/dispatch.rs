use vstd::prelude::*;

use crate::event::EventData;
use crate::event::EventView;
use crate::render::compact_of;
use crate::render::json_of_event;
use crate::render::pretty_of;
use crate::render::render_compact;
use crate::render::render_json;
use crate::render::render_pretty;

verus! {

/// The three console render formats.
#[derive(Clone, Copy, Debug, PartialEq, Eq, Structural)]
pub enum OutputFormat {
    Pretty,
    Json,
    Compact,
}

/// A named output target.  The file and webhook variants carry the path and
/// URL so the runner knows where to take the payload; the engine's own
/// behaviour does not depend on them.
pub enum SinkKind {
    Console(OutputFormat),
    File(String),
    Webhook(String),
}

/// One configured sink.
pub struct Sink {
    pub kind: SinkKind,
    pub enabled: bool,
}

/// The exact payload a sink of this kind is handed for one event: the
/// console sink its configured rendering, the file sink the record's JSON
/// line, the webhook sink the same JSON as the request body.
pub open spec fn rendered_for(kind: SinkKind, m: EventView) -> Seq<char> {
    match kind {
        SinkKind::Console(OutputFormat::Pretty) => pretty_of(m),
        SinkKind::Console(OutputFormat::Json) => json_of_event(m),
        SinkKind::Console(OutputFormat::Compact) => compact_of(m),
        SinkKind::File(_) => json_of_event(m),
        SinkKind::Webhook(_) => json_of_event(m),
    }
}

/// One planned delivery: the index of the sink it is meant for, and the
/// exact payload to hand it.
pub struct Delivery {
    pub sink_index: usize,
    pub payload: String,
}

/// The mathematical value of a planned delivery list.
pub open spec fn deliveries_view(p: Seq<Delivery>) -> Seq<(int, Seq<char>)> {
    Seq::new(p.len(), |i: int| (p[i].sink_index as int, p[i].payload@))
}

/// The plan the dispatcher owes one event: one delivery per enabled sink, in
/// sink order, each carrying that sink's rendering of the event.  Disabled
/// sinks get nothing.
pub open spec fn spec_plan(sinks: Seq<Sink>, m: EventView) -> Seq<(int, Seq<char>)>
    decreases sinks.len(),
{
    if sinks.len() == 0 {
        Seq::empty()
    } else {
        let rest = spec_plan(sinks.drop_last(), m);
        if sinks.last().enabled {
            rest.push(((sinks.len() - 1) as int, rendered_for(sinks.last().kind, m)))
        } else {
            rest
        }
    }
}

/// Every enabled sink is planned for, with its own payload, regardless of
/// every other sink: the plan is a function of the sinks and the event
/// alone, so no sink's failure can cost another its delivery.
pub proof fn lemma_plan_covers_enabled(sinks: Seq<Sink>, m: EventView, j: int)
    requires
        0 <= j < sinks.len(),
        sinks[j].enabled,
    ensures
        exists|k: int|
            0 <= k < spec_plan(sinks, m).len() && spec_plan(sinks, m)[k] == (
                j,
                rendered_for(sinks[j].kind, m),
            ),
    decreases sinks.len(),
{
    if j == sinks.len() - 1 {
        let plan = spec_plan(sinks, m);
        assert(plan[plan.len() - 1] == (j, rendered_for(sinks[j].kind, m)));
    } else {
        lemma_plan_covers_enabled(sinks.drop_last(), m, j);
        let rest = spec_plan(sinks.drop_last(), m);
        let k = choose|k: int|
            0 <= k < rest.len() && rest[k] == (j, rendered_for(sinks.drop_last()[j].kind, m));
        assert(spec_plan(sinks, m)[k] == rest[k]);
    }
}

/// Compute the dispatch plan for one event: render it once per enabled sink.
pub fn dispatch_plan(event: &EventData, sinks: &Vec<Sink>) -> (plan: Vec<Delivery>)
    ensures
        deliveries_view(plan@) == spec_plan(sinks@, event.model()),
{
    let mut plan: Vec<Delivery> = Vec::new();
    let n = sinks.len();
    let mut i: usize = 0;
    while i < n
        invariant
            n == sinks@.len(),
            i <= n,
            deliveries_view(plan@) == spec_plan(sinks@.take(i as int), event.model()),
        decreases n - i,
    {
        let s = &sinks[i];
        if s.enabled {
            let payload = match &s.kind {
                SinkKind::Console(OutputFormat::Pretty) => render_pretty(event),
                SinkKind::Console(OutputFormat::Json) => render_json(event),
                SinkKind::Console(OutputFormat::Compact) => render_compact(event),
                SinkKind::File(_) => render_json(event),
                SinkKind::Webhook(_) => render_json(event),
            };
            plan.push(Delivery { sink_index: i, payload });
        }
        proof {
            assert(sinks@.take(i + 1).drop_last() =~= sinks@.take(i as int));
            assert(sinks@.take(i + 1).last() == sinks@[i as int]);
            assert(deliveries_view(plan@) =~= spec_plan(sinks@.take(i + 1), event.model()));
        }
        i += 1;
    }
    proof {
        assert(sinks@.take(n as int) =~= sinks@);
    }
    plan
}

/// What attempting one delivery came to, as the runner reports it back.
#[derive(Clone, Copy, Debug, PartialEq, Eq, Structural)]
pub enum DeliveryOutcome {
    /// The sink took the payload.
    Delivered,
    /// The webhook answered with this HTTP status.
    HttpStatus(u16),
    /// The transport failed before any answer.
    TransportFailure,
    /// The console or file write failed.
    WriteFailure,
}

/// A delivery counts as made when the sink took the payload, or when the
/// webhook answered with a success status.
pub open spec fn outcome_ok(o: DeliveryOutcome) -> bool {
    match o {
        DeliveryOutcome::Delivered => true,
        DeliveryOutcome::HttpStatus(s) => 200 <= s < 300,
        DeliveryOutcome::TransportFailure => false,
        DeliveryOutcome::WriteFailure => false,
    }
}

/// How many of a list of outcomes count as made.
pub open spec fn count_ok(os: Seq<DeliveryOutcome>) -> int
    decreases os.len(),
{
    if os.len() == 0 {
        0int
    } else {
        count_ok(os.drop_last()) + if outcome_ok(os.last()) {
            1int
        } else {
            0int
        }
    }
}

/// What one dispatch round came to: every delivery was attempted, each
/// counted on its own.
pub struct DispatchReport {
    pub attempted: usize,
    pub delivered: usize,
    pub failed: usize,
}

/// Tally a round of outcomes.  Each outcome is counted by itself: a failure
/// is reported and changes nothing about the others.
pub fn summarize_outcomes(outcomes: &Vec<DeliveryOutcome>) -> (r: DispatchReport)
    ensures
        r.attempted == outcomes@.len(),
        r.delivered == count_ok(outcomes@),
        r.failed == outcomes@.len() - count_ok(outcomes@),
{
    let n = outcomes.len();
    let mut delivered: usize = 0;
    let mut failed: usize = 0;
    let mut i: usize = 0;
    while i < n
        invariant
            n == outcomes@.len(),
            i <= n,
            delivered == count_ok(outcomes@.take(i as int)),
            delivered + failed == i,
        decreases n - i,
    {
        let ok = match outcomes[i] {
            DeliveryOutcome::Delivered => true,
            DeliveryOutcome::HttpStatus(s) => 200 <= s && s < 300,
            DeliveryOutcome::TransportFailure => false,
            DeliveryOutcome::WriteFailure => false,
        };
        if ok {
            delivered += 1;
        } else {
            failed += 1;
        }
        proof {
            assert(outcomes@.take(i + 1).drop_last() =~= outcomes@.take(i as int));
            assert(outcomes@.take(i + 1).last() == outcomes@[i as int]);
        }
        i += 1;
    }
    proof {
        assert(outcomes@.take(n as int) =~= outcomes@);
    }
    DispatchReport { attempted: n, delivered, failed }
}

} // verus!

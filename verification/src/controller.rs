use vstd::prelude::*;

use crate::dispatch::deliveries_view;
use crate::dispatch::dispatch_plan;
use crate::dispatch::spec_plan;
use crate::dispatch::Delivery;
use crate::dispatch::Sink;
use crate::engine::settle_tick;
use crate::engine::tick_step;
use crate::engine::TickView;
use crate::event::observe;
use crate::event::opt_str_view;
use crate::event::spec_normalize;
use crate::event::EventData;
use crate::event::RawLog;
use crate::watermark::Watermark;

verus! {

/// Everything one tick with an issued query produced: the canonical records
/// in the order the log source returned them, and for each record the
/// dispatch plan over the configured sinks.
pub struct TickOutput {
    pub records: Vec<EventData>,
    pub plans: Vec<Vec<Delivery>>,
}

/// Finish a tick whose query for `[watermark, head]` was issued: normalize
/// and plan dispatch for every returned log in order, then advance the
/// watermark past the head — or, when the query failed, change nothing, so
/// the same range is retried on the next tick.
pub fn process_tick(
    wm: &mut Watermark,
    head: u64,
    query: Result<Vec<RawLog>, String>,
    chain_id: Option<u64>,
    chain_name: &str,
    contract_address: &[u8],
    event_signature: &Option<String>,
    sinks: &Vec<Sink>,
) -> (out: TickOutput)
    requires
        crate::engine::tick_issues(old(wm).spec_current() as int, head as int),
        head < u64::MAX,
    ensures
        final(wm).spec_current() as int == tick_step(
            old(wm).spec_current() as int,
            TickView { head: head as int, ok: query is Ok },
        ),
        query is Err ==> final(wm).spec_current() == old(wm).spec_current() && out.records@.len()
            == 0 && out.plans@.len() == 0,
        query matches Ok(logs) ==> {
            &&& final(wm).spec_current() == head + 1
            &&& out.records@.len() == logs@.len()
            &&& out.plans@.len() == logs@.len()
            &&& forall|i: int|
                0 <= i < logs@.len() ==> #[trigger] out.records@[i].model() == spec_normalize(
                    logs@[i].model(),
                    chain_id,
                    chain_name@,
                    contract_address@,
                    opt_str_view(*event_signature),
                    out.records@[i].model().timestamp,
                )
            &&& forall|i: int|
                0 <= i < logs@.len() ==> deliveries_view(#[trigger] out.plans@[i]@) == spec_plan(
                    sinks@,
                    out.records@[i].model(),
                )
        },
{
    match query {
        Ok(logs) => {
            let mut records: Vec<EventData> = Vec::new();
            let mut plans: Vec<Vec<Delivery>> = Vec::new();
            let n = logs.len();
            let mut i: usize = 0;
            while i < n
                invariant
                    n == logs@.len(),
                    i <= n,
                    records@.len() == i,
                    plans@.len() == i,
                    forall|k: int|
                        0 <= k < i ==> #[trigger] records@[k].model() == spec_normalize(
                            logs@[k].model(),
                            chain_id,
                            chain_name@,
                            contract_address@,
                            opt_str_view(*event_signature),
                            records@[k].model().timestamp,
                        ),
                    forall|k: int|
                        0 <= k < i ==> deliveries_view(#[trigger] plans@[k]@) == spec_plan(
                            sinks@,
                            records@[k].model(),
                        ),
                decreases n - i,
            {
                let e = observe(&logs[i], chain_id, chain_name, contract_address, event_signature);
                let plan = dispatch_plan(&e, sinks);
                records.push(e);
                plans.push(plan);
                i += 1;
            }
            settle_tick(wm, head, true);
            TickOutput { records, plans }
        },
        Err(_) => {
            settle_tick(wm, head, false);
            TickOutput { records: Vec::new(), plans: Vec::new() }
        },
    }
}

} // verus!

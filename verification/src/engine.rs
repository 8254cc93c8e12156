use vstd::prelude::*;

use crate::watermark::Watermark;

verus! {

/// One inclusive block range to query, `[from_block, to_block]`.
#[derive(Clone, Copy, Debug, PartialEq, Eq, Structural)]
pub struct QueryRange {
    pub from_block: u64,
    pub to_block: u64,
}

/// What one polling tick observed: the chain head at the start of the tick,
/// and whether the query (if one was issued) came back successfully.
pub ghost struct TickView {
    pub head: int,
    pub ok: bool,
}

/// A tick issues a query exactly when the head has reached the watermark, so
/// the range `[watermark, head]` is non-empty.
pub open spec fn tick_issues(wm: int, head: int) -> bool {
    head >= wm
}

/// The range a tick queries when it issues one.
pub open spec fn tick_range(wm: int, head: int) -> QueryRange
    recommends
        0 <= wm <= head <= u64::MAX,
{
    QueryRange { from_block: wm as u64, to_block: head as u64 }
}

/// The watermark after one tick: it moves to `head + 1` when a query was
/// issued and succeeded, and stays put otherwise.
pub open spec fn tick_step(wm: int, t: TickView) -> int {
    if tick_issues(wm, t.head) && t.ok {
        t.head + 1
    } else {
        wm
    }
}

/// The watermark after a whole sequence of ticks.
pub open spec fn wm_after(wm0: int, ticks: Seq<TickView>) -> int
    decreases ticks.len(),
{
    if ticks.len() == 0 {
        wm0
    } else {
        tick_step(wm_after(wm0, ticks.drop_last()), ticks.last())
    }
}

/// Decide whether the current tick queries at all, and for which range.
/// `None` means the head has not reached the watermark: no new blocks.
pub fn plan_tick(wm: &Watermark, head: u64) -> (r: Option<QueryRange>)
    ensures
        r is Some <==> tick_issues(wm.spec_current() as int, head as int),
        r is Some ==> r->0 == tick_range(wm.spec_current() as int, head as int),
{
    if head >= wm.current() {
        Some(QueryRange { from_block: wm.current(), to_block: head })
    } else {
        None
    }
}

/// Settle the watermark at the end of a tick: advance past the queried head
/// exactly when the query succeeded.  The new cursor value is `tick_step` of
/// the old one, so the trace lemmas below describe every run of this function.
pub fn settle_tick(wm: &mut Watermark, head: u64, query_ok: bool)
    requires
        head < u64::MAX,
    ensures
        final(wm).spec_current() as int == tick_step(
            old(wm).spec_current() as int,
            TickView { head: head as int, ok: query_ok },
        ),
{
    if query_ok && head >= wm.current() {
        let r = wm.advance_to(head + 1);
        proof {
            assert(r is Ok);
        }
    }
}

/// The watermark never moves backwards in one tick.
pub proof fn lemma_step_monotone(wm: int, t: TickView)
    ensures
        tick_step(wm, t) >= wm,
{
}

/// A tick either leaves the watermark alone or sets it to exactly one past
/// the head it queried, so the cursor never outruns the observed chain head
/// by more than one block.
pub proof fn lemma_step_bound(wm: int, t: TickView)
    ensures
        tick_step(wm, t) == wm || tick_step(wm, t) == t.head + 1,
{
}

/// Over any sequence of ticks, the watermark never decreases: the cursor
/// after any earlier prefix is at most the cursor after any later prefix.
pub proof fn lemma_watermark_monotone(wm0: int, ticks: Seq<TickView>, i: int, j: int)
    requires
        0 <= i <= j <= ticks.len(),
    ensures
        wm_after(wm0, ticks.take(i)) <= wm_after(wm0, ticks.take(j)),
    decreases j - i,
{
    if i < j {
        lemma_watermark_monotone(wm0, ticks, i, j - 1);
        assert(ticks.take(j).drop_last() =~= ticks.take(j - 1));
        assert(ticks.take(j).last() == ticks[j - 1]);
        lemma_step_monotone(wm_after(wm0, ticks.take(j - 1)), ticks[j - 1]);
    }
}

/// If the tick's query fails, the watermark after the tick equals the
/// watermark before it, so the same range is retried.
pub proof fn lemma_failed_query_preserves_watermark(wm0: int, ticks: Seq<TickView>)
    requires
        ticks.len() > 0,
        !ticks.last().ok,
    ensures
        wm_after(wm0, ticks) == wm_after(wm0, ticks.drop_last()),
{
}

/// Ticks that issue no query leave the watermark where it was.
proof fn lemma_quiet_segment_preserves_watermark(wm0: int, ticks: Seq<TickView>, a: int, b: int)
    requires
        0 <= a <= b <= ticks.len(),
        forall|k: int|
            a <= k < b ==> !tick_issues(wm_after(wm0, ticks.take(k)), ticks[k].head),
    ensures
        wm_after(wm0, ticks.take(b)) == wm_after(wm0, ticks.take(a)),
    decreases b - a,
{
    if a < b {
        lemma_quiet_segment_preserves_watermark(wm0, ticks, a, b - 1);
        assert(ticks.take(b).drop_last() =~= ticks.take(b - 1));
        assert(ticks.take(b).last() == ticks[b - 1]);
    }
}

/// Query ranges are contiguous and non-overlapping: when the query of tick
/// `i` was issued and succeeded, and tick `j` is the next tick to issue a
/// query, then that query's range begins exactly one block after tick `i`'s
/// range ended.
pub proof fn lemma_ranges_contiguous(wm0: int, ticks: Seq<TickView>, i: int, j: int)
    requires
        0 <= wm0,
        0 <= i < j < ticks.len(),
        ticks[i].head < u64::MAX,
        tick_issues(wm_after(wm0, ticks.take(i)), ticks[i].head),
        ticks[i].ok,
        forall|k: int|
            i < k < j ==> !tick_issues(wm_after(wm0, ticks.take(k)), ticks[k].head),
        tick_issues(wm_after(wm0, ticks.take(j)), ticks[j].head),
    ensures
        ({
            let wm_i = wm_after(wm0, ticks.take(i));
            let wm_j = wm_after(wm0, ticks.take(j));
            wm_j == ticks[i].head + 1 && tick_range(wm_j, ticks[j].head).from_block as int
                == tick_range(wm_i, ticks[i].head).to_block as int + 1
        }),
{
    assert(ticks.take(i + 1).drop_last() =~= ticks.take(i));
    assert(ticks.take(i + 1).last() == ticks[i]);
    assert(wm_after(wm0, ticks.take(i + 1)) == ticks[i].head + 1);
    lemma_quiet_segment_preserves_watermark(wm0, ticks, i + 1, j);
    assert(ticks.take(0) =~= Seq::<TickView>::empty());
    lemma_watermark_monotone(wm0, ticks, 0, i);
}

} // verus!

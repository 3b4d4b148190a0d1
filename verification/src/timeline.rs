//! The scheduler over time: what holds of every course of questions and
//! reports that a scheduler may be put through.

use crate::scan::EndView;
use crate::scheduler::{scan_finished_spec, tick_spec, Directive, SchedulerState, SchedulerView};
use vstd::prelude::*;

verus! {

/// One thing that happens to a scheduler.
pub enum Input {
    /// It is asked what to do, at the time `now` and with this word on a
    /// shutdown request.
    Tick { now: nat, shutdown: bool },
    /// It is told that the scan ended.
    ScanEnded { end: EndView },
}

/// The state of a scheduler after one input.
pub open spec fn feed(scheduler: SchedulerView, input: Input) -> SchedulerView {
    match input {
        Input::Tick { now, shutdown } => tick_spec(scheduler, now, shutdown).0,
        Input::ScanEnded { end } => scan_finished_spec(scheduler, end),
    }
}

/// The state of a scheduler after the first `count` of the inputs.
pub open spec fn state_after(
    scheduler: SchedulerView,
    inputs: Seq<Input>,
    count: int,
) -> SchedulerView
    decreases count,
{
    if count <= 0 {
        scheduler
    } else {
        feed(state_after(scheduler, inputs, count - 1), inputs[count - 1])
    }
}

/// Whether the input with index `i` is a question that the scheduler answers
/// by starting a scan.
pub open spec fn starts_scan_at(scheduler: SchedulerView, inputs: Seq<Input>, i: int) -> bool {
    &&& 0 <= i < inputs.len()
    &&& inputs[i] matches Input::Tick { now, shutdown }
    &&& tick_spec(state_after(scheduler, inputs, i), now, shutdown).1 == Directive::StartScan
}

/// Whether the clock never runs backwards from one question to a later one.
pub open spec fn time_flows(inputs: Seq<Input>) -> bool {
    forall|a: int, b: int|
        0 <= a <= b < inputs.len() && (#[trigger] inputs[a]) is Tick && (#[trigger] inputs[
            b
        ]) is Tick ==> inputs[a]->now <= inputs[b]->now
}

/// From the start of a scan until the report of its end the scheduler is
/// scanning.
proof fn lemma_scanning_until_end(scheduler: SchedulerView, inputs: Seq<Input>, i: int, k: int)
    requires
        starts_scan_at(scheduler, inputs, i),
        i < k <= inputs.len(),
        forall|m: int| i < m < k ==> !((#[trigger] inputs[m]) is ScanEnded),
    ensures
        state_after(scheduler, inputs, k).state == SchedulerState::Scanning,
    decreases k - i,
{
    if k > i + 1 {
        lemma_scanning_until_end(scheduler, inputs, i, k - 1);
        assert(inputs[k - 1] is Tick);
    }
}

/// Once a scan has started, the scheduler keeps the time of a question that
/// started a scan, that one or a later one, as the start of its last scan.
/// Gives the index of that question.
proof fn lemma_last_start_is_recent(
    scheduler: SchedulerView,
    inputs: Seq<Input>,
    i: int,
    k: int,
) -> (m: int)
    requires
        starts_scan_at(scheduler, inputs, i),
        i < k <= inputs.len(),
    ensures
        i <= m < k,
        inputs[m] is Tick,
        state_after(scheduler, inputs, k).last_start == Some(inputs[m]->now),
    decreases k - i,
{
    if k == i + 1 {
        i
    } else {
        let m = lemma_last_start_is_recent(scheduler, inputs, i, k - 1);
        if starts_scan_at(scheduler, inputs, k - 1) {
            k - 1
        } else {
            m
        }
    }
}

/// A stopped scheduler stays stopped.
proof fn lemma_stopped_for_good(scheduler: SchedulerView, inputs: Seq<Input>, i: int, k: int)
    requires
        0 <= i <= k <= inputs.len(),
        state_after(scheduler, inputs, i).state == SchedulerState::Stopped,
    ensures
        state_after(scheduler, inputs, k).state == SchedulerState::Stopped,
    decreases k - i,
{
    if k > i {
        lemma_stopped_for_good(scheduler, inputs, i, k - 1);
    }
}

/// The scan interval bounds the gap between the starts of scans: whatever the
/// scheduler is put through, while the clock does not run backwards, each
/// scan starts at least the scan interval after the start of every scan
/// before it, however long the scans took.
pub proof fn law_starts_keep_the_interval(
    scheduler: SchedulerView,
    inputs: Seq<Input>,
    i: int,
    j: int,
)
    requires
        time_flows(inputs),
        i < j,
        starts_scan_at(scheduler, inputs, i),
        starts_scan_at(scheduler, inputs, j),
    ensures
        inputs[j]->now >= inputs[i]->now + scheduler.interval,
{
    let m = lemma_last_start_is_recent(scheduler, inputs, i, j);
    lemma_interval_is_kept(scheduler, inputs, j);
    assert(inputs[i]->now <= inputs[m]->now <= inputs[j]->now);
}

/// The scan interval of a scheduler never changes.
proof fn lemma_interval_is_kept(scheduler: SchedulerView, inputs: Seq<Input>, k: int)
    requires
        k <= inputs.len(),
    ensures
        state_after(scheduler, inputs, k).interval == scheduler.interval,
    decreases k,
{
    if k > 0 {
        lemma_interval_is_kept(scheduler, inputs, k - 1);
    }
}

/// No two scans run at once: between the starts of two scans the scheduler
/// was told that a scan ended.
pub proof fn law_scans_do_not_overlap(
    scheduler: SchedulerView,
    inputs: Seq<Input>,
    i: int,
    j: int,
)
    requires
        i < j,
        starts_scan_at(scheduler, inputs, i),
        starts_scan_at(scheduler, inputs, j),
    ensures
        exists|k: int| i < k < j && (#[trigger] inputs[k]) is ScanEnded,
{
    if !(exists|k: int| i < k < j && (#[trigger] inputs[k]) is ScanEnded) {
        lemma_scanning_until_end(scheduler, inputs, i, j);
    }
}

/// A shutdown request that reaches the scheduler between scans ends the
/// monitor: from the question that carries it, the scheduler starts no scan
/// again, not even one that is due.
pub proof fn law_no_scan_after_shutdown(
    scheduler: SchedulerView,
    inputs: Seq<Input>,
    i: int,
    j: int,
)
    requires
        0 <= i <= j < inputs.len(),
        inputs[i] is Tick,
        inputs[i]->shutdown,
        state_after(scheduler, inputs, i).state != SchedulerState::Scanning,
    ensures
        !starts_scan_at(scheduler, inputs, j),
        state_after(scheduler, inputs, j + 1).state == SchedulerState::Stopped,
{
    assert(state_after(scheduler, inputs, i + 1).state == SchedulerState::Stopped);
    lemma_stopped_for_good(scheduler, inputs, i + 1, j + 1);
    if j > i {
        lemma_stopped_for_good(scheduler, inputs, i + 1, j);
    }
}

} // verus!

//! Whole scans: the actions of a scan from its start to its end, and what
//! holds of them.
//!
//! A scan is driven by answering its pending action, again and again. Given
//! what the targets and the alert sink will answer, the actions that the scan
//! asks for are determined: [`run`] lists them by stepping the state machine,
//! [`script`] lists them target by target, and the two agree. The laws at
//! the end of the file are read off the script.

use crate::probe::{alert_body, alert_summary, failure_code, TransportOutcome};
use crate::scan::{
    begin_spec, next, pending_spec, settle, ActionView, EndView, EventView, PhaseView, ScanView,
};
use vstd::prelude::*;

verus! {

/// What the world answers during one scan: for each target, by its index,
/// the outcome of its probe and the answer of the alert sink, should it be
/// asked. `None` from the sink says that the alert was shown, `Some` gives
/// the reason why it was not.
pub struct Replies {
    pub probes: Seq<TransportOutcome>,
    pub sink: Seq<Option<Seq<char>>>,
}

/// The event that answers the pending action of a scan.
pub open spec fn reply(replies: Replies, scan: ScanView) -> EventView {
    match scan.phase {
        PhaseView::Probing => EventView::Probed(replies.probes[scan.cursor as int]),
        PhaseView::Alerting { .. } => EventView::Notified(replies.sink[scan.cursor as int]),
        _ => EventView::Paused,
    }
}

/// A bound on the number of events that a scan can still take.
pub open spec fn steps_left(scan: ScanView) -> nat {
    let targets_left = (scan.targets.len() - scan.cursor) as nat;
    if scan.cursor >= scan.targets.len() {
        0
    } else {
        match scan.phase {
            PhaseView::Probing => 3 * targets_left,
            PhaseView::Alerting { .. } => (3 * targets_left - 1) as nat,
            PhaseView::Pacing => (3 * targets_left - 2) as nat,
            PhaseView::Finished { .. } => 0,
        }
    }
}

/// The sequence that begins with `first` and goes on with `rest`.
pub open spec fn then(first: ActionView, rest: Seq<ActionView>) -> Seq<ActionView> {
    seq![first] + rest
}

/// The actions that a scan asks for, from its pending action to its end,
/// when each is answered with the reply that `replies` holds for it.
pub open spec fn run(replies: Replies, scan: ScanView) -> Seq<ActionView>
    decreases steps_left(scan),
{
    if scan.phase is Finished || scan.cursor >= scan.targets.len() {
        seq![pending_spec(scan)]
    } else {
        then(pending_spec(scan), run(replies, next(scan, reply(replies, scan))))
    }
}

/// The request for the target with index `i`.
pub open spec fn probe_of(
    targets: Seq<Seq<char>>,
    headers: Seq<(Seq<char>, Seq<char>)>,
    i: int,
) -> ActionView {
    ActionView::Probe { url: targets[i], headers }
}

/// The alert for the target with index `i`, failed with `code`.
pub open spec fn alert_of(targets: Seq<Seq<char>>, i: int, code: u16) -> ActionView {
    ActionView::Notify { summary: alert_summary(targets[i]), body: alert_body(code) }
}

/// The actions of a scan from the target with index `from` on, told target
/// by target: the probe; the alert, if the probe failed; the end of the scan,
/// if the alert could not be shown; else a pause, if a further target follows
/// and there is a pause to make; then the same for the next target. After the
/// last target the scan ends, complete.
pub open spec fn script(
    replies: Replies,
    targets: Seq<Seq<char>>,
    headers: Seq<(Seq<char>, Seq<char>)>,
    pace: nat,
    from: int,
) -> Seq<ActionView>
    decreases targets.len() - from,
{
    if from < 0 || from >= targets.len() {
        seq![ActionView::Finish { end: EndView::Completed }]
    } else {
        let later = script(replies, targets, headers, pace, from + 1);
        let onward = if from + 1 < targets.len() && pace > 0 {
            then(ActionView::Pause { nanos: pace }, later)
        } else {
            later
        };
        then(
            probe_of(targets, headers, from),
            match failure_code(replies.probes[from]) {
                None => onward,
                Some(code) => then(
                    alert_of(targets, from, code),
                    match replies.sink[from] {
                        None => onward,
                        Some(reason) => seq![
                            ActionView::Finish { end: EndView::SinkFailed(reason) },
                        ],
                    },
                ),
            },
        )
    }
}

/// Whether the alert sink shows every alert that the scan of `count` targets
/// asks for.
pub open spec fn sink_holds(replies: Replies, count: int) -> bool {
    forall|i: int|
        0 <= i < count && failure_code(#[trigger] replies.probes[i]) is Some
            ==> replies.sink[i] is None
}

/// The test for a request.
pub open spec fn probe_test() -> spec_fn(ActionView) -> bool {
    |a: ActionView| a is Probe
}

/// The test for a pause.
pub open spec fn pause_test() -> spec_fn(ActionView) -> bool {
    |a: ActionView| a is Pause
}

/// The test for an alert.
pub open spec fn alert_test() -> spec_fn(ActionView) -> bool {
    |a: ActionView| a is Notify
}

/// The test for a request or a pause.
pub open spec fn cadence_test() -> spec_fn(ActionView) -> bool {
    |a: ActionView| a is Probe || a is Pause
}

/// The requests among the actions, in order.
pub open spec fn probes_in(actions: Seq<ActionView>) -> Seq<ActionView> {
    actions.filter(probe_test())
}

/// The pauses among the actions, in order.
pub open spec fn pauses_in(actions: Seq<ActionView>) -> Seq<ActionView> {
    actions.filter(pause_test())
}

/// The alerts among the actions, in order.
pub open spec fn alerts_in(actions: Seq<ActionView>) -> Seq<ActionView> {
    actions.filter(alert_test())
}

/// The requests and pauses among the actions, in order.
pub open spec fn cadence_in(actions: Seq<ActionView>) -> Seq<ActionView> {
    actions.filter(cadence_test())
}

/// The requests for the targets from index `from` on, with one pause between
/// each two where there is a pause to make.
pub open spec fn paced(
    targets: Seq<Seq<char>>,
    headers: Seq<(Seq<char>, Seq<char>)>,
    pace: nat,
    from: int,
) -> Seq<ActionView>
    decreases targets.len() - from,
{
    if from < 0 || from >= targets.len() {
        Seq::empty()
    } else if from + 1 < targets.len() && pace > 0 {
        then(
            probe_of(targets, headers, from),
            then(ActionView::Pause { nanos: pace }, paced(targets, headers, pace, from + 1)),
        )
    } else {
        then(probe_of(targets, headers, from), paced(targets, headers, pace, from + 1))
    }
}

/// The alerts for the targets from index `from` on whose probes fail.
pub open spec fn alerts_due(replies: Replies, targets: Seq<Seq<char>>, from: int) -> Seq<
    ActionView,
>
    decreases targets.len() - from,
{
    if from < 0 || from >= targets.len() {
        Seq::empty()
    } else {
        match failure_code(replies.probes[from]) {
            None => alerts_due(replies, targets, from + 1),
            Some(code) => then(
                alert_of(targets, from, code),
                alerts_due(replies, targets, from + 1),
            ),
        }
    }
}

/// The number of pauses in a scan of `count` targets: one between each two,
/// where there is a pause to make.
pub open spec fn gaps(count: int, pace: nat) -> nat {
    if pace > 0 && count >= 1 {
        (count - 1) as nat
    } else {
        0
    }
}

/// The requests for the targets with the indices from `from` up to, but not
/// including, `to`.
pub open spec fn probes_of(
    targets: Seq<Seq<char>>,
    headers: Seq<(Seq<char>, Seq<char>)>,
    from: int,
    to: int,
) -> Seq<ActionView> {
    Seq::new((to - from) as nat, |k: int| probe_of(targets, headers, from + k))
}

/// As many pauses of `pace` nanoseconds as `count` says.
pub open spec fn pauses_of(count: nat, pace: nat) -> Seq<ActionView> {
    Seq::new(count, |k: int| ActionView::Pause { nanos: pace })
}

/// Filtering keeps or drops the first of a sequence and filters the rest.
proof fn lemma_filter_then(
    first: ActionView,
    rest: Seq<ActionView>,
    keep: spec_fn(ActionView) -> bool,
)
    ensures
        then(first, rest).filter(keep) == if keep(first) {
            then(first, rest.filter(keep))
        } else {
            rest.filter(keep)
        },
{
    reveal_with_fuel(Seq::filter, 2);
    let one = seq![first];
    assert(one.drop_last() == Seq::<ActionView>::empty());
    assert(one.filter(keep) == if keep(first) {
        one
    } else {
        Seq::empty()
    });
    Seq::filter_distributes_over_add(one, rest, keep);
    assert(Seq::<ActionView>::empty() + rest.filter(keep) == rest.filter(keep));
}

/// Filtering a single action keeps it or leaves nothing.
proof fn lemma_filter_one(only: ActionView, keep: spec_fn(ActionView) -> bool)
    ensures
        seq![only].filter(keep) == if keep(only) {
            seq![only]
        } else {
            Seq::empty()
        },
{
    reveal_with_fuel(Seq::filter, 2);
    assert(seq![only].drop_last() == Seq::<ActionView>::empty());
}

/// A scan that is probing the target under its cursor goes on as the script
/// says from that target.
proof fn lemma_run_probing(replies: Replies, scan: ScanView)
    requires
        scan.phase is Probing,
        scan.cursor < scan.targets.len(),
    ensures
        run(replies, scan) == script(
            replies,
            scan.targets,
            scan.headers,
            scan.pace,
            scan.cursor as int,
        ),
    decreases scan.targets.len() - scan.cursor, 1nat,
{
    let i = scan.cursor as int;
    let probed = next(scan, reply(replies, scan));
    match failure_code(replies.probes[i]) {
        None => {
            lemma_run_settled(replies, scan);
        },
        Some(code) => {
            assert(probed.phase == PhaseView::Alerting { url: scan.targets[i], code });
            assert(run(replies, probed) == then(
                pending_spec(probed),
                run(replies, next(probed, reply(replies, probed))),
            ));
            match replies.sink[i] {
                None => {
                    lemma_run_settled(replies, probed);
                },
                Some(reason) => {
                    let ended = next(probed, reply(replies, probed));
                    assert(ended.phase == PhaseView::Finished {
                        end: EndView::SinkFailed(reason),
                    });
                },
            }
        },
    }
}

/// Once the target under the cursor is dealt with, the scan goes on with the
/// pause that the script makes there, if any, and then as the script says
/// from the next target.
proof fn lemma_run_settled(replies: Replies, scan: ScanView)
    requires
        !(scan.phase is Finished),
        scan.cursor < scan.targets.len(),
    ensures
        run(replies, settle(scan)) == {
            let later = script(
                replies,
                scan.targets,
                scan.headers,
                scan.pace,
                scan.cursor as int + 1,
            );
            if scan.cursor + 1 < scan.targets.len() && scan.pace > 0 {
                then(ActionView::Pause { nanos: scan.pace }, later)
            } else {
                later
            }
        },
    decreases scan.targets.len() - scan.cursor, 0nat,
{
    let settled = settle(scan);
    if scan.cursor + 1 >= scan.targets.len() {
        assert(settled.phase == PhaseView::Finished { end: EndView::Completed });
    } else if scan.pace > 0 {
        let resumed = next(settled, reply(replies, settled));
        assert(resumed.phase is Probing && resumed.cursor == scan.cursor + 1);
        lemma_run_probing(replies, resumed);
    } else {
        lemma_run_probing(replies, settled);
    }
}

/// The actions of a scan are those of the script: a scan that starts with a
/// target list asks, from its first action to its last, for what the script
/// lists from the first target on.
pub proof fn law_run_follows_script(
    replies: Replies,
    targets: Seq<Seq<char>>,
    headers: Seq<(Seq<char>, Seq<char>)>,
    pace: nat,
)
    ensures
        run(replies, begin_spec(Ok(targets), headers, pace)) == script(
            replies,
            targets,
            headers,
            pace,
            0,
        ),
{
    let scan = begin_spec(Ok(targets), headers, pace);
    if targets.len() > 0 {
        lemma_run_probing(replies, scan);
    }
}

/// A scan without a target list asks for nothing but to finish with the
/// reason why the list could not be read: no request is sent and no alert is
/// shown.
pub proof fn law_unreadable_source_ends_scan(
    replies: Replies,
    reason: Seq<char>,
    headers: Seq<(Seq<char>, Seq<char>)>,
    pace: nat,
)
    ensures
        run(replies, begin_spec(Err(reason), headers, pace)) == seq![
            ActionView::Finish { end: EndView::SourceFailed(reason) },
        ],
{
}

/// What is kept of each first action of a sequence when the sequence is
/// filtered.
proof fn lemma_filter_steps(keep: spec_fn(ActionView) -> bool)
    ensures
        forall|first: ActionView, rest: Seq<ActionView>| #[trigger]
            then(first, rest).filter(keep) == if keep(first) {
                then(first, rest.filter(keep))
            } else {
                rest.filter(keep)
            },
        forall|only: ActionView| #[trigger]
            seq![only].filter(keep) == if keep(only) {
                seq![only]
            } else {
                Seq::empty()
            },
{
    assert forall|first: ActionView, rest: Seq<ActionView>| #[trigger]
        then(first, rest).filter(keep) == if keep(first) {
            then(first, rest.filter(keep))
        } else {
            rest.filter(keep)
        } by {
        lemma_filter_then(first, rest, keep);
    }
    assert forall|only: ActionView| #[trigger]
        seq![only].filter(keep) == if keep(only) {
            seq![only]
        } else {
            Seq::empty()
        } by {
        lemma_filter_one(only, keep);
    }
}

/// A sequence that goes on after its first action ends as the rest ends.
proof fn lemma_then_last(first: ActionView, rest: Seq<ActionView>)
    requires
        rest.len() > 0,
    ensures
        then(first, rest).len() == rest.len() + 1,
        then(first, rest).last() == rest.last(),
{
}

/// While the alert sink holds, the script ends with the scan complete.
proof fn lemma_script_ends_complete(
    replies: Replies,
    targets: Seq<Seq<char>>,
    headers: Seq<(Seq<char>, Seq<char>)>,
    pace: nat,
    from: int,
)
    requires
        0 <= from <= targets.len(),
        sink_holds(replies, targets.len() as int),
    ensures
        script(replies, targets, headers, pace, from).len() > 0,
        script(replies, targets, headers, pace, from).last() == (ActionView::Finish {
            end: EndView::Completed,
        }),
    decreases targets.len() - from,
{
    if from < targets.len() {
        lemma_script_ends_complete(replies, targets, headers, pace, from + 1);
        let later = script(replies, targets, headers, pace, from + 1);
        let pause = ActionView::Pause { nanos: pace };
        let onward = if from + 1 < targets.len() && pace > 0 {
            then(pause, later)
        } else {
            later
        };
        let code = failure_code(replies.probes[from]);
        lemma_then_last(pause, later);
        if code is Some {
            lemma_then_last(alert_of(targets, from, code->Some_0), onward);
            lemma_then_last(
                probe_of(targets, headers, from),
                then(alert_of(targets, from, code->Some_0), onward),
            );
        } else {
            lemma_then_last(probe_of(targets, headers, from), onward);
        }
    }
}

/// While the alert sink holds, the script asks for one request for each
/// target that is left.
proof fn lemma_script_probes(
    replies: Replies,
    targets: Seq<Seq<char>>,
    headers: Seq<(Seq<char>, Seq<char>)>,
    pace: nat,
    from: int,
)
    requires
        0 <= from <= targets.len(),
        sink_holds(replies, targets.len() as int),
    ensures
        probes_in(script(replies, targets, headers, pace, from)) == probes_of(
            targets,
            headers,
            from,
            targets.len() as int,
        ),
    decreases targets.len() - from,
{
    lemma_filter_steps(probe_test());
    if from < targets.len() {
        lemma_script_probes(replies, targets, headers, pace, from + 1);
        let later = probes_of(targets, headers, from + 1, targets.len() as int);
        assert(then(probe_of(targets, headers, from), later) =~= probes_of(
            targets,
            headers,
            from,
            targets.len() as int,
        ));
    } else {
        assert(probes_of(targets, headers, from, targets.len() as int) =~= Seq::empty());
    }
}

/// While the alert sink holds, the script asks for one pause after each
/// target but the last, where there is a pause to make, and for none
/// otherwise.
proof fn lemma_script_pauses(
    replies: Replies,
    targets: Seq<Seq<char>>,
    headers: Seq<(Seq<char>, Seq<char>)>,
    pace: nat,
    from: int,
)
    requires
        0 <= from <= targets.len(),
        sink_holds(replies, targets.len() as int),
    ensures
        pauses_in(script(replies, targets, headers, pace, from)) == pauses_of(
            gaps(targets.len() - from, pace),
            pace,
        ),
    decreases targets.len() - from,
{
    lemma_filter_steps(pause_test());
    if from < targets.len() {
        lemma_script_pauses(replies, targets, headers, pace, from + 1);
        let later = pauses_of(gaps(targets.len() - from - 1, pace), pace);
        if from + 1 < targets.len() && pace > 0 {
            assert(then(ActionView::Pause { nanos: pace }, later) =~= pauses_of(
                gaps(targets.len() - from, pace),
                pace,
            ));
        } else {
            assert(later =~= pauses_of(gaps(targets.len() - from, pace), pace));
        }
    } else {
        assert(pauses_of(gaps(targets.len() - from, pace), pace) =~= Seq::empty());
    }
}

/// While the alert sink holds, the requests and pauses of the script are the
/// requests for the targets that are left, with one pause between each two.
proof fn lemma_script_cadence(
    replies: Replies,
    targets: Seq<Seq<char>>,
    headers: Seq<(Seq<char>, Seq<char>)>,
    pace: nat,
    from: int,
)
    requires
        0 <= from <= targets.len(),
        sink_holds(replies, targets.len() as int),
    ensures
        cadence_in(script(replies, targets, headers, pace, from)) == paced(
            targets,
            headers,
            pace,
            from,
        ),
    decreases targets.len() - from,
{
    lemma_filter_steps(cadence_test());
    if from < targets.len() {
        lemma_script_cadence(replies, targets, headers, pace, from + 1);
    }
}

/// While the alert sink holds, the alerts of the script are those for the
/// failing targets among the ones that are left.
proof fn lemma_script_alerts(
    replies: Replies,
    targets: Seq<Seq<char>>,
    headers: Seq<(Seq<char>, Seq<char>)>,
    pace: nat,
    from: int,
)
    requires
        0 <= from <= targets.len(),
        sink_holds(replies, targets.len() as int),
    ensures
        alerts_in(script(replies, targets, headers, pace, from)) == alerts_due(
            replies,
            targets,
            from,
        ),
    decreases targets.len() - from,
{
    lemma_filter_steps(alert_test());
    if from < targets.len() {
        lemma_script_alerts(replies, targets, headers, pace, from + 1);
    }
}

/// Where the alert sink first fails at the target with index `failed`, the
/// script asks for the requests up to that target and for no later one.
proof fn lemma_script_cut_short(
    replies: Replies,
    targets: Seq<Seq<char>>,
    headers: Seq<(Seq<char>, Seq<char>)>,
    pace: nat,
    from: int,
    failed: int,
)
    requires
        0 <= from <= failed < targets.len(),
        sink_holds(replies, failed),
        failure_code(replies.probes[failed]) is Some,
        replies.sink[failed] is Some,
    ensures
        probes_in(script(replies, targets, headers, pace, from)) == probes_of(
            targets,
            headers,
            from,
            failed + 1,
        ),
    decreases failed - from,
{
    lemma_filter_steps(probe_test());
    if from < failed {
        lemma_script_cut_short(replies, targets, headers, pace, from + 1, failed);
        let later = probes_of(targets, headers, from + 1, failed + 1);
        assert(then(probe_of(targets, headers, from), later) =~= probes_of(
            targets,
            headers,
            from,
            failed + 1,
        ));
    } else {
        assert(then(probe_of(targets, headers, from), Seq::empty()) =~= probes_of(
            targets,
            headers,
            from,
            failed + 1,
        ));
    }
}

/// Where the alert sink first fails at the target with index `failed`, the
/// script ends with the sink's failure.
proof fn lemma_script_ends_in_failure(
    replies: Replies,
    targets: Seq<Seq<char>>,
    headers: Seq<(Seq<char>, Seq<char>)>,
    pace: nat,
    from: int,
    failed: int,
    reason: Seq<char>,
)
    requires
        0 <= from <= failed < targets.len(),
        sink_holds(replies, failed),
        failure_code(replies.probes[failed]) is Some,
        replies.sink[failed] == Some(reason),
    ensures
        script(replies, targets, headers, pace, from).len() > 0,
        script(replies, targets, headers, pace, from).last() == (ActionView::Finish {
            end: EndView::SinkFailed(reason),
        }),
    decreases failed - from,
{
    let end = seq![ActionView::Finish { end: EndView::SinkFailed(reason) }];
    let code = failure_code(replies.probes[from]);
    if from < failed {
        lemma_script_ends_in_failure(replies, targets, headers, pace, from + 1, failed, reason);
        let later = script(replies, targets, headers, pace, from + 1);
        let pause = ActionView::Pause { nanos: pace };
        let onward = if pace > 0 {
            then(pause, later)
        } else {
            later
        };
        lemma_then_last(pause, later);
        if code is Some {
            lemma_then_last(alert_of(targets, from, code->Some_0), onward);
            lemma_then_last(
                probe_of(targets, headers, from),
                then(alert_of(targets, from, code->Some_0), onward),
            );
        } else {
            lemma_then_last(probe_of(targets, headers, from), onward);
        }
    } else {
        lemma_then_last(alert_of(targets, from, code->Some_0), end);
        lemma_then_last(
            probe_of(targets, headers, from),
            then(alert_of(targets, from, code->Some_0), end),
        );
    }
}

/// A scan probes every target once, in order, and pauses once between each
/// two requests, whatever the probes find, as long as the alert sink shows
/// what it is asked to show. Of a list of `n` targets there are `n` requests,
/// each for its target and with the configured headers in their order, and
/// `n - 1` pauses of the request interval, or none where the interval is
/// zero. Between two requests there is exactly one of these pauses. The scan
/// ends complete: a target that fails does not end it.
pub proof fn law_scan_cadence(
    replies: Replies,
    targets: Seq<Seq<char>>,
    headers: Seq<(Seq<char>, Seq<char>)>,
    pace: nat,
)
    requires
        sink_holds(replies, targets.len() as int),
    ensures
        ({
            let actions = run(replies, begin_spec(Ok(targets), headers, pace));
            &&& probes_in(actions) == probes_of(targets, headers, 0, targets.len() as int)
            &&& probes_in(actions).len() == targets.len()
            &&& pauses_in(actions) == pauses_of(gaps(targets.len() as int, pace), pace)
            &&& pauses_in(actions).len() == gaps(targets.len() as int, pace)
            &&& cadence_in(actions) == paced(targets, headers, pace, 0)
            &&& actions.last() == ActionView::Finish { end: EndView::Completed }
        }),
{
    law_run_follows_script(replies, targets, headers, pace);
    lemma_script_ends_complete(replies, targets, headers, pace, 0);
    lemma_script_probes(replies, targets, headers, pace, 0);
    lemma_script_pauses(replies, targets, headers, pace, 0);
    lemma_script_cadence(replies, targets, headers, pace, 0);
}

/// A scan asks for one alert for each target whose probe fails, in the order
/// of the targets, and for none for a target whose probe succeeds, as long as
/// the alert sink shows what it is asked to show.
pub proof fn law_alerts_follow_failures(
    replies: Replies,
    targets: Seq<Seq<char>>,
    headers: Seq<(Seq<char>, Seq<char>)>,
    pace: nat,
)
    requires
        sink_holds(replies, targets.len() as int),
    ensures
        alerts_in(run(replies, begin_spec(Ok(targets), headers, pace))) == alerts_due(
            replies,
            targets,
            0,
        ),
{
    law_run_follows_script(replies, targets, headers, pace);
    lemma_script_alerts(replies, targets, headers, pace, 0);
}

/// A failure of the alert sink ends the scan: where the sink first fails at
/// the target with index `failed`, the targets up to that one are probed, no
/// later one is, and the scan finishes with the sink's failure.
pub proof fn law_sink_failure_ends_scan(
    replies: Replies,
    targets: Seq<Seq<char>>,
    headers: Seq<(Seq<char>, Seq<char>)>,
    pace: nat,
    failed: int,
    reason: Seq<char>,
)
    requires
        0 <= failed < targets.len(),
        sink_holds(replies, failed),
        failure_code(replies.probes[failed]) is Some,
        replies.sink[failed] == Some(reason),
    ensures
        ({
            let actions = run(replies, begin_spec(Ok(targets), headers, pace));
            &&& probes_in(actions) == probes_of(targets, headers, 0, failed + 1)
            &&& actions.last() == ActionView::Finish { end: EndView::SinkFailed(reason) }
        }),
{
    law_run_follows_script(replies, targets, headers, pace);
    lemma_script_cut_short(replies, targets, headers, pace, 0, failed);
    lemma_script_ends_in_failure(replies, targets, headers, pace, 0, failed, reason);
}

} // verus!

//! One scan: a pass over the target list, probing each target in turn.
//!
//! The scan is a state machine. It never performs a request, shows an alert
//! or sleeps: at any moment it names the one thing to be done next, its
//! pending action, and it moves on when told how that went. The driver
//! performs the action and reports the event, until the pending action is to
//! finish.

use crate::config::{header_pairs, AdditionalRequestHeader, Configuration};
use crate::probe::{
    alert_body, alert_summary, failure_code, process_url, Alert, DownError, TransportOutcome,
};
use crate::request::ProbeRequest;
use crate::time::duration_nanos;
use std::time::Duration;
use vstd::prelude::*;

verus! {

/// Why a scan ended before its last target.
#[derive(Debug, Clone, PartialEq, Eq)]
pub enum ScanError {
    /// The target list could not be read. Holds the reason.
    TargetSource(String),
    /// The alert sink failed to deliver an alert. Holds the reason.
    AlertSink(String),
}

/// What the driver of a scan is to do next.
#[derive(Debug, PartialEq, Eq)]
pub enum ScanAction {
    /// Send the request and report `ScanEvent::Probed`.
    Probe(ProbeRequest),
    /// Show the alert and report `ScanEvent::Notified`.
    Notify(Alert),
    /// Sleep for the duration and report `ScanEvent::Paused`.
    Pause(Duration),
    /// The scan is over, with this result.
    Finish(Result<(), ScanError>),
}

/// How the pending action of a scan went.
#[derive(Debug, PartialEq, Eq)]
pub enum ScanEvent {
    /// The request was sent, with this outcome.
    Probed(TransportOutcome),
    /// The alert was shown, or the sink failed for the reason given.
    Notified(Result<(), String>),
    /// The pause is over.
    Paused,
}

/// How a scan ended.
pub enum EndView {
    /// Every target was probed.
    Completed,
    /// The target list could not be read.
    SourceFailed(Seq<char>),
    /// The alert sink failed.
    SinkFailed(Seq<char>),
}

/// A scan action as plain values.
pub enum ActionView {
    Probe { url: Seq<char>, headers: Seq<(Seq<char>, Seq<char>)> },
    Notify { summary: Seq<char>, body: Seq<char> },
    Pause { nanos: nat },
    Finish { end: EndView },
}

/// A scan event as plain values. For `Notified`, `None` says that the alert
/// was shown and `Some` holds the reason why it was not.
pub enum EventView {
    Probed(TransportOutcome),
    Notified(Option<Seq<char>>),
    Paused,
}

/// Where a scan stands with the target under its cursor.
pub enum PhaseView {
    /// Its probe is awaited.
    Probing,
    /// It failed with this code, and the answer of the alert sink, asked to
    /// show the failure of this URL, is awaited.
    Alerting { url: Seq<char>, code: u16 },
    /// It is dealt with, and the end of the pause before the next target is
    /// awaited.
    Pacing,
    /// The scan is over.
    Finished { end: EndView },
}

/// The state of a scan as plain values.
pub struct ScanView {
    /// The targets, in the order in which they are probed.
    pub targets: Seq<Seq<char>>,
    /// The headers that go with every request.
    pub headers: Seq<(Seq<char>, Seq<char>)>,
    /// The pause between two requests, in nanoseconds.
    pub pace: nat,
    /// The index of the target that the scan is busy with.
    pub cursor: nat,
    pub phase: PhaseView,
}

/// The texts of a list of strings.
pub open spec fn texts(strings: Seq<String>) -> Seq<Seq<char>> {
    Seq::new(strings.len(), |i: int| strings[i]@)
}

/// The result of a scan as plain values.
pub open spec fn end_view(result: Result<(), ScanError>) -> EndView {
    match result {
        Ok(()) => EndView::Completed,
        Err(ScanError::TargetSource(reason)) => EndView::SourceFailed(reason@),
        Err(ScanError::AlertSink(reason)) => EndView::SinkFailed(reason@),
    }
}

impl ScanAction {
    pub open spec fn view(&self) -> ActionView {
        match *self {
            ScanAction::Probe(request) => ActionView::Probe {
                url: request.url@,
                headers: header_pairs(request.headers@),
            },
            ScanAction::Notify(alert) => ActionView::Notify {
                summary: alert.summary@,
                body: alert.body@,
            },
            ScanAction::Pause(delay) => ActionView::Pause { nanos: duration_nanos(delay) },
            ScanAction::Finish(result) => ActionView::Finish { end: end_view(result) },
        }
    }
}

impl ScanEvent {
    pub open spec fn view(&self) -> EventView {
        match *self {
            ScanEvent::Probed(outcome) => EventView::Probed(outcome),
            ScanEvent::Notified(Ok(())) => EventView::Notified(None),
            ScanEvent::Notified(Err(reason)) => EventView::Notified(Some(reason@)),
            ScanEvent::Paused => EventView::Paused,
        }
    }
}

/// The state in which a scan starts. Without a target list it is over at
/// once, with the reason as its error; with an empty one it is over at once
/// too, and complete. Otherwise the first target is to be probed.
pub open spec fn begin_spec(
    source: Result<Seq<Seq<char>>, Seq<char>>,
    headers: Seq<(Seq<char>, Seq<char>)>,
    pace: nat,
) -> ScanView {
    match source {
        Err(reason) => ScanView {
            targets: Seq::empty(),
            headers,
            pace,
            cursor: 0,
            phase: PhaseView::Finished { end: EndView::SourceFailed(reason) },
        },
        Ok(targets) => ScanView {
            targets,
            headers,
            pace,
            cursor: 0,
            phase: if targets.len() == 0 {
                PhaseView::Finished { end: EndView::Completed }
            } else {
                PhaseView::Probing
            },
        },
    }
}

/// The action that a scan is waiting for.
pub open spec fn pending_spec(scan: ScanView) -> ActionView {
    match scan.phase {
        PhaseView::Probing => ActionView::Probe {
            url: scan.targets[scan.cursor as int],
            headers: scan.headers,
        },
        PhaseView::Alerting { url, code } => ActionView::Notify {
            summary: alert_summary(url),
            body: alert_body(code),
        },
        PhaseView::Pacing => ActionView::Pause { nanos: scan.pace },
        PhaseView::Finished { end } => ActionView::Finish { end },
    }
}

/// The state of a scan once the target under its cursor is dealt with: over
/// after the last target; else pausing, where there is a pause to make; else
/// probing the next target.
pub open spec fn settle(scan: ScanView) -> ScanView {
    if scan.cursor + 1 >= scan.targets.len() {
        ScanView { phase: PhaseView::Finished { end: EndView::Completed }, ..scan }
    } else if scan.pace > 0 {
        ScanView { phase: PhaseView::Pacing, ..scan }
    } else {
        ScanView { cursor: scan.cursor + 1, phase: PhaseView::Probing, ..scan }
    }
}

/// The state of a scan after an event. An event that does not answer the
/// pending action changes nothing.
pub open spec fn next(scan: ScanView, event: EventView) -> ScanView {
    match (scan.phase, event) {
        (PhaseView::Probing, EventView::Probed(outcome)) => match failure_code(outcome) {
            None => settle(scan),
            Some(code) => ScanView {
                phase: PhaseView::Alerting { url: scan.targets[scan.cursor as int], code },
                ..scan
            },
        },
        (PhaseView::Alerting { .. }, EventView::Notified(None)) => settle(scan),
        (PhaseView::Alerting { .. }, EventView::Notified(Some(reason))) => ScanView {
            phase: PhaseView::Finished { end: EndView::SinkFailed(reason) },
            ..scan
        },
        (PhaseView::Pacing, EventView::Paused) => ScanView {
            cursor: scan.cursor + 1,
            phase: PhaseView::Probing,
            ..scan
        },
        _ => scan,
    }
}

/// Whether a scan state can arise: while the scan is not over, its cursor is
/// on a target, and it pauses only before a further target.
pub open spec fn coherent(scan: ScanView) -> bool {
    match scan.phase {
        PhaseView::Finished { .. } => true,
        PhaseView::Pacing => scan.cursor + 1 < scan.targets.len(),
        _ => scan.cursor < scan.targets.len(),
    }
}

#[derive(Debug)]
enum Phase {
    Probing,
    Alerting(DownError),
    Pacing,
    Finished(Result<(), ScanError>),
}

impl Phase {
    spec fn view(&self) -> PhaseView {
        match *self {
            Phase::Probing => PhaseView::Probing,
            Phase::Alerting(down) => PhaseView::Alerting { url: down.url@, code: down.code@ },
            Phase::Pacing => PhaseView::Pacing,
            Phase::Finished(result) => PhaseView::Finished { end: end_view(result) },
        }
    }
}

/// A scan in progress.
#[derive(Debug)]
pub struct Scan {
    targets: Vec<String>,
    headers: Vec<AdditionalRequestHeader>,
    pace: Duration,
    cursor: usize,
    phase: Phase,
}

/// A copy of a list of headers.
fn copy_headers(headers: &Vec<AdditionalRequestHeader>) -> (copy: Vec<AdditionalRequestHeader>)
    ensures
        header_pairs(copy@) == header_pairs(headers@),
{
    let mut copy: Vec<AdditionalRequestHeader> = Vec::new();
    let mut i: usize = 0;
    while i < headers.len()
        invariant
            i <= headers.len(),
            copy.len() == i,
            forall|k: int| 0 <= k < i ==> copy[k].pair() == headers[k].pair(),
        decreases headers.len() - i,
    {
        copy.push(headers[i].duplicate());
        i = i + 1;
    }
    assert(header_pairs(copy@) =~= header_pairs(headers@));
    copy
}

/// A copy of a failure's reason.
fn copy_result(result: &Result<(), ScanError>) -> (copy: Result<(), ScanError>)
    ensures
        end_view(copy) == end_view(*result),
{
    match result {
        Ok(()) => Ok(()),
        Err(ScanError::TargetSource(reason)) => Err(ScanError::TargetSource(reason.clone())),
        Err(ScanError::AlertSink(reason)) => Err(ScanError::AlertSink(reason.clone())),
    }
}

impl Scan {
    #[verifier::type_invariant]
    spec fn well_formed(self) -> bool {
        coherent(self@)
    }

    /// The state of the scan as plain values.
    pub closed spec fn view(&self) -> ScanView {
        ScanView {
            targets: texts(self.targets@),
            headers: header_pairs(self.headers@),
            pace: duration_nanos(self.pace),
            cursor: self.cursor as nat,
            phase: self.phase.view(),
        }
    }

    /// Starts a scan of the targets that were read, or of none where they
    /// could not be read: `source` is the target list or the reason why there
    /// is none. The headers and the pause between requests are those of the
    /// configuration.
    pub fn begin(source: Result<Vec<String>, String>, config: &Configuration) -> (scan: Scan)
        ensures
            scan@ == begin_spec(
                match source {
                    Ok(targets) => Ok(texts(targets@)),
                    Err(reason) => Err(reason@),
                },
                header_pairs(config.custom_headers@),
                duration_nanos(config.request_interval),
            ),
            coherent(scan@),
    {
        let headers = copy_headers(&config.custom_headers);
        match source {
            Err(reason) => {
                let targets: Vec<String> = Vec::new();
                assert(texts(targets@) =~= Seq::<Seq<char>>::empty());
                Scan {
                    targets,
                    headers,
                    pace: config.request_interval,
                    cursor: 0,
                    phase: Phase::Finished(Err(ScanError::TargetSource(reason))),
                }
            },
            Ok(targets) => {
                let phase = if targets.len() == 0 {
                    Phase::Finished(Ok(()))
                } else {
                    Phase::Probing
                };
                Scan { targets, headers, pace: config.request_interval, cursor: 0, phase }
            },
        }
    }

    /// Whether the scan is over.
    pub fn is_finished(&self) -> (over: bool)
        ensures
            over == (self@.phase is Finished),
    {
        match &self.phase {
            Phase::Finished(_) => true,
            _ => false,
        }
    }

    /// The action that the scan is waiting for. It is a function of the
    /// state alone: asked twice, the scan answers the same.
    pub fn pending(&self) -> (action: ScanAction)
        ensures
            action@ == pending_spec(self@),
    {
        proof {
            use_type_invariant(self);
        }
        match &self.phase {
            Phase::Probing => ScanAction::Probe(
                ProbeRequest {
                    url: self.targets[self.cursor].clone(),
                    headers: copy_headers(&self.headers),
                },
            ),
            Phase::Alerting(down) => ScanAction::Notify(down.alert()),
            Phase::Pacing => ScanAction::Pause(self.pace),
            Phase::Finished(result) => ScanAction::Finish(copy_result(result)),
        }
    }

    /// Moves the scan on after the target under the cursor is dealt with.
    fn settle(&mut self)
        requires
            !(old(self)@.phase is Finished),
        ensures
            final(self)@ == settle(old(self)@),
    {
        proof {
            use_type_invariant(&*self);
            assert(self@.targets.len() == self.targets.len());
        }
        if self.cursor + 1 >= self.targets.len() {
            self.phase = Phase::Finished(Ok(()));
        } else if self.pace.as_nanos() > 0 {
            self.phase = Phase::Pacing;
        } else {
            self.phase = Phase::Probing;
            self.cursor = self.cursor + 1;
        }
    }

    /// Tells the scan how its pending action went. An event that does not
    /// answer the pending action is ignored.
    pub fn advance(&mut self, event: ScanEvent)
        ensures
            final(self)@ == next(old(self)@, event@),
            coherent(final(self)@),
    {
        proof {
            use_type_invariant(&*self);
            assert(self@.targets.len() == self.targets.len());
        }
        match event {
            ScanEvent::Probed(outcome) => {
                if let Phase::Probing = &self.phase {
                    match process_url(self.targets[self.cursor].clone(), outcome) {
                        Ok(()) => self.settle(),
                        Err(down) => {
                            self.phase = Phase::Alerting(down);
                        },
                    }
                }
            },
            ScanEvent::Notified(answer) => {
                if let Phase::Alerting(_) = &self.phase {
                    match answer {
                        Ok(()) => self.settle(),
                        Err(reason) => {
                            self.phase = Phase::Finished(Err(ScanError::AlertSink(reason)));
                        },
                    }
                }
            },
            ScanEvent::Paused => {
                if let Phase::Pacing = &self.phase {
                    self.phase = Phase::Probing;
                    self.cursor = self.cursor + 1;
                }
            },
        }
        proof {
            use_type_invariant(&*self);
        }
    }
}

} // verus!

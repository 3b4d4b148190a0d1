//! The scan scheduler: when a scan starts and when the monitor stops.
//!
//! The scheduler is idle, scanning or stopped. It starts idle, with a scan
//! due at once. While idle it is asked again and again what to do, each time
//! with a reading of the clock and with the word on whether a shutdown was
//! requested; it answers to start a scan, to wait, or to stop. A scan that
//! was started runs to its end before the scheduler looks at a shutdown
//! request again. Time is a reading of a monotonic clock, given as the
//! duration since an origin that the driver keeps fixed.

use crate::scan::{end_view, EndView, ScanError};
use crate::time::duration_nanos;
use std::time::Duration;
use vstd::prelude::*;

verus! {

/// Milliseconds between two questions to an idle scheduler. Short enough
/// that a shutdown request is honoured at once to the eye.
pub const IDLE_POLL_MILLIS: u64 = 10;

/// What the scheduler is doing.
#[derive(Debug, Clone, Copy, PartialEq, Eq, Structural)]
pub enum SchedulerState {
    /// Waiting for the next scan to become due.
    Idle,
    /// A scan is in progress.
    Scanning,
    /// The monitor is to exit. Nothing leaves this state.
    Stopped,
}

/// What the driver of the scheduler is to do next.
#[derive(Debug, Clone, Copy, PartialEq, Eq, Structural)]
pub enum Directive {
    /// Run a scan now, then report how it ended.
    StartScan,
    /// Let a short time pass, then ask again.
    Wait,
    /// Leave the loop.
    Stop,
}

/// What becomes of the monitor after a scan.
#[derive(Debug, Clone, PartialEq, Eq)]
pub enum Verdict {
    /// The scan was complete; go on.
    Resume,
    /// The scan was cut short by the alert sink, for the reason given; say
    /// so and go on.
    Report(String),
    /// The target list could not be read, for the reason given; say so and
    /// exit with a failure.
    Abort(String),
}

/// A verdict as plain values.
pub enum VerdictView {
    Resume,
    Report(Seq<char>),
    Abort(Seq<char>),
}

impl Verdict {
    pub open spec fn view(&self) -> VerdictView {
        match *self {
            Verdict::Resume => VerdictView::Resume,
            Verdict::Report(reason) => VerdictView::Report(reason@),
            Verdict::Abort(reason) => VerdictView::Abort(reason@),
        }
    }
}

/// The state of a scheduler as plain values, with times in nanoseconds.
pub struct SchedulerView {
    /// The least time between the starts of two scans.
    pub interval: nat,
    /// When the last scan started; `None` before the first.
    pub last_start: Option<nat>,
    pub state: SchedulerState,
}

/// The time from `since` to `now`; zero where `now` is the earlier.
pub open spec fn elapsed(now: nat, since: nat) -> nat {
    if now >= since {
        (now - since) as nat
    } else {
        0
    }
}

/// Whether a scan is due at `now`: none was started yet, or the last started
/// at least the scan interval ago.
pub open spec fn due(last_start: Option<nat>, interval: nat, now: nat) -> bool {
    match last_start {
        None => true,
        Some(start) => elapsed(now, start) >= interval,
    }
}

/// The answer of a scheduler that is asked at `now` what to do, and its state
/// after the question. An idle scheduler stops on a shutdown request, whether
/// or not a scan is due; else it starts a scan that is due, and notes `now`
/// as the start; else it waits. A scanning scheduler waits, and a stopped one
/// stops.
pub open spec fn tick_spec(scheduler: SchedulerView, now: nat, shutdown: bool) -> (
    SchedulerView,
    Directive,
) {
    match scheduler.state {
        SchedulerState::Idle => if shutdown {
            (SchedulerView { state: SchedulerState::Stopped, ..scheduler }, Directive::Stop)
        } else if due(scheduler.last_start, scheduler.interval, now) {
            (
                SchedulerView {
                    last_start: Some(now),
                    state: SchedulerState::Scanning,
                    ..scheduler
                },
                Directive::StartScan,
            )
        } else {
            (scheduler, Directive::Wait)
        },
        SchedulerState::Scanning => (scheduler, Directive::Wait),
        SchedulerState::Stopped => (scheduler, Directive::Stop),
    }
}

/// The verdict on a scan that ended with `end`.
pub open spec fn verdict_spec(end: EndView) -> VerdictView {
    match end {
        EndView::Completed => VerdictView::Resume,
        EndView::SinkFailed(reason) => VerdictView::Report(reason),
        EndView::SourceFailed(reason) => VerdictView::Abort(reason),
    }
}

/// The state of a scheduler that is told that a scan ended with `end`. An
/// unreadable target list stops it. Any other end makes a scanning scheduler
/// idle again and changes nothing else.
pub open spec fn scan_finished_spec(scheduler: SchedulerView, end: EndView) -> SchedulerView {
    match scheduler.state {
        SchedulerState::Stopped => scheduler,
        SchedulerState::Idle => if end is SourceFailed {
            SchedulerView { state: SchedulerState::Stopped, ..scheduler }
        } else {
            scheduler
        },
        SchedulerState::Scanning => if end is SourceFailed {
            SchedulerView { state: SchedulerState::Stopped, ..scheduler }
        } else {
            SchedulerView { state: SchedulerState::Idle, ..scheduler }
        },
    }
}

/// The clock of the scans: when the last scan started.
#[derive(Debug)]
pub struct ScanClock {
    last_scan_started_at: Option<Duration>,
}

impl ScanClock {
    /// When the last scan started, in nanoseconds; `None` before the first.
    pub closed spec fn view(&self) -> Option<nat> {
        match self.last_scan_started_at {
            None => None,
            Some(start) => Some(duration_nanos(start)),
        }
    }

    /// The clock before the first scan.
    pub fn new() -> (clock: ScanClock)
        ensures
            clock@ is None,
    {
        ScanClock { last_scan_started_at: None }
    }

    /// Whether a scan is due at `now` under the given scan interval.
    pub fn is_due(&self, now: &Duration, scan_interval: &Duration) -> (is_due: bool)
        ensures
            is_due == due(self@, duration_nanos(*scan_interval), duration_nanos(*now)),
    {
        match &self.last_scan_started_at {
            None => true,
            Some(start) => {
                let now_nanos: u128 = now.as_nanos();
                let start_nanos: u128 = start.as_nanos();
                let waited: u128 = if now_nanos >= start_nanos {
                    now_nanos - start_nanos
                } else {
                    0
                };
                waited >= scan_interval.as_nanos()
            },
        }
    }

    /// Notes that a scan starts at `now`.
    pub fn stamp(&mut self, now: Duration)
        ensures
            final(self)@ == Some(duration_nanos(now)),
    {
        self.last_scan_started_at = Some(now);
    }
}

/// The scan scheduler.
#[derive(Debug)]
pub struct Scheduler {
    scan_interval: Duration,
    clock: ScanClock,
    state: SchedulerState,
}

impl Scheduler {
    /// The state of the scheduler as plain values.
    pub closed spec fn view(&self) -> SchedulerView {
        SchedulerView {
            interval: duration_nanos(self.scan_interval),
            last_start: self.clock@,
            state: self.state,
        }
    }

    /// A scheduler for the given scan interval: idle, with no scan started
    /// yet, so that the first is due at once.
    pub fn new(scan_interval: Duration) -> (scheduler: Scheduler)
        ensures
            scheduler@ == (SchedulerView {
                interval: duration_nanos(scan_interval),
                last_start: None,
                state: SchedulerState::Idle,
            }),
    {
        Scheduler { scan_interval, clock: ScanClock::new(), state: SchedulerState::Idle }
    }

    /// What the scheduler is doing.
    pub fn state(&self) -> (state: SchedulerState)
        ensures
            state == self@.state,
    {
        self.state
    }

    /// Asks the scheduler what to do at `now`, given whether a shutdown was
    /// requested: see [`tick_spec`].
    pub fn tick(&mut self, now: Duration, shutdown_requested: bool) -> (directive: Directive)
        ensures
            (final(self)@, directive) == tick_spec(
                old(self)@,
                duration_nanos(now),
                shutdown_requested,
            ),
    {
        match self.state {
            SchedulerState::Idle => {
                if shutdown_requested {
                    self.state = SchedulerState::Stopped;
                    Directive::Stop
                } else if self.clock.is_due(&now, &self.scan_interval) {
                    self.clock.stamp(now);
                    self.state = SchedulerState::Scanning;
                    Directive::StartScan
                } else {
                    Directive::Wait
                }
            },
            SchedulerState::Scanning => Directive::Wait,
            SchedulerState::Stopped => Directive::Stop,
        }
    }

    /// Tells the scheduler how the scan ended, and learns what becomes of the
    /// monitor: see [`scan_finished_spec`] and [`verdict_spec`].
    pub fn scan_finished(&mut self, result: Result<(), ScanError>) -> (verdict: Verdict)
        ensures
            final(self)@ == scan_finished_spec(old(self)@, end_view(result)),
            verdict@ == verdict_spec(end_view(result)),
    {
        match result {
            Ok(()) => {
                if self.state == SchedulerState::Scanning {
                    self.state = SchedulerState::Idle;
                }
                Verdict::Resume
            },
            Err(ScanError::AlertSink(reason)) => {
                if self.state == SchedulerState::Scanning {
                    self.state = SchedulerState::Idle;
                }
                Verdict::Report(reason)
            },
            Err(ScanError::TargetSource(reason)) => {
                self.state = SchedulerState::Stopped;
                Verdict::Abort(reason)
            },
        }
    }
}

/// The first scan starts without delay: a new scheduler that is asked what to
/// do, with no shutdown requested, starts a scan, whatever the clock reads.
pub proof fn law_first_scan_is_immediate(interval: nat, now: nat)
    ensures
        tick_spec(
            SchedulerView { interval, last_start: None, state: SchedulerState::Idle },
            now,
            false,
        ).1 == Directive::StartScan,
{
}

/// Scan starts are at least the scan interval apart: a scan that starts at
/// `now`, after one that started at `start`, starts no sooner than the scan
/// interval after `start`.
pub proof fn law_scan_starts_are_spaced(
    scheduler: SchedulerView,
    start: nat,
    now: nat,
    shutdown: bool,
)
    requires
        scheduler.last_start == Some(start),
        now >= start,
        tick_spec(scheduler, now, shutdown).1 == Directive::StartScan,
    ensures
        now >= start + scheduler.interval,
        tick_spec(scheduler, now, shutdown).0.last_start == Some(now),
{
}

/// After a scan that took less than the scan interval, the next scan waits
/// out the rest of the interval: no scan starts before the time that the
/// scan left of the interval has passed since its end.
pub proof fn law_short_scan_delays_next(
    scheduler: SchedulerView,
    start: nat,
    took: nat,
    now: nat,
    shutdown: bool,
)
    requires
        scheduler.last_start == Some(start),
        took < scheduler.interval,
        now >= start + took,
        now - (start + took) < scheduler.interval - took,
    ensures
        tick_spec(scheduler, now, shutdown).1 != Directive::StartScan,
{
}

/// After a scan that took the scan interval or longer, the next scan starts
/// with no further delay: the idle scheduler, asked at any time after the
/// scan's end with no shutdown requested, starts a scan.
pub proof fn law_long_scan_starts_next_at_once(
    scheduler: SchedulerView,
    start: nat,
    took: nat,
    now: nat,
)
    requires
        scheduler.state == SchedulerState::Idle,
        scheduler.last_start == Some(start),
        took >= scheduler.interval,
        now >= start + took,
    ensures
        tick_spec(scheduler, now, false).1 == Directive::StartScan,
{
}

/// A shutdown request stops an idle scheduler before it starts another scan,
/// even where a scan is due.
pub proof fn law_shutdown_stops_idle_scheduler(scheduler: SchedulerView, now: nat)
    requires
        scheduler.state == SchedulerState::Idle,
    ensures
        tick_spec(scheduler, now, true).1 == Directive::Stop,
        tick_spec(scheduler, now, true).0.state == SchedulerState::Stopped,
{
}

/// A stopped scheduler stays as it is and never starts a scan, whatever it is
/// asked or told.
pub proof fn law_stopped_is_final(
    scheduler: SchedulerView,
    now: nat,
    shutdown: bool,
    end: EndView,
)
    requires
        scheduler.state == SchedulerState::Stopped,
    ensures
        tick_spec(scheduler, now, shutdown) == (scheduler, Directive::Stop),
        scan_finished_spec(scheduler, end) == scheduler,
{
}

/// A scan in progress is never interrupted and never doubled: while the
/// scheduler is scanning it answers to wait, shutdown request or not, and its
/// state does not change until it is told that the scan ended.
pub proof fn law_scan_runs_to_its_end(scheduler: SchedulerView, now: nat, shutdown: bool)
    requires
        scheduler.state == SchedulerState::Scanning,
    ensures
        tick_spec(scheduler, now, shutdown) == (scheduler, Directive::Wait),
{
}

/// A failing alert sink costs the scan, not the monitor, while an unreadable
/// target list stops the monitor: after a scan that was complete or was cut
/// short by the alert sink the scheduler is idle and starts the next scan
/// when it is due, and after a scan without a target list it is stopped.
pub proof fn law_only_source_failure_stops(scheduler: SchedulerView, end: EndView, now: nat)
    requires
        scheduler.state == SchedulerState::Scanning,
    ensures
        ({
            let after = scan_finished_spec(scheduler, end);
            if end is SourceFailed {
                after.state == SchedulerState::Stopped
            } else {
                &&& after.state == SchedulerState::Idle
                &&& after.last_start == scheduler.last_start
                &&& due(after.last_start, after.interval, now) ==> tick_spec(after, now, false).1
                    == Directive::StartScan
            }
        }),
{
}

} // verus!

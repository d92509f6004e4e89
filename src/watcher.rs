//! The watcher actor's decisions, as a state machine from events to actions.
//!
//! The runtime around it starts the heartbeat and the probe loop, sleeps,
//! runs the probe and cancels tasks; it hands each outcome back here as an
//! [`Event`] and performs the [`Action`] that comes back.

use vstd::prelude::*;
use crate::interval::{IntervalControl, clamp_interval};
use crate::series::{BoundedSeries, Sample, most_recent};

verus! {

/// How many latency samples the watcher keeps.
pub const LATENCY_RETAIN: usize = 30;

/// The low end of the latency range, in milliseconds.
pub const LATENCY_MIN_MS: u64 = 0;

/// The high end of the latency range, in milliseconds.
pub const LATENCY_MAX_MS: u64 = 1000;

#[derive(Clone, Copy, Debug, PartialEq, Eq, Structural)]
pub enum Lifecycle {
    Starting,
    Running,
    ShuttingDown,
    Stopped,
}

/// What one probe of the target yielded.
#[derive(Clone, Copy, Debug, PartialEq, Eq, Structural)]
pub enum ProbeOutcome {
    /// The round trip took this many milliseconds.
    Success { latency_ms: u64 },
    /// The target timed out or refused the connection.
    Failure,
}

/// One entry of the event log.
#[derive(Clone, Copy, Debug, PartialEq, Eq, Structural)]
pub struct LogRecord {
    pub at: u64,
    pub outcome: ProbeOutcome,
}

/// A task that could not be started; fatal to the actor.
#[derive(Clone, Copy, Debug, PartialEq, Eq, Structural)]
pub enum StartupFault {
    Heartbeat,
    ProbeLoop,
}

/// What the runtime reports to the watcher.
#[derive(Clone, Copy, Debug, PartialEq, Eq, Structural)]
pub enum Event {
    /// The heartbeat and the control subscription are active.
    TasksSpawned,
    /// A task could not be started.
    SpawnFailed(StartupFault),
    /// The cadence wait is over.
    WaitElapsed,
    /// The probe ended at time `at` with this outcome.
    ProbeFinished { at: u64, outcome: ProbeOutcome },
    /// A new cadence arrived from the control source.
    ControlUpdate(i64),
    /// The heartbeat ticked.
    HeartbeatTick,
    /// The supervisor asked the actor to stop.
    Interrupt,
    /// Every task has acknowledged its cancellation.
    TasksStopped,
}

/// What the runtime is to do next.
#[derive(Clone, Copy, Debug, PartialEq, Eq, Structural)]
pub enum Action {
    /// Sleep this many seconds, then report `WaitElapsed`.
    Wait { seconds: u64 },
    /// Probe the target, then report `ProbeFinished`.
    Probe,
    /// Tell the supervisor that the actor is alive.
    SignalAlive,
    /// Abort the heartbeat, any pending wait and any probe in flight.
    CancelTasks,
    /// Report a fatal startup error to the supervisor.
    ReportFatal(StartupFault),
    /// Release the actor's resources.
    Release,
    Nothing,
}

/// The lifecycle after event `e`.
pub open spec fn next_lifecycle(l: Lifecycle, e: Event) -> Lifecycle {
    match e {
        Event::TasksSpawned => if l == Lifecycle::Starting {
            Lifecycle::Running
        } else {
            l
        },
        Event::SpawnFailed(_) => if l == Lifecycle::Starting {
            Lifecycle::Stopped
        } else {
            l
        },
        Event::Interrupt => if l == Lifecycle::Starting || l == Lifecycle::Running {
            Lifecycle::ShuttingDown
        } else {
            l
        },
        Event::TasksStopped => if l == Lifecycle::ShuttingDown {
            Lifecycle::Stopped
        } else {
            l
        },
        _ => l,
    }
}

/// The lifecycle after the events `es`, in order.
pub open spec fn lifecycle_after(l: Lifecycle, es: Seq<Event>) -> Lifecycle
    decreases es.len(),
{
    if es.len() == 0 {
        l
    } else {
        lifecycle_after(next_lifecycle(l, es[0]), es.drop_first())
    }
}

/// Whether event `e` ends the probe in flight, so that its outcome is recorded.
pub open spec fn ends_probe(l: Lifecycle, probing: bool, e: Event) -> bool {
    l == Lifecycle::Running && probing && e is ProbeFinished
}

/// Whether a probe is in flight after event `e`.
pub open spec fn next_probing(l: Lifecycle, probing: bool, e: Event) -> bool {
    match e {
        Event::WaitElapsed => if l == Lifecycle::Running {
            true
        } else {
            probing
        },
        Event::ProbeFinished { .. } => if l == Lifecycle::Running {
            false
        } else {
            probing
        },
        Event::Interrupt => false,
        _ => probing,
    }
}

/// Whether a control update in lifecycle `l` changes the cadence.
pub open spec fn takes_control(l: Lifecycle) -> bool {
    l == Lifecycle::Starting || l == Lifecycle::Running
}

/// What the runtime is told to do on event `e`, with `cadence` the current
/// cadence in seconds.
pub open spec fn next_action(l: Lifecycle, probing: bool, cadence: int, e: Event) -> Action {
    match e {
        Event::TasksSpawned => if l == Lifecycle::Starting {
            Action::Wait { seconds: cadence as u64 }
        } else {
            Action::Nothing
        },
        Event::SpawnFailed(f) => if l == Lifecycle::Starting {
            Action::ReportFatal(f)
        } else {
            Action::Nothing
        },
        Event::WaitElapsed => if l == Lifecycle::Running && !probing {
            Action::Probe
        } else {
            Action::Nothing
        },
        Event::ProbeFinished { .. } => if l == Lifecycle::Running && probing {
            Action::Wait { seconds: cadence as u64 }
        } else {
            Action::Nothing
        },
        Event::ControlUpdate(_) => Action::Nothing,
        Event::HeartbeatTick => if l == Lifecycle::Starting || l == Lifecycle::Running {
            Action::SignalAlive
        } else {
            Action::Nothing
        },
        Event::Interrupt => if l == Lifecycle::Starting || l == Lifecycle::Running {
            Action::CancelTasks
        } else {
            Action::Nothing
        },
        Event::TasksStopped => if l == Lifecycle::ShuttingDown {
            Action::Release
        } else {
            Action::Nothing
        },
    }
}

/// An actor that probes one target on an adjustable cadence.
pub struct Watcher {
    url: String,
    latency: BoundedSeries,
    log: Vec<LogRecord>,
    interval: IntervalControl,
    state: Lifecycle,
    probing: bool,
}

impl Watcher {
    pub closed spec fn spec_url(&self) -> Seq<char> {
        self.url@
    }

    pub closed spec fn spec_latency(&self) -> BoundedSeries {
        self.latency
    }

    /// Records not yet taken out of the event log, oldest first.
    pub closed spec fn spec_log(&self) -> Seq<LogRecord> {
        self.log@
    }

    pub closed spec fn spec_interval(&self) -> int {
        self.interval@
    }

    pub closed spec fn spec_state(&self) -> Lifecycle {
        self.state
    }

    /// Whether a probe has been asked for and has not finished.
    pub closed spec fn spec_probing(&self) -> bool {
        self.probing
    }

    pub closed spec fn wf(&self) -> bool {
        &&& self.latency.wf()
        &&& self.interval.wf()
        &&& self.probing ==> self.state == Lifecycle::Running
    }

    /// A watcher of `url` about to start: no probe in flight, an empty latency
    /// series and event log, and the default cadence.
    pub fn new(url: String) -> (r: Watcher)
        ensures
            r.wf(),
            r.spec_url() == url@,
            r.spec_state() == Lifecycle::Starting,
            !r.spec_probing(),
            r.spec_latency()@ == Seq::<Sample>::empty(),
            r.spec_latency().spec_capacity() == LATENCY_RETAIN,
            r.spec_latency().spec_min() == LATENCY_MIN_MS,
            r.spec_latency().spec_max() == LATENCY_MAX_MS,
            r.spec_log() == Seq::<LogRecord>::empty(),
            r.spec_interval() == crate::interval::DEFAULT_INTERVAL,
    {
        Watcher {
            url,
            latency: BoundedSeries::new(LATENCY_RETAIN, LATENCY_MIN_MS, LATENCY_MAX_MS),
            log: Vec::new(),
            interval: IntervalControl::new(),
            state: Lifecycle::Starting,
            probing: false,
        }
    }

    /// Takes event `e` and returns what the runtime is to do next. A probe
    /// outcome that ends the probe in flight goes to the event log, and a
    /// success also to the latency series; a failure leaves the series as it
    /// was. The cadence is re-read for every wait, so a control update
    /// applies from the next wait on.
    pub fn step(&mut self, e: Event) -> (a: Action)
        requires
            old(self).wf(),
        ensures
            final(self).wf(),
            final(self).spec_url() == old(self).spec_url(),
            final(self).spec_state() == next_lifecycle(old(self).spec_state(), e),
            final(self).spec_probing() == next_probing(
                old(self).spec_state(),
                old(self).spec_probing(),
                e,
            ),
            a == next_action(
                old(self).spec_state(),
                old(self).spec_probing(),
                old(self).spec_interval(),
                e,
            ),
            final(self).spec_interval() == match e {
                Event::ControlUpdate(v) => if takes_control(old(self).spec_state()) {
                    clamp_interval(v as int)
                } else {
                    old(self).spec_interval()
                },
                _ => old(self).spec_interval(),
            },
            final(self).spec_log() == match e {
                Event::ProbeFinished { at, outcome } => if ends_probe(
                    old(self).spec_state(),
                    old(self).spec_probing(),
                    e,
                ) {
                    old(self).spec_log().push(LogRecord { at, outcome })
                } else {
                    old(self).spec_log()
                },
                _ => old(self).spec_log(),
            },
            final(self).spec_latency().spec_capacity() == old(self).spec_latency().spec_capacity(),
            final(self).spec_latency().spec_min() == old(self).spec_latency().spec_min(),
            final(self).spec_latency().spec_max() == old(self).spec_latency().spec_max(),
            final(self).spec_latency()@ == match e {
                Event::ProbeFinished { at, outcome: ProbeOutcome::Success { latency_ms } } => if ends_probe(
                    old(self).spec_state(),
                    old(self).spec_probing(),
                    e,
                ) {
                    most_recent(
                        old(self).spec_latency()@.push(Sample { timestamp: at, value: latency_ms }),
                        old(self).spec_latency().spec_capacity(),
                    )
                } else {
                    old(self).spec_latency()@
                },
                _ => old(self).spec_latency()@,
            },
    {
        let running = match self.state {
            Lifecycle::Running => true,
            _ => false,
        };
        let starting = match self.state {
            Lifecycle::Starting => true,
            _ => false,
        };
        match e {
            Event::TasksSpawned => {
                if starting {
                    self.state = Lifecycle::Running;
                    Action::Wait { seconds: self.interval.get() }
                } else {
                    Action::Nothing
                }
            },
            Event::SpawnFailed(f) => {
                if starting {
                    self.state = Lifecycle::Stopped;
                    Action::ReportFatal(f)
                } else {
                    Action::Nothing
                }
            },
            Event::WaitElapsed => {
                if running && !self.probing {
                    self.probing = true;
                    Action::Probe
                } else {
                    Action::Nothing
                }
            },
            Event::ProbeFinished { at, outcome } => {
                if running && self.probing {
                    self.probing = false;
                    match outcome {
                        ProbeOutcome::Success { latency_ms } => {
                            self.latency.push(at, latency_ms);
                        },
                        ProbeOutcome::Failure => {},
                    }
                    self.log.push(LogRecord { at, outcome });
                    Action::Wait { seconds: self.interval.get() }
                } else {
                    Action::Nothing
                }
            },
            Event::ControlUpdate(v) => {
                if starting || running {
                    self.interval.set(v);
                }
                Action::Nothing
            },
            Event::HeartbeatTick => {
                if starting || running {
                    Action::SignalAlive
                } else {
                    Action::Nothing
                }
            },
            Event::Interrupt => {
                if starting || running {
                    self.state = Lifecycle::ShuttingDown;
                    self.probing = false;
                    Action::CancelTasks
                } else {
                    Action::Nothing
                }
            },
            Event::TasksStopped => {
                match self.state {
                    Lifecycle::ShuttingDown => {
                        self.state = Lifecycle::Stopped;
                        Action::Release
                    },
                    _ => Action::Nothing,
                }
            },
        }
    }
    pub fn url(&self) -> (r: &String)
        ensures
            r@ == self.spec_url(),
    {
        &self.url
    }

    pub fn state(&self) -> (r: Lifecycle)
        ensures
            r == self.spec_state(),
    {
        self.state
    }

    pub fn is_probing(&self) -> (r: bool)
        ensures
            r == self.spec_probing(),
    {
        self.probing
    }

    /// The current cadence in seconds.
    pub fn interval(&self) -> (r: u64)
        requires
            self.wf(),
        ensures
            r == self.spec_interval(),
    {
        self.interval.get()
    }

    pub fn latency(&self) -> (r: &BoundedSeries)
        ensures
            *r == self.spec_latency(),
    {
        &self.latency
    }

    /// Hands over the records logged since the last call, oldest first, and
    /// empties the log.
    pub fn take_log(&mut self) -> (r: Vec<LogRecord>)
        ensures
            r@ == old(self).spec_log(),
            final(self).spec_log() == Seq::<LogRecord>::empty(),
            final(self).spec_url() == old(self).spec_url(),
            final(self).spec_latency() == old(self).spec_latency(),
            final(self).spec_interval() == old(self).spec_interval(),
            final(self).spec_state() == old(self).spec_state(),
            final(self).spec_probing() == old(self).spec_probing(),
            old(self).wf() ==> final(self).wf(),
    {
        let mut r: Vec<LogRecord> = Vec::new();
        std::mem::swap(&mut r, &mut self.log);
        r
    }
}

/// The lifecycle never leaves `ShuttingDown` and `Stopped` once there, and
/// never leaves `Stopped`.
pub proof fn lemma_shut_down_stays(l: Lifecycle, es: Seq<Event>)
    requires
        l == Lifecycle::ShuttingDown || l == Lifecycle::Stopped,
    ensures
        lifecycle_after(l, es) == Lifecycle::ShuttingDown || lifecycle_after(l, es)
            == Lifecycle::Stopped,
        l == Lifecycle::Stopped ==> lifecycle_after(l, es) == Lifecycle::Stopped,
    decreases es.len(),
{
    if es.len() > 0 {
        lemma_shut_down_stays(next_lifecycle(l, es[0]), es.drop_first());
    }
}

/// After an interrupt no sequence of events brings the actor back to
/// `Running`, and no event makes it probe again, whatever the cadence.
pub proof fn lemma_no_probe_after_interrupt(l: Lifecycle, es: Seq<Event>)
    requires
        l == Lifecycle::Starting || l == Lifecycle::Running,
    ensures
        lifecycle_after(next_lifecycle(l, Event::Interrupt), es) != Lifecycle::Running,
        forall|i: int, probing: bool, cadence: int|
            0 <= i < es.len() ==> #[trigger] next_action(
                lifecycle_after(next_lifecycle(l, Event::Interrupt), es.take(i)),
                probing,
                cadence,
                es[i],
            ) != Action::Probe,
{
    let down = next_lifecycle(l, Event::Interrupt);
    lemma_shut_down_stays(down, es);
    assert forall|i: int, probing: bool, cadence: int|
        0 <= i < es.len() implies #[trigger] next_action(
        lifecycle_after(down, es.take(i)),
        probing,
        cadence,
        es[i],
    ) != Action::Probe by {
        lemma_shut_down_stays(down, es.take(i));
    }
}

/// An interrupt while starting or running cancels every task at once, with
/// no wait whatever the cadence, and once the tasks acknowledge it the actor
/// is stopped.
pub proof fn lemma_interrupt_stops(l: Lifecycle, probing: bool, cadence: int)
    requires
        l == Lifecycle::Starting || l == Lifecycle::Running,
    ensures
        next_action(l, probing, cadence, Event::Interrupt) == Action::CancelTasks,
        !next_probing(l, probing, Event::Interrupt),
        next_action(
            next_lifecycle(l, Event::Interrupt),
            false,
            cadence,
            Event::TasksStopped,
        ) == Action::Release,
        next_lifecycle(next_lifecycle(l, Event::Interrupt), Event::TasksStopped)
            == Lifecycle::Stopped,
{
}

/// A heartbeat tick is answered while the actor starts or runs, whether or
/// not a probe is in flight, and leaves the probe as it was.
pub proof fn lemma_heartbeat_independent(l: Lifecycle, probing: bool, cadence: int)
    requires
        l == Lifecycle::Starting || l == Lifecycle::Running,
    ensures
        next_action(l, probing, cadence, Event::HeartbeatTick) == Action::SignalAlive,
        next_probing(l, probing, Event::HeartbeatTick) == probing,
        next_lifecycle(l, Event::HeartbeatTick) == l,
{
}

/// A task that fails to start is reported to the supervisor as fatal, and
/// the actor is stopped for good: it never reaches `Running`.
pub proof fn lemma_failed_start_never_runs(f: StartupFault, cadence: int, es: Seq<Event>)
    ensures
        next_action(Lifecycle::Starting, false, cadence, Event::SpawnFailed(f))
            == Action::ReportFatal(f),
        lifecycle_after(next_lifecycle(Lifecycle::Starting, Event::SpawnFailed(f)), es)
            == Lifecycle::Stopped,
{
    lemma_shut_down_stays(Lifecycle::Stopped, es);
}

} // verus!

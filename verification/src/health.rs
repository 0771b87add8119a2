//! The health monitor of the host runtime.
//!
//! The monitor waits until the host runtime can be found, then judges it
//! cycle by cycle from three independent liveness probes. The task that
//! sleeps and probes lives outside this module: it feeds each observation to
//! `RuntimeHealthMonitor::step` and carries out the action that comes back.

use vstd::prelude::*;

verus! {

/// How long the monitor sleeps before it looks for the host again or runs
/// the next round of probes, in milliseconds.
pub const POLL_INTERVAL_MILLIS: u64 = 500;

/// How many failed cycles in a row mark the host runtime as dead, unless
/// the monitor is made with another threshold.
pub const DEFAULT_FAILURE_THRESHOLD: u32 = 3;

/// The outcome of one round of liveness probes.
#[derive(Debug, Clone, Copy, PartialEq, Eq)]
pub struct ProbeReport {
    /// A new session could be attached to the host runtime.
    pub attach_ok: bool,
    /// A type that is always present could be resolved through it.
    pub classes_ok: bool,
    /// Its native handle is still non-null.
    pub handle_valid: bool,
}

impl ProbeReport {
    /// A cycle is healthy only when all three probes succeeded.
    pub open spec fn healthy(self) -> bool {
        self.attach_ok && self.classes_ok && self.handle_valid
    }

    /// The report that follows from what the host runtime answered: the
    /// class probe counts as passed only when a session could be attached
    /// and the class was found through it, and the handle counts as valid
    /// when it is not null.
    pub open spec fn of_answers(attached: bool, class_found: bool, handle_is_null: bool)
        -> ProbeReport {
        ProbeReport {
            attach_ok: attached,
            classes_ok: attached && class_found,
            handle_valid: !handle_is_null,
        }
    }

    /// Puts the answers of the host runtime together into a report.
    pub fn from_answers(attached: bool, class_found: bool, handle_is_null: bool) -> (report:
        ProbeReport)
        ensures
            report == ProbeReport::of_answers(attached, class_found, handle_is_null),
    {
        ProbeReport {
            attach_ok: attached,
            classes_ok: attached && class_found,
            handle_valid: !handle_is_null,
        }
    }

    /// Whether all three probes succeeded.
    pub fn is_healthy(&self) -> (ok: bool)
        ensures
            ok == self.healthy(),
    {
        self.attach_ok && self.classes_ok && self.handle_valid
    }
}

/// The monitor's count of failed cycles in a row, and the count at which
/// the host runtime is given up.
#[derive(Debug, Clone, Copy, PartialEq, Eq)]
pub struct HealthState {
    pub consecutive_failures: u32,
    pub threshold: u32,
}

impl HealthState {
    /// The state after one more cycle: a healthy cycle clears the count, a
    /// failed one adds one to it (the count stops at `u32::MAX`).
    pub open spec fn after(self, report: ProbeReport) -> HealthState {
        if report.healthy() {
            HealthState { consecutive_failures: 0, threshold: self.threshold }
        } else if self.consecutive_failures < u32::MAX {
            HealthState {
                consecutive_failures: (self.consecutive_failures + 1) as u32,
                threshold: self.threshold,
            }
        } else {
            self
        }
    }

    /// Whether the count has reached the threshold.
    pub open spec fn exhausted(self) -> bool {
        self.consecutive_failures >= self.threshold
    }

    /// A fresh state with no failure counted.
    pub fn new(threshold: u32) -> (state: HealthState)
        ensures
            state == (HealthState { consecutive_failures: 0, threshold }),
    {
        HealthState { consecutive_failures: 0, threshold }
    }

    /// Counts one cycle. Returns `true` when this cycle failed and brought
    /// the count to the threshold: the host runtime is then taken for dead.
    pub fn record(&mut self, report: ProbeReport) -> (dead: bool)
        ensures
            *final(self) == old(self).after(report),
            dead == (!report.healthy() && final(self).exhausted()),
    {
        if report.is_healthy() {
            self.consecutive_failures = 0;
            false
        } else {
            if self.consecutive_failures < u32::MAX {
                self.consecutive_failures = self.consecutive_failures + 1;
            }
            self.consecutive_failures >= self.threshold
        }
    }
}

/// Where the monitor stands.
#[derive(Debug, Clone, Copy, PartialEq, Eq)]
pub enum MonitorPhase {
    /// The host runtime has not been found yet.
    WaitingForHost,
    /// The host runtime is probed on every interval.
    Monitoring,
    /// The monitor has stopped for good.
    Terminated,
}

/// What the monitoring task observed since the last step.
#[derive(Debug, Clone, Copy, PartialEq, Eq)]
pub enum MonitorEvent {
    /// The process-wide running flag was found cleared.
    ShutdownRequested,
    /// The host runtime could not be found.
    HostAbsent,
    /// The host runtime was found.
    HostFound,
    /// One round of probes was run.
    ProbeCycle(ProbeReport),
}

/// What the monitoring task has to do next.
#[derive(Debug, Clone, Copy, PartialEq, Eq)]
pub enum MonitorAction {
    /// Sleep, then look for the host runtime again.
    PollHost { after_millis: u64 },
    /// Sleep, then run the three probes.
    Probe { after_millis: u64 },
    /// The host runtime is dead: run the shutdown path, then leave.
    Teardown,
    /// Leave without doing anything more.
    Exit,
}

/// What a look for the host runtime found: the runtime counts as found
/// when the enumeration of created runtimes succeeded, listed at least
/// one, and handed out a handle that is not null.
pub open spec fn discovery(enumerated: bool, count: i32, handle_is_null: bool) -> MonitorEvent {
    if enumerated && count != 0 && !handle_is_null {
        MonitorEvent::HostFound
    } else {
        MonitorEvent::HostAbsent
    }
}

/// Turns the answer of the enumeration of created runtimes into the
/// event for the monitor.
pub fn host_event(enumerated: bool, count: i32, handle_is_null: bool) -> (event: MonitorEvent)
    ensures
        event == discovery(enumerated, count, handle_is_null),
{
    if enumerated && count != 0 && !handle_is_null {
        MonitorEvent::HostFound
    } else {
        MonitorEvent::HostAbsent
    }
}

/// The monitor: a phase and the failure count.
#[derive(Debug, Clone, Copy, PartialEq, Eq)]
pub struct RuntimeHealthMonitor {
    pub phase: MonitorPhase,
    pub health: HealthState,
}

impl RuntimeHealthMonitor {
    /// The monitor and the action that follow from one event.
    ///
    /// `Terminated` is absorbing. A shutdown request ends the monitor from
    /// either of the other phases, without a teardown of its own. While
    /// waiting, only the appearance of the host matters; while monitoring,
    /// only probe cycles do. An event that does not belong to the phase
    /// changes nothing and repeats the phase's action.
    pub open spec fn next(self, event: MonitorEvent) -> (RuntimeHealthMonitor, MonitorAction) {
        match self.phase {
            MonitorPhase::Terminated => (self, MonitorAction::Exit),
            MonitorPhase::WaitingForHost => match event {
                MonitorEvent::ShutdownRequested => (
                    RuntimeHealthMonitor { phase: MonitorPhase::Terminated, health: self.health },
                    MonitorAction::Exit,
                ),
                MonitorEvent::HostFound => (
                    RuntimeHealthMonitor {
                        phase: MonitorPhase::Monitoring,
                        health: HealthState {
                            consecutive_failures: 0,
                            threshold: self.health.threshold,
                        },
                    },
                    MonitorAction::Probe { after_millis: POLL_INTERVAL_MILLIS },
                ),
                _ => (self, MonitorAction::PollHost { after_millis: POLL_INTERVAL_MILLIS }),
            },
            MonitorPhase::Monitoring => match event {
                MonitorEvent::ShutdownRequested => (
                    RuntimeHealthMonitor { phase: MonitorPhase::Terminated, health: self.health },
                    MonitorAction::Exit,
                ),
                MonitorEvent::ProbeCycle(report) => {
                    let health = self.health.after(report);
                    if !report.healthy() && health.exhausted() {
                        (
                            RuntimeHealthMonitor { phase: MonitorPhase::Terminated, health },
                            MonitorAction::Teardown,
                        )
                    } else {
                        (
                            RuntimeHealthMonitor { phase: MonitorPhase::Monitoring, health },
                            MonitorAction::Probe { after_millis: POLL_INTERVAL_MILLIS },
                        )
                    }
                },
                _ => (self, MonitorAction::Probe { after_millis: POLL_INTERVAL_MILLIS }),
            },
        }
    }

    /// A monitor that waits for the host, with the given threshold.
    pub fn new(threshold: u32) -> (monitor: RuntimeHealthMonitor)
        ensures
            monitor == (RuntimeHealthMonitor {
                phase: MonitorPhase::WaitingForHost,
                health: HealthState { consecutive_failures: 0, threshold },
            }),
    {
        RuntimeHealthMonitor {
            phase: MonitorPhase::WaitingForHost,
            health: HealthState::new(threshold),
        }
    }

    /// Whether the monitor has stopped.
    pub fn is_terminated(&self) -> (done: bool)
        ensures
            done == (self.phase == MonitorPhase::Terminated),
    {
        match self.phase {
            MonitorPhase::Terminated => true,
            _ => false,
        }
    }

    /// Takes one event and says what to do next.
    pub fn step(&mut self, event: MonitorEvent) -> (action: MonitorAction)
        ensures
            (*final(self), action) == old(self).next(event),
    {
        match self.phase {
            MonitorPhase::Terminated => MonitorAction::Exit,
            MonitorPhase::WaitingForHost => match event {
                MonitorEvent::ShutdownRequested => {
                    self.phase = MonitorPhase::Terminated;
                    MonitorAction::Exit
                },
                MonitorEvent::HostFound => {
                    self.phase = MonitorPhase::Monitoring;
                    self.health.consecutive_failures = 0;
                    MonitorAction::Probe { after_millis: POLL_INTERVAL_MILLIS }
                },
                _ => MonitorAction::PollHost { after_millis: POLL_INTERVAL_MILLIS },
            },
            MonitorPhase::Monitoring => match event {
                MonitorEvent::ShutdownRequested => {
                    self.phase = MonitorPhase::Terminated;
                    MonitorAction::Exit
                },
                MonitorEvent::ProbeCycle(report) => {
                    let dead = self.health.record(report);
                    if dead {
                        self.phase = MonitorPhase::Terminated;
                        MonitorAction::Teardown
                    } else {
                        MonitorAction::Probe { after_millis: POLL_INTERVAL_MILLIS }
                    }
                },
                _ => MonitorAction::Probe { after_millis: POLL_INTERVAL_MILLIS },
            },
        }
    }

    /// The monitor after a whole sequence of events, and the actions it
    /// asked for, one for each event.
    pub open spec fn run(self, events: Seq<MonitorEvent>) -> (
        RuntimeHealthMonitor,
        Seq<MonitorAction>,
    )
        decreases events.len(),
    {
        if events.len() == 0 {
            (self, Seq::empty())
        } else {
            let (before, actions) = self.run(events.drop_last());
            let (after, action) = before.next(events.last());
            (after, actions.push(action))
        }
    }
}

/// How many of `actions` are a teardown.
pub open spec fn teardowns(actions: Seq<MonitorAction>) -> nat
    decreases actions.len(),
{
    if actions.len() == 0 {
        0
    } else {
        teardowns(actions.drop_last()) + if actions.last() == MonitorAction::Teardown {
            1nat
        } else {
            0nat
        }
    }
}

/// Whether every event of `events` is a probe cycle in which some probe
/// failed.
pub open spec fn all_failed_cycles(events: Seq<MonitorEvent>) -> bool {
    forall|i: int|
        0 <= i < events.len() ==> (#[trigger] events[i] matches MonitorEvent::ProbeCycle(report)
            && !report.healthy())
}

/// While fewer failed cycles have been seen than the threshold asks for,
/// the monitor keeps monitoring, counts each of them, and tears nothing
/// down.
pub proof fn failures_below_threshold_keep_monitoring(
    monitor: RuntimeHealthMonitor,
    events: Seq<MonitorEvent>,
)
    requires
        monitor.phase == MonitorPhase::Monitoring,
        all_failed_cycles(events),
        monitor.health.consecutive_failures + events.len() < monitor.health.threshold,
    ensures
        monitor.run(events).0 == (RuntimeHealthMonitor {
            phase: MonitorPhase::Monitoring,
            health: HealthState {
                consecutive_failures: (monitor.health.consecutive_failures + events.len()) as u32,
                threshold: monitor.health.threshold,
            },
        }),
        monitor.run(events).1.len() == events.len(),
        teardowns(monitor.run(events).1) == 0,
    decreases events.len(),
{
    if events.len() > 0 {
        let head = events.drop_last();
        assert forall|i: int| 0 <= i < head.len() implies (#[trigger] head[i] matches MonitorEvent::ProbeCycle(
            report,
        ) && !report.healthy()) by {
            assert(head[i] == events[i]);
        }
        failures_below_threshold_keep_monitoring(monitor, head);
        assert(events.last() == events[events.len() - 1]);
        let (before, actions) = monitor.run(head);
        let (after, action) = before.next(events.last());
        assert(actions.push(action).drop_last() =~= actions);
    }
}

/// A host runtime that fails `threshold` cycles in a row, counted from a
/// clean state, is torn down exactly once, by the last of those cycles, and
/// the monitor is then terminated.
pub proof fn sustained_failure_tears_down_once(
    monitor: RuntimeHealthMonitor,
    events: Seq<MonitorEvent>,
)
    requires
        monitor.phase == MonitorPhase::Monitoring,
        monitor.health.consecutive_failures == 0,
        monitor.health.threshold >= 1,
        events.len() == monitor.health.threshold,
        all_failed_cycles(events),
    ensures
        monitor.run(events).0.phase == MonitorPhase::Terminated,
        monitor.run(events).1.len() == events.len(),
        monitor.run(events).1.last() == MonitorAction::Teardown,
        teardowns(monitor.run(events).1) == 1,
{
    let head = events.drop_last();
    assert forall|i: int| 0 <= i < head.len() implies (#[trigger] head[i] matches MonitorEvent::ProbeCycle(
        report,
    ) && !report.healthy()) by {
        assert(head[i] == events[i]);
    }
    failures_below_threshold_keep_monitoring(monitor, head);
    assert(events.last() == events[events.len() - 1]);
    let (before, actions) = monitor.run(head);
    let (after, action) = before.next(events.last());
    assert(actions.push(action).drop_last() =~= actions);
}

/// Once terminated, the monitor stays terminated whatever it is told, and
/// asks for no teardown again.
pub proof fn terminated_is_absorbing(monitor: RuntimeHealthMonitor, events: Seq<MonitorEvent>)
    requires
        monitor.phase == MonitorPhase::Terminated,
    ensures
        monitor.run(events).0 == monitor,
        monitor.run(events).1.len() == events.len(),
        teardowns(monitor.run(events).1) == 0,
        forall|i: int| 0 <= i < events.len() ==> monitor.run(events).1[i] == MonitorAction::Exit,
    decreases events.len(),
{
    if events.len() > 0 {
        terminated_is_absorbing(monitor, events.drop_last());
        let (before, actions) = monitor.run(events.drop_last());
        let (after, action) = before.next(events.last());
        assert(actions.push(action).drop_last() =~= actions);
    }
}

/// A healthy cycle clears the failure count and never asks for a teardown,
/// however many failures came before it.
pub proof fn healthy_cycle_resets(monitor: RuntimeHealthMonitor, report: ProbeReport)
    requires
        monitor.phase == MonitorPhase::Monitoring,
        report.healthy(),
    ensures
        monitor.next(MonitorEvent::ProbeCycle(report)).0.health.consecutive_failures == 0,
        monitor.next(MonitorEvent::ProbeCycle(report)).0.phase == MonitorPhase::Monitoring,
        monitor.next(MonitorEvent::ProbeCycle(report)).1 == (MonitorAction::Probe {
            after_millis: POLL_INTERVAL_MILLIS,
        }),
{
}

} // verus!

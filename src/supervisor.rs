//! The backend supervisor: a shared status record, the one child handle it
//! manages, and the autostart flow as a state machine. The caller runs each
//! flow on a worker of its own: it performs the requested action (a probe, a
//! port check, a spawn, a pause) without holding the shared state, then hands
//! the outcome back as an event.
use vstd::prelude::*;
use crate::log::Note;

verus! {

/// Pause between two polls while the backend starts.
pub const HEALTH_POLL_MS: u64 = 250;

/// How long after the spawn the backend has to become healthy.
pub const HEALTH_TIMEOUT_MS: u64 = 10000;

pub const NOT_READY_REASON_PORT_IN_USE: &'static str = "PORT_IN_USE_NO_HEALTH";

/// Why the backend is not ready, where a reason is known.
#[derive(Clone, Copy, Debug, PartialEq, Eq, Structural)]
pub enum NotReadyReason {
    /// The port is held by something that does not answer health checks.
    PortInUseNoHealth,
}

#[derive(Clone, Copy, Debug, PartialEq, Eq, Structural)]
pub enum BackendStatus {
    NotReady(Option<NotReadyReason>),
    Starting,
    Ready,
}

/// Where a flow stands, that is which event it waits for.
#[derive(Clone, Copy, Debug, PartialEq, Eq, Structural)]
pub enum Phase {
    /// Waits for the first health probe.
    Probing,
    /// Waits for the port check.
    CheckingPort,
    /// Waits for the outcome of a spawn.
    Spawning,
    /// Waits for a poll of the starting backend.
    Polling,
    /// Waits for the end of the pause between two polls.
    Waiting,
    /// Over: it asks for nothing more.
    Finished,
}

/// One run of the autostart flow. It changes the shared state only while its
/// epoch is the supervisor's, so a newer flow supersedes it at once.
#[derive(Clone, Copy, Debug, PartialEq, Eq, Structural)]
pub struct Flow {
    pub epoch: u64,
    pub phase: Phase,
    /// Clock reading, in milliseconds, from which the starting backend counts as timed out.
    pub deadline_ms: u64,
}

/// What the flow's worker is to do next.
#[derive(Clone, Copy, Debug, PartialEq, Eq, Structural)]
pub enum Action {
    /// Probe the health endpoint once, reading the body.
    ProbeHealth,
    /// Try to bind the backend's port on the loopback address, and release it.
    CheckPort,
    /// Open the child log and start the backend executable with its output appended there.
    Spawn,
    /// Poll the health endpoint once, reading the body.
    Poll,
    /// Pause for this many milliseconds, then read the clock.
    Sleep(u64),
    /// Stop: the flow is over.
    Finish,
}

/// What the flow's worker reports back.
pub enum Event<H> {
    /// The first probe: healthy or not.
    Probed(bool),
    /// The port check: `true` where the bind succeeded, that is the port is free.
    PortChecked(bool),
    /// The backend runs as `H`; the clock read in milliseconds right after.
    Spawned(H, u64),
    /// The child log could not be opened or the executable not started.
    SpawnFailed,
    /// A poll of the starting backend: healthy or not, by the same rule as the first probe.
    Polled(bool),
    /// The pause is over; the clock read in milliseconds.
    Slept(u64),
}

/// The answer to an event or a command.
pub struct Step<H> {
    pub action: Action,
    /// A child process that leaves management and is to be terminated.
    pub terminate: Option<H>,
    pub notes: Vec<Note>,
}

/// The shared record: the status, the managed child process, and the epoch
/// of the flow that may change them.
pub struct Supervisor<H> {
    pub status: BackendStatus,
    pub child: Option<H>,
    pub epoch: u64,
}

pub open spec fn next_epoch(e: u64) -> u64 {
    if e == u64::MAX {
        0
    } else {
        (e + 1) as u64
    }
}

pub open spec fn deadline_after(now_ms: u64) -> u64 {
    if now_ms <= u64::MAX - HEALTH_TIMEOUT_MS {
        (now_ms + HEALTH_TIMEOUT_MS) as u64
    } else {
        u64::MAX
    }
}

pub open spec fn event_handle<H>(e: Event<H>) -> Option<H> {
    match e {
        Event::Spawned(h, _) => Some(h),
        _ => None,
    }
}

pub open spec fn initial_supervisor<H>() -> Supervisor<H> {
    Supervisor { status: BackendStatus::NotReady(None), child: None, epoch: 0 }
}

pub open spec fn status_text(s: BackendStatus) -> Seq<char> {
    match s {
        BackendStatus::Ready => "READY"@,
        BackendStatus::Starting => "STARTING"@,
        BackendStatus::NotReady(None) => "NOT_READY"@,
        BackendStatus::NotReady(Some(NotReadyReason::PortInUseNoHealth)) => "NOT_READY"@ + ":"@
            + NOT_READY_REASON_PORT_IN_USE@,
    }
}

/// What one event does: the new shared record, the new flow, the next
/// action, the handle to terminate, and the messages to log.
pub open spec fn advance_spec<H>(s: Supervisor<H>, f: Flow, e: Event<H>) -> (
    Supervisor<H>,
    Flow,
    Action,
    Option<H>,
    Seq<Note>,
) {
    let done = Flow { phase: Phase::Finished, ..f };
    if f.epoch != s.epoch {
        (s, done, Action::Finish, event_handle(e), seq![Note::Superseded])
    } else {
        match f.phase {
            Phase::Probing => match e {
                Event::Probed(healthy) => if healthy {
                    (
                        Supervisor { status: BackendStatus::Ready, ..s },
                        done,
                        Action::Finish,
                        None,
                        seq![Note::AlreadyHealthy, Note::ReadyAlreadyRunning],
                    )
                } else {
                    (s, Flow { phase: Phase::CheckingPort, ..f }, Action::CheckPort, None, seq![])
                },
                _ => (s, done, Action::Finish, event_handle(e), seq![]),
            },
            Phase::CheckingPort => match e {
                Event::PortChecked(bind_ok) => if bind_ok {
                    (s, Flow { phase: Phase::Spawning, ..f }, Action::Spawn, None, seq![Note::SpawnBegin])
                } else {
                    (
                        Supervisor {
                            status: BackendStatus::NotReady(Some(NotReadyReason::PortInUseNoHealth)),
                            ..s
                        },
                        done,
                        Action::Finish,
                        None,
                        seq![Note::PortInUse, Note::NotReadyPortInUse],
                    )
                },
                _ => (s, done, Action::Finish, event_handle(e), seq![]),
            },
            Phase::Spawning => match e {
                Event::Spawned(h, now_ms) => (
                    Supervisor { status: BackendStatus::Starting, child: Some(h), ..s },
                    Flow { phase: Phase::Polling, deadline_ms: deadline_after(now_ms), ..f },
                    Action::Poll,
                    s.child,
                    seq![Note::Spawned],
                ),
                Event::SpawnFailed => (
                    Supervisor { status: BackendStatus::NotReady(None), child: None, ..s },
                    done,
                    Action::Finish,
                    s.child,
                    seq![Note::SpawnFailed],
                ),
                _ => (s, done, Action::Finish, event_handle(e), seq![]),
            },
            Phase::Polling => match e {
                Event::Polled(healthy) => if healthy {
                    (
                        Supervisor { status: BackendStatus::Ready, ..s },
                        done,
                        Action::Finish,
                        None,
                        seq![Note::HealthOk, Note::Ready],
                    )
                } else {
                    (s, Flow { phase: Phase::Waiting, ..f }, Action::Sleep(HEALTH_POLL_MS), None, seq![])
                },
                _ => (s, done, Action::Finish, event_handle(e), seq![]),
            },
            Phase::Waiting => match e {
                Event::Slept(now_ms) => if now_ms < f.deadline_ms {
                    (s, Flow { phase: Phase::Polling, ..f }, Action::Poll, None, seq![])
                } else {
                    (
                        Supervisor { status: BackendStatus::NotReady(None), child: None, ..s },
                        done,
                        Action::Finish,
                        None,
                        seq![Note::HealthTimeout, Note::NotReadyTimeout],
                    )
                },
                _ => (s, done, Action::Finish, event_handle(e), seq![]),
            },
            Phase::Finished => (s, done, Action::Finish, event_handle(e), seq![]),
        }
    }
}

/// Starting a flow: the epoch moves on and, on a retry, any held child is
/// taken out and the status reset. `respawn` skips the probe and the port check.
pub open spec fn begin_spec<H>(s: Supervisor<H>, reset: bool, respawn: bool) -> (
    Supervisor<H>,
    Flow,
    Action,
    Option<H>,
    Seq<Note>,
) {
    let e = next_epoch(s.epoch);
    let s1 = if reset {
        Supervisor { status: BackendStatus::NotReady(None), child: None, epoch: e }
    } else {
        Supervisor { epoch: e, ..s }
    };
    let taken = if reset {
        s.child
    } else {
        None
    };
    if respawn {
        (s1, Flow { epoch: e, phase: Phase::Spawning, deadline_ms: 0 }, Action::Spawn, taken, seq![Note::SpawnBegin])
    } else {
        (s1, Flow { epoch: e, phase: Phase::Probing, deadline_ms: 0 }, Action::ProbeHealth, taken, seq![Note::ProbingHealth])
    }
}

impl<H> Supervisor<H> {
    /// The initial record: not ready, no reason, no child.
    pub fn new() -> (r: Self)
        ensures
            r == initial_supervisor::<H>(),
    {
        Supervisor { status: BackendStatus::NotReady(None), child: None, epoch: 0 }
    }

    fn bump_epoch(&mut self) -> (r: u64)
        ensures
            r == next_epoch(old(self).epoch),
            *final(self) == (Supervisor { epoch: r, ..*old(self) }),
    {
        let e = if self.epoch == u64::MAX {
            0
        } else {
            self.epoch + 1
        };
        self.epoch = e;
        e
    }

    /// Starts the autostart flow at process start: probe, port check, spawn, polls.
    pub fn begin_autostart_flow(&mut self) -> (r: (Flow, Step<H>))
        ensures
            ({
                let o = begin_spec(*old(self), false, false);
                *final(self) == o.0 && r.0 == o.1 && r.1.action == o.2 && r.1.terminate == o.3
                    && r.1.notes@ == o.4
            }),
    {
        let e = self.bump_epoch();
        let mut notes: Vec<Note> = Vec::new();
        notes.push(Note::ProbingHealth);
        assert(notes@ =~= seq![Note::ProbingHealth]);
        (
            Flow { epoch: e, phase: Phase::Probing, deadline_ms: 0 },
            Step { action: Action::ProbeHealth, terminate: None, notes },
        )
    }

    /// The retry command: takes out the held child for termination, resets
    /// the status, and starts a flow that spawns at once.
    pub fn retry_backend_start(&mut self) -> (r: (Flow, Step<H>))
        ensures
            ({
                let o = begin_spec(*old(self), true, true);
                *final(self) == o.0 && r.0 == o.1 && r.1.action == o.2 && r.1.terminate == o.3
                    && r.1.notes@ == o.4
            }),
    {
        let taken = self.child.take();
        self.status = BackendStatus::NotReady(None);
        let e = self.bump_epoch();
        let mut notes: Vec<Note> = Vec::new();
        notes.push(Note::SpawnBegin);
        assert(notes@ =~= seq![Note::SpawnBegin]);
        (
            Flow { epoch: e, phase: Phase::Spawning, deadline_ms: 0 },
            Step { action: Action::Spawn, terminate: taken, notes },
        )
    }

    /// The kill-and-retry command, once every process of the backend's
    /// executable has been told to stop: takes out the held child for
    /// termination, resets the status, and starts the full flow.
    pub fn kill_backend_and_retry(&mut self) -> (r: (Flow, Step<H>))
        ensures
            ({
                let o = begin_spec(*old(self), true, false);
                *final(self) == o.0 && r.0 == o.1 && r.1.action == o.2 && r.1.terminate == o.3
                    && r.1.notes@ == o.4
            }),
    {
        let taken = self.child.take();
        self.status = BackendStatus::NotReady(None);
        let e = self.bump_epoch();
        let mut notes: Vec<Note> = Vec::new();
        notes.push(Note::ProbingHealth);
        assert(notes@ =~= seq![Note::ProbingHealth]);
        (
            Flow { epoch: e, phase: Phase::Probing, deadline_ms: 0 },
            Step { action: Action::ProbeHealth, terminate: taken, notes },
        )
    }

    /// Feeds one event of `flow` to the supervisor.
    pub fn advance(&mut self, flow: &mut Flow, event: Event<H>) -> (r: Step<H>)
        ensures
            ({
                let o = advance_spec(*old(self), *old(flow), event);
                *final(self) == o.0 && *final(flow) == o.1 && r.action == o.2 && r.terminate == o.3
                    && r.notes@ == o.4
            }),
    {
        let mut notes: Vec<Note> = Vec::new();
        if flow.epoch != self.epoch {
            flow.phase = Phase::Finished;
            notes.push(Note::Superseded);
            assert(notes@ =~= seq![Note::Superseded]);
            let terminate = match event {
                Event::Spawned(h, _) => Some(h),
                _ => None,
            };
            return Step { action: Action::Finish, terminate, notes };
        }
        let ghost s0 = *self;
        let ghost f0 = *flow;
        let r = match (flow.phase, event) {
            (Phase::Probing, Event::Probed(healthy)) => {
                if healthy {
                    self.status = BackendStatus::Ready;
                    flow.phase = Phase::Finished;
                    notes.push(Note::AlreadyHealthy);
                    notes.push(Note::ReadyAlreadyRunning);
                    Step { action: Action::Finish, terminate: None, notes }
                } else {
                    flow.phase = Phase::CheckingPort;
                    Step { action: Action::CheckPort, terminate: None, notes }
                }
            },
            (Phase::CheckingPort, Event::PortChecked(bind_ok)) => {
                if bind_ok {
                    flow.phase = Phase::Spawning;
                    notes.push(Note::SpawnBegin);
                    Step { action: Action::Spawn, terminate: None, notes }
                } else {
                    self.status = BackendStatus::NotReady(Some(NotReadyReason::PortInUseNoHealth));
                    flow.phase = Phase::Finished;
                    notes.push(Note::PortInUse);
                    notes.push(Note::NotReadyPortInUse);
                    Step { action: Action::Finish, terminate: None, notes }
                }
            },
            (Phase::Spawning, Event::Spawned(h, now_ms)) => {
                let taken = self.child.take();
                self.child = Some(h);
                self.status = BackendStatus::Starting;
                flow.phase = Phase::Polling;
                flow.deadline_ms = if now_ms <= u64::MAX - HEALTH_TIMEOUT_MS {
                    now_ms + HEALTH_TIMEOUT_MS
                } else {
                    u64::MAX
                };
                notes.push(Note::Spawned);
                Step { action: Action::Poll, terminate: taken, notes }
            },
            (Phase::Spawning, Event::SpawnFailed) => {
                let taken = self.child.take();
                self.status = BackendStatus::NotReady(None);
                flow.phase = Phase::Finished;
                notes.push(Note::SpawnFailed);
                Step { action: Action::Finish, terminate: taken, notes }
            },
            (Phase::Polling, Event::Polled(healthy)) => {
                if healthy {
                    self.status = BackendStatus::Ready;
                    flow.phase = Phase::Finished;
                    notes.push(Note::HealthOk);
                    notes.push(Note::Ready);
                    Step { action: Action::Finish, terminate: None, notes }
                } else {
                    flow.phase = Phase::Waiting;
                    Step { action: Action::Sleep(HEALTH_POLL_MS), terminate: None, notes }
                }
            },
            (Phase::Waiting, Event::Slept(now_ms)) => {
                if now_ms < flow.deadline_ms {
                    flow.phase = Phase::Polling;
                    Step { action: Action::Poll, terminate: None, notes }
                } else {
                    // The child is let go without being killed.
                    self.child = None;
                    self.status = BackendStatus::NotReady(None);
                    flow.phase = Phase::Finished;
                    notes.push(Note::HealthTimeout);
                    notes.push(Note::NotReadyTimeout);
                    Step { action: Action::Finish, terminate: None, notes }
                }
            },
            (_, ev) => {
                flow.phase = Phase::Finished;
                let terminate = match ev {
                    Event::Spawned(h, _) => Some(h),
                    _ => None,
                };
                Step { action: Action::Finish, terminate, notes }
            },
        };
        proof {
            let o = advance_spec(s0, f0, event);
            assert(r.notes@ =~= o.4);
        }
        r
    }

    /// Whether the backend is ready to serve.
    pub fn is_backend_ready(&self) -> (r: bool)
        ensures
            r == (self.status == BackendStatus::Ready),
    {
        match self.status {
            BackendStatus::Ready => true,
            _ => false,
        }
    }

    /// The status as text: `READY`, `STARTING`, `NOT_READY`, or
    /// `NOT_READY:<reason>` where a reason is known.
    pub fn get_backend_status(&self) -> (r: String)
        ensures
            r@ == status_text(self.status),
    {
        match self.status {
            BackendStatus::Ready => String::from_str("READY"),
            BackendStatus::Starting => String::from_str("STARTING"),
            BackendStatus::NotReady(None) => String::from_str("NOT_READY"),
            BackendStatus::NotReady(Some(NotReadyReason::PortInUseNoHealth)) => {
                let mut r = String::from_str("NOT_READY");
                r.append(":");
                r.append(NOT_READY_REASON_PORT_IN_USE);
                r
            },
        }
    }
}

impl<H> Default for Supervisor<H> {
    fn default() -> (r: Self)
        ensures
            r == initial_supervisor::<H>(),
    {
        Supervisor::new()
    }
}

} // verus!

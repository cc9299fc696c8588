use sidecar_supervisor::health::{probe_health_ok, HttpReply};
use sidecar_supervisor::log::Note;
use sidecar_supervisor::supervisor::{
    Action, BackendStatus, Event, Flow, NotReadyReason, Phase, Step, Supervisor, HEALTH_POLL_MS,
};

/// A scripted outside world for one flow.
struct World {
    first_reply: Option<HttpReply>,
    bind_ok: bool,
    spawn_ok: bool,
    /// The poll (counting from 1) from which the backend answers 200.
    healthy_from_poll: Option<usize>,
    /// The body of a 200 poll reply.
    poll_body: String,
    clock_ms: u64,
    polls: usize,
    spawns: u32,
    statuses: Vec<String>,
    terminated: Vec<u32>,
    notes: Vec<Note>,
}

impl World {
    fn new(first_reply: Option<HttpReply>, bind_ok: bool, spawn_ok: bool, healthy_from_poll: Option<usize>) -> World {
        World {
            first_reply,
            bind_ok,
            spawn_ok,
            healthy_from_poll,
            poll_body: "{\"status\":\"ok\"}".to_string(),
            clock_ms: 1_000_000,
            polls: 0,
            spawns: 0,
            statuses: Vec::new(),
            terminated: Vec::new(),
            notes: Vec::new(),
        }
    }

    fn record(&mut self, sup: &Supervisor<u32>) {
        let s = sup.get_backend_status();
        if self.statuses.last() != Some(&s) {
            self.statuses.push(s);
        }
    }

    fn run(&mut self, sup: &mut Supervisor<u32>, flow: &mut Flow, first: Step<u32>) {
        let mut step = first;
        self.record(sup);
        loop {
            self.notes.extend(step.notes.iter().copied());
            if let Some(h) = step.terminate {
                self.terminated.push(h);
            }
            let event = match step.action {
                Action::ProbeHealth => Event::Probed(probe_health_ok(self.first_reply.as_ref())),
                Action::CheckPort => Event::PortChecked(self.bind_ok),
                Action::Spawn => {
                    self.spawns += 1;
                    if self.spawn_ok {
                        Event::Spawned(100 + self.spawns, self.clock_ms)
                    } else {
                        Event::SpawnFailed
                    }
                }
                Action::Poll => {
                    self.polls += 1;
                    let healthy = match self.healthy_from_poll {
                        Some(k) => self.polls >= k,
                        None => false,
                    };
                    let reply = if healthy {
                        Some(HttpReply { status: 200, body: Some(self.poll_body.clone()) })
                    } else {
                        None
                    };
                    Event::Polled(probe_health_ok(reply.as_ref()))
                }
                Action::Sleep(ms) => {
                    self.clock_ms += ms;
                    Event::Slept(self.clock_ms)
                }
                Action::Finish => break,
            };
            step = sup.advance(flow, event);
            self.record(sup);
        }
    }
}

fn ok_reply(body: &str) -> Option<HttpReply> {
    Some(HttpReply { status: 200, body: Some(body.to_string()) })
}

#[test]
fn healthy_at_start_is_ready_without_spawn() {
    let mut sup: Supervisor<u32> = Supervisor::new();
    let (mut flow, first) = sup.begin_autostart_flow();
    let mut w = World::new(ok_reply("{\"status\":\"ok\"}"), true, true, None);
    w.run(&mut sup, &mut flow, first);
    assert_eq!(sup.get_backend_status(), "READY");
    assert!(sup.is_backend_ready());
    assert_eq!(w.spawns, 0);
    assert!(sup.child.is_none());
    assert_eq!(w.notes, vec![Note::ProbingHealth, Note::AlreadyHealthy, Note::ReadyAlreadyRunning]);
}

#[test]
fn port_in_use_without_health_does_not_spawn() {
    let mut sup: Supervisor<u32> = Supervisor::new();
    let (mut flow, first) = sup.begin_autostart_flow();
    let mut w = World::new(None, false, true, None);
    w.run(&mut sup, &mut flow, first);
    assert_eq!(sup.get_backend_status(), "NOT_READY:PORT_IN_USE_NO_HEALTH");
    assert_eq!(sup.status, BackendStatus::NotReady(Some(NotReadyReason::PortInUseNoHealth)));
    assert!(!sup.is_backend_ready());
    assert_eq!(w.spawns, 0);
}

#[test]
fn becomes_ready_after_three_polls() {
    let mut sup: Supervisor<u32> = Supervisor::new();
    let (mut flow, first) = sup.begin_autostart_flow();
    let mut w = World::new(None, true, true, Some(3));
    w.run(&mut sup, &mut flow, first);
    assert_eq!(w.statuses, vec!["NOT_READY".to_string(), "STARTING".to_string(), "READY".to_string()]);
    assert_eq!(w.polls, 3);
    assert_eq!(w.spawns, 1);
    assert_eq!(w.clock_ms, 1_000_000 + 2 * HEALTH_POLL_MS);
    assert_eq!(sup.child, Some(101));
    assert!(w.terminated.is_empty());
}

#[test]
fn never_healthy_times_out_and_clears_handle() {
    let mut sup: Supervisor<u32> = Supervisor::new();
    let (mut flow, first) = sup.begin_autostart_flow();
    let mut w = World::new(None, true, true, None);
    w.run(&mut sup, &mut flow, first);
    assert_eq!(sup.status, BackendStatus::NotReady(None));
    assert_eq!(sup.get_backend_status(), "NOT_READY");
    assert!(sup.child.is_none());
    // Let go, not terminated.
    assert!(w.terminated.is_empty());
    assert_eq!(w.polls, 40);
    assert_eq!(w.clock_ms, 1_000_000 + 10_000);
    assert_eq!(flow.phase, Phase::Finished);
    assert_eq!(w.statuses, vec!["NOT_READY".to_string(), "STARTING".to_string(), "NOT_READY".to_string()]);
}

#[test]
fn spawn_failure_is_not_ready_without_handle() {
    let mut sup: Supervisor<u32> = Supervisor::new();
    let (mut flow, first) = sup.begin_autostart_flow();
    let mut w = World::new(None, true, false, None);
    w.run(&mut sup, &mut flow, first);
    assert_eq!(sup.status, BackendStatus::NotReady(None));
    assert!(sup.child.is_none());
    assert_eq!(w.spawns, 1);
    assert_eq!(*w.notes.last().unwrap(), Note::SpawnFailed);
}

#[test]
fn unhealthy_body_is_not_ready_probe() {
    let mut sup: Supervisor<u32> = Supervisor::new();
    let (mut flow, first) = sup.begin_autostart_flow();
    let mut w = World::new(ok_reply("{\"status\":\"down\"}"), false, true, None);
    w.run(&mut sup, &mut flow, first);
    assert_eq!(sup.get_backend_status(), "NOT_READY:PORT_IN_USE_NO_HEALTH");
}

#[test]
fn retry_terminates_previous_handle_first() {
    let mut sup: Supervisor<u32> = Supervisor::new();
    let (mut flow, first) = sup.begin_autostart_flow();
    let mut w = World::new(None, true, true, Some(1));
    w.run(&mut sup, &mut flow, first);
    assert_eq!(sup.child, Some(101));
    assert!(sup.is_backend_ready());

    let (mut flow2, first2) = sup.retry_backend_start();
    assert_eq!(first2.terminate, Some(101));
    assert_eq!(first2.action, Action::Spawn);
    assert!(sup.child.is_none());
    assert_eq!(sup.get_backend_status(), "NOT_READY");
    w.run(&mut sup, &mut flow2, first2);
    assert_eq!(w.terminated, vec![101]);
    assert_eq!(sup.child, Some(102));
    assert!(sup.is_backend_ready());
}

#[test]
fn kill_and_retry_runs_the_full_flow() {
    let mut sup: Supervisor<u32> = Supervisor::new();
    let (mut flow, first) = sup.begin_autostart_flow();
    let mut w = World::new(None, true, true, Some(2));
    w.run(&mut sup, &mut flow, first);
    assert_eq!(sup.child, Some(101));

    let (mut flow2, first2) = sup.kill_backend_and_retry();
    assert_eq!(first2.action, Action::ProbeHealth);
    assert_eq!(first2.terminate, Some(101));
    w.first_reply = ok_reply("ok");
    w.run(&mut sup, &mut flow2, first2);
    assert!(sup.is_backend_ready());
    assert!(sup.child.is_none());
    assert_eq!(w.spawns, 1);
}

#[test]
fn superseded_flow_changes_nothing() {
    let mut sup: Supervisor<u32> = Supervisor::new();
    let (mut old_flow, _) = sup.begin_autostart_flow();
    let step = sup.advance(&mut old_flow, Event::Probed(false));
    assert_eq!(step.action, Action::CheckPort);
    let step = sup.advance(&mut old_flow, Event::PortChecked(true));
    assert_eq!(step.action, Action::Spawn);

    let (mut new_flow, _) = sup.retry_backend_start();
    let late = sup.advance(&mut old_flow, Event::Spawned(7, 0));
    assert_eq!(late.action, Action::Finish);
    assert_eq!(late.terminate, Some(7));
    assert_eq!(late.notes, vec![Note::Superseded]);
    assert!(sup.child.is_none());
    assert_eq!(old_flow.phase, Phase::Finished);

    let step = sup.advance(&mut new_flow, Event::Spawned(8, 0));
    assert_eq!(step.action, Action::Poll);
    assert_eq!(sup.child, Some(8));
    assert_eq!(sup.status, BackendStatus::Starting);
}

#[test]
fn event_out_of_turn_ends_the_flow() {
    let mut sup: Supervisor<u32> = Supervisor::new();
    let (mut flow, _) = sup.begin_autostart_flow();
    let step = sup.advance(&mut flow, Event::Spawned(5, 0));
    assert_eq!(step.action, Action::Finish);
    assert_eq!(step.terminate, Some(5));
    assert!(sup.child.is_none());
    assert_eq!(sup.status, BackendStatus::NotReady(None));
}

#[test]
fn default_supervisor_is_not_ready() {
    let sup: Supervisor<u32> = Supervisor::default();
    assert_eq!(sup.status, BackendStatus::NotReady(None));
    assert!(sup.child.is_none());
    assert_eq!(sup.get_backend_status(), "NOT_READY");
    assert!(!sup.is_backend_ready());
}

#[test]
fn deadline_saturates_near_the_end_of_the_clock() {
    let mut sup: Supervisor<u32> = Supervisor::new();
    let (mut flow, _) = sup.retry_backend_start();
    let step = sup.advance(&mut flow, Event::Spawned(1, u64::MAX - 5));
    assert_eq!(step.action, Action::Poll);
    assert_eq!(flow.deadline_ms, u64::MAX);
}

#[test]
fn success_code_without_marker_never_becomes_ready() {
    let mut sup: Supervisor<u32> = Supervisor::new();
    let (mut flow, first) = sup.begin_autostart_flow();
    let mut w = World::new(None, true, true, Some(1));
    w.poll_body = "{\"status\":\"starting\"}".to_string();
    w.run(&mut sup, &mut flow, first);
    assert_eq!(sup.status, BackendStatus::NotReady(None));
    assert!(sup.child.is_none());
    assert_eq!(w.polls, 40);
    assert!(w.terminated.is_empty());
}

#[test]
fn busy_port_leaves_held_child_alone() {
    let mut sup: Supervisor<u32> = Supervisor::new();
    let (mut flow, first) = sup.begin_autostart_flow();
    let mut w = World::new(None, true, true, Some(1));
    w.run(&mut sup, &mut flow, first);
    assert_eq!(sup.child, Some(101));

    let (mut flow2, first2) = sup.begin_autostart_flow();
    assert!(first2.terminate.is_none());
    let step = sup.advance(&mut flow2, Event::Probed(false));
    assert_eq!(step.action, Action::CheckPort);
    let step = sup.advance(&mut flow2, Event::PortChecked(false));
    assert_eq!(step.action, Action::Finish);
    assert!(step.terminate.is_none());
    assert_eq!(sup.child, Some(101));
    assert_eq!(sup.get_backend_status(), "NOT_READY:PORT_IN_USE_NO_HEALTH");
}

//! Properties of the supervisor's state machine, stated over the same spec
//! functions as the contracts of its executable methods.
use vstd::prelude::*;
use crate::supervisor::{
    advance_spec, begin_spec, event_handle, Action, BackendStatus, Event, Flow, NotReadyReason,
    Phase, Supervisor,
};

verus! {

/// The port check of a current flow: a failed bind ends the flow with the
/// port-in-use reason, no spawn, and the held child left as it was; a
/// successful bind asks for a spawn and changes nothing else.
pub proof fn law_port_busy_iff_bind_failed<H>(s: Supervisor<H>, f: Flow, bind_ok: bool)
    requires
        f.epoch == s.epoch,
        f.phase == Phase::CheckingPort,
    ensures
        ({
            let o = advance_spec(s, f, Event::<H>::PortChecked(bind_ok));
            &&& !bind_ok ==> o.0.status == BackendStatus::NotReady(
                Some(NotReadyReason::PortInUseNoHealth),
            ) && o.0.child == s.child && o.0.epoch == s.epoch && o.2 == Action::Finish
                && o.3 is None
            &&& bind_ok ==> o.0 == s && o.2 == Action::Spawn
        }),
{
}

/// From not-ready, a healthy first probe makes the backend ready at once:
/// no spawn is asked for, no child handle comes into being, none is handed out.
pub proof fn law_healthy_probe_skips_spawn<H>(s: Supervisor<H>, f: Flow)
    requires
        s.status is NotReady,
        f.epoch == s.epoch,
        f.phase == Phase::Probing,
    ensures
        ({
            let o = advance_spec(s, f, Event::<H>::Probed(true));
            &&& o.0.status == BackendStatus::Ready
            &&& o.0.child == s.child
            &&& o.1.phase == Phase::Finished
            &&& o.2 == Action::Finish
            &&& o.3 is None
        }),
{
}

/// From not-ready, with the probe failed and the port free, a failed spawn
/// ends in not-ready without a reason and with no handle kept; a handle held
/// before is handed out for termination.
pub proof fn law_spawn_failure_keeps_no_handle<H>(s: Supervisor<H>, f: Flow)
    requires
        s.status is NotReady,
        f.epoch == s.epoch,
        f.phase == Phase::Probing,
    ensures
        ({
            let o1 = advance_spec(s, f, Event::<H>::Probed(false));
            let o2 = advance_spec(o1.0, o1.1, Event::<H>::PortChecked(true));
            let o3 = advance_spec(o2.0, o2.1, Event::<H>::SpawnFailed);
            &&& o1.2 == Action::CheckPort
            &&& o2.2 == Action::Spawn
            &&& o3.0.status == BackendStatus::NotReady(None)
            &&& o3.0.child is None
            &&& o3.3 == s.child
            &&& o3.2 == Action::Finish
        }),
{
}

/// While the backend starts, a failed poll and a pause that ends before the
/// deadline leave the shared record as it was; a pause that reaches the
/// deadline makes it not-ready without a reason and lets the child go
/// without asking for it to be terminated.
pub proof fn law_starting_times_out<H>(s: Supervisor<H>, f: Flow, now_ms: u64)
    requires
        s.status == BackendStatus::Starting,
        f.epoch == s.epoch,
        f.phase == Phase::Polling,
    ensures
        ({
            let o1 = advance_spec(s, f, Event::<H>::Polled(false));
            let o2 = advance_spec(o1.0, o1.1, Event::<H>::Slept(now_ms));
            &&& o1.0 == s
            &&& o1.2 == Action::Sleep(crate::supervisor::HEALTH_POLL_MS)
            &&& now_ms < f.deadline_ms ==> o2.0 == s && o2.2 == Action::Poll
            &&& now_ms >= f.deadline_ms ==> o2.0.status == BackendStatus::NotReady(None)
                && o2.0.child is None && o2.3 is None && o2.2 == Action::Finish
        }),
{
}

/// Feeds `ts.len()` rounds of a failed poll followed by a pause that ends
/// at clock reading `ts[k]`; tells whether any round handed a child out.
pub open spec fn run_failed_polls<H>(s: Supervisor<H>, f: Flow, ts: Seq<u64>) -> (
    Supervisor<H>,
    Flow,
    bool,
)
    decreases ts.len(),
{
    if ts.len() == 0 {
        (s, f, false)
    } else {
        let o1 = advance_spec(s, f, Event::<H>::Polled(false));
        let o2 = advance_spec(o1.0, o1.1, Event::<H>::Slept(ts[0]));
        let rest = run_failed_polls(o2.0, o2.1, ts.drop_first());
        (rest.0, rest.1, o1.3 is Some || o2.3 is Some || rest.2)
    }
}

/// Health that stays false over the whole window: every pause but the last
/// ends before the deadline and the last reaches it. The backend then ends
/// not-ready without a reason, the handle is cleared, the flow is over, and
/// no child was handed out for termination on the way.
pub proof fn law_timeout_window<H>(s: Supervisor<H>, f: Flow, ts: Seq<u64>)
    requires
        s.status == BackendStatus::Starting,
        f.epoch == s.epoch,
        f.phase == Phase::Polling,
        ts.len() > 0,
        forall|k: int| 0 <= k < ts.len() - 1 ==> #[trigger] ts[k] < f.deadline_ms,
        ts.last() >= f.deadline_ms,
    ensures
        ({
            let r = run_failed_polls(s, f, ts);
            &&& r.0.status == BackendStatus::NotReady(None)
            &&& r.0.child is None
            &&& r.1.phase == Phase::Finished
            &&& !r.2
        }),
    decreases ts.len(),
{
    if ts.len() == 1 {
        assert(ts[0] == ts.last());
        assert(ts.drop_first().len() == 0);
        let o1 = advance_spec(s, f, Event::<H>::Polled(false));
        let o2 = advance_spec(o1.0, o1.1, Event::<H>::Slept(ts[0]));
        assert(run_failed_polls(o2.0, o2.1, ts.drop_first()) == (o2.0, o2.1, false));
    } else {
        let o1 = advance_spec(s, f, Event::<H>::Polled(false));
        let o2 = advance_spec(o1.0, o1.1, Event::<H>::Slept(ts[0]));
        assert(ts[0] < f.deadline_ms);
        assert(o2.0 == s && o2.1 == f);
        let rest = ts.drop_first();
        assert forall|k: int| 0 <= k < rest.len() - 1 implies #[trigger] rest[k] < f.deadline_ms by {
            assert(rest[k] == ts[k + 1]);
        }
        assert(rest.last() == ts.last());
        law_timeout_window(s, f, rest);
        assert(o1.3 is None && o2.3 is None);
    }
}

/// A retry hands the held child out for termination before its flow asks
/// for a spawn; the child that the spawn reports is then the one held, and
/// nothing else is handed out.
pub proof fn law_retry_replaces_handle<H>(s: Supervisor<H>, old_child: H, new_child: H, now_ms: u64)
    requires
        s.child == Some(old_child),
    ensures
        ({
            let o = begin_spec(s, true, true);
            let p = advance_spec(o.0, o.1, Event::Spawned(new_child, now_ms));
            &&& o.3 == Some(old_child)
            &&& o.0.child is None
            &&& o.0.status == BackendStatus::NotReady(None)
            &&& o.2 == Action::Spawn
            &&& p.0.child == Some(new_child)
            &&& p.0.status == BackendStatus::Starting
            &&& p.3 is None
        }),
{
}

/// A flow that a newer one has superseded changes nothing, and a child that
/// it reports as spawned is handed back for termination.
pub proof fn law_superseded_flow_is_inert<H>(s: Supervisor<H>, f: Flow, e: Event<H>)
    requires
        f.epoch != s.epoch,
    ensures
        ({
            let o = advance_spec(s, f, e);
            &&& o.0 == s
            &&& o.1.phase == Phase::Finished
            &&& o.2 == Action::Finish
            &&& o.3 == event_handle(e)
        }),
{
}

/// Starting any flow supersedes every flow that was under way.
pub proof fn law_begin_supersedes<H>(s: Supervisor<H>, f: Flow, reset: bool, respawn: bool)
    requires
        f.epoch == s.epoch,
    ensures
        begin_spec(s, reset, respawn).0.epoch != f.epoch,
        begin_spec(s, reset, respawn).1.epoch == begin_spec(s, reset, respawn).0.epoch,
{
}

} // verus!

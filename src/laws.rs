use vstd::prelude::*;
use crate::barrier::{Arrival, Barrier};
use crate::commands::SupervisorCommand;
use crate::supervisor::{
    Outcome, Supervisor, SupervisorAction, SupervisorPhase, phase_rank, supervisor_next,
    supervisor_run,
};
use crate::commands::WorkerSignal;
use crate::scheduler::{DrainStep, Scheduler, drain_decision};
use crate::types::{ThreadSource, is_actor, is_worker, roster};
use crate::worker::{
    Handles, Worker, full_handles, WorkerAction, WorkerEvent, WorkerPhase, has_all_handles, has_entered_steady_state,
    is_live, needs_handle, worker_next, worker_run, worker_wf,
};

verus! {

/// An order of arrival of the whole roster: each worker exactly once.
pub open spec fn is_arrival_order(order: Seq<ThreadSource>) -> bool {
    &&& order.len() == 3
    &&& order.no_duplicates()
    &&& forall|i: int| 0 <= i < order.len() ==> is_worker(#[trigger] order[i])
}

pub open spec fn ready_messages(order: Seq<ThreadSource>) -> Seq<SupervisorCommand> {
    order.map_values(|t: ThreadSource| SupervisorCommand::ThreadReady(t))
}

pub open spec fn finished_messages(order: Seq<ThreadSource>) -> Seq<SupervisorCommand> {
    order.map_values(|t: ThreadSource| SupervisorCommand::ThreadFinished(t))
}

/// The supervisor's lifecycle never moves backwards.
pub proof fn lemma_supervisor_phase_monotonic(s: Supervisor, c: SupervisorCommand)
    ensures
        phase_rank(supervisor_next(s, c).0.phase) >= phase_rank(s.phase),
{
}

/// SupervisorReady is broadcast only from the handshake wait, on the message
/// that completes the set of ready workers, and the supervisor is then running.
pub proof fn lemma_ready_broadcast_needs_whole_roster(s: Supervisor, c: SupervisorCommand)
    ensures
        supervisor_next(s, c).1 == SupervisorAction::BroadcastReady ==> {
            &&& s.phase == SupervisorPhase::HandshakeWait
            &&& s.ready@ != roster()
            &&& supervisor_next(s, c).0.ready@ == roster()
            &&& supervisor_next(s, c).0.phase == SupervisorPhase::Running
        },
{
    if supervisor_next(s, c).1 == SupervisorAction::BroadcastReady {
        let w = c->ThreadReady_0;
        s.ready.lemma_view();
        s.ready.spec_insert(w).lemma_view();
    }
}

/// The phase from which a broadcast of the supervisor is sent.
pub open spec fn broadcast_phase(a: SupervisorAction) -> SupervisorPhase {
    match a {
        SupervisorAction::BroadcastReady => SupervisorPhase::HandshakeWait,
        SupervisorAction::BroadcastShutdown => SupervisorPhase::Running,
        _ => SupervisorPhase::ShuttingDown,
    }
}

pub open spec fn is_broadcast(a: SupervisorAction) -> bool {
    a == SupervisorAction::BroadcastReady || a == SupervisorAction::BroadcastShutdown
        || a == SupervisorAction::BroadcastFinished
}

/// Each broadcast leaves the phase it is sent from, for good.
pub proof fn lemma_broadcast_leaves_its_phase(s: Supervisor, c: SupervisorCommand, a: SupervisorAction)
    requires
        is_broadcast(a),
    ensures
        supervisor_next(s, c).1 == a ==> {
            &&& s.phase == broadcast_phase(a)
            &&& phase_rank(supervisor_next(s, c).0.phase) > phase_rank(broadcast_phase(a))
        },
{
}

/// Over any sequence of messages, each of SupervisorReady, Shutdown and
/// SupervisorFinished is broadcast at most once.
pub proof fn lemma_broadcast_at_most_once(s: Supervisor, cs: Seq<SupervisorCommand>, a: SupervisorAction)
    requires
        is_broadcast(a),
    ensures
        supervisor_run(s, cs).1.len() == cs.len(),
        forall|i: int, j: int|
            0 <= i < j < cs.len() && supervisor_run(s, cs).1[i] == a
                ==> supervisor_run(s, cs).1[j] != a,
        forall|i: int|
            0 <= i < cs.len() && supervisor_run(s, cs).1[i] == a ==> phase_rank(
                supervisor_run(s, cs).0.phase,
            ) > phase_rank(broadcast_phase(a)),
    decreases cs.len(),
{
    if cs.len() > 0 {
        let before = supervisor_run(s, cs.drop_last());
        lemma_broadcast_at_most_once(s, cs.drop_last(), a);
        lemma_supervisor_phase_monotonic(before.0, cs.last());
        lemma_broadcast_leaves_its_phase(before.0, cs.last(), a);
        let acts = supervisor_run(s, cs).1;
        assert(acts == before.1.push(supervisor_next(before.0, cs.last()).1));
        assert forall|i: int, j: int| 0 <= i < j < cs.len() && acts[i] == a implies acts[j] != a by {
            assert(before.1[i] == acts[i]);
            if j < cs.len() - 1 {
                assert(before.1[j] == acts[j]);
            }
        }
        assert forall|i: int| 0 <= i < cs.len() && acts[i] == a implies phase_rank(
            supervisor_run(s, cs).0.phase,
        ) > phase_rank(broadcast_phase(a)) by {
            if i < cs.len() - 1 {
                assert(before.1[i] == acts[i]);
            }
        }
    }
}

/// Three arrivals of distinct workers into an empty barrier: the first two
/// are recorded, the third completes it.
pub proof fn lemma_three_arrivals(b: Barrier, order: Seq<ThreadSource>)
    requires
        b@ == Set::<ThreadSource>::empty(),
        is_arrival_order(order),
    ensures
        b.spec_arrival(order[0]) == Arrival::Recorded,
        b.spec_insert(order[0]).spec_arrival(order[1]) == Arrival::Recorded,
        b.spec_insert(order[0]).spec_insert(order[1]).spec_arrival(order[2]) == Arrival::Complete,
        b.spec_insert(order[0]).spec_insert(order[1]).spec_insert(order[2])@ == roster(),
{
    let b1 = b.spec_insert(order[0]);
    let b2 = b1.spec_insert(order[1]);
    let b3 = b2.spec_insert(order[2]);
    assert(is_worker(order[0]) && is_worker(order[1]) && is_worker(order[2]));
    b.lemma_view();
    b1.lemma_view();
    b2.lemma_view();
    b3.lemma_view();
    b.lemma_insert(order[0]);
    b1.lemma_insert(order[1]);
    b2.lemma_insert(order[2]);
    assert(!b.contains(order[0])) by {
        assert(!b@.contains(order[0]));
    }
    assert(b1@ == set![order[0]]);
    assert(!roster().subset_of(b1@)) by {
        assert(roster().contains(order[1]));
    }
    assert(!b1.contains(order[1])) by {
        assert(!b1@.contains(order[1]));
    }
    assert(b2@ == set![order[0], order[1]]);
    assert(!roster().subset_of(b2@)) by {
        assert(roster().contains(order[2]));
    }
    assert(!b2.contains(order[2])) by {
        assert(!b2@.contains(order[2]));
    }
    assert(b3@ =~= roster()) by {
        crate::types::lemma_roster_is_workers(ThreadSource::Render);
        crate::types::lemma_roster_is_workers(ThreadSource::Controller);
        crate::types::lemma_roster_is_workers(ThreadSource::Process);
        assert(b3@ == set![order[0], order[1], order[2]]);
    }
}

/// Whatever the order in which the workers' ThreadReady messages arrive, the
/// supervisor waits on the first two and broadcasts SupervisorReady on the
/// third, once every worker is ready.
pub proof fn lemma_ready_barrier_any_order(s: Supervisor, order: Seq<ThreadSource>)
    requires
        s.phase == SupervisorPhase::HandshakeWait,
        s.ready@ == Set::<ThreadSource>::empty(),
        is_arrival_order(order),
    ensures
        supervisor_run(s, ready_messages(order)).1 == seq![
            SupervisorAction::Wait,
            SupervisorAction::Wait,
            SupervisorAction::BroadcastReady,
        ],
        supervisor_run(s, ready_messages(order)).0.phase == SupervisorPhase::Running,
        supervisor_run(s, ready_messages(order)).0.ready@ == roster(),
{
    let cs = ready_messages(order);
    lemma_three_arrivals(s.ready, order);
    assert(cs[0] == SupervisorCommand::ThreadReady(order[0]));
    assert(cs[1] == SupervisorCommand::ThreadReady(order[1]));
    assert(cs[2] == SupervisorCommand::ThreadReady(order[2]));
    assert(cs.drop_last().drop_last().drop_last() =~= Seq::<SupervisorCommand>::empty());
    assert(cs.drop_last().drop_last().last() == cs[0]);
    assert(cs.drop_last().last() == cs[1]);
    assert(cs.last() == cs[2]);
    let s1 = supervisor_next(s, cs[0]);
    assert(supervisor_run(s, cs.drop_last().drop_last()) == (s1.0, seq![s1.1])) by {
        assert(supervisor_run(s, cs.drop_last().drop_last().drop_last()) == (s, Seq::<SupervisorAction>::empty()));
        assert(seq![s1.1] =~= Seq::<SupervisorAction>::empty().push(s1.1));
    }
    let s2 = supervisor_next(s1.0, cs[1]);
    assert(supervisor_run(s, cs.drop_last()) == (s2.0, seq![s1.1, s2.1])) by {
        assert(seq![s1.1, s2.1] =~= seq![s1.1].push(s2.1));
    }
    let s3 = supervisor_next(s2.0, cs[2]);
    assert(supervisor_run(s, cs).1 =~= seq![s1.1, s2.1].push(s3.1));
}

/// SupervisorFinished is broadcast only from the shutdown wait, on the message
/// that completes the set of finished workers, and the supervisor has then
/// terminated cleanly.
pub proof fn lemma_finished_broadcast_needs_whole_roster(s: Supervisor, c: SupervisorCommand)
    ensures
        supervisor_next(s, c).1 == SupervisorAction::BroadcastFinished ==> {
            &&& s.phase == SupervisorPhase::ShuttingDown
            &&& s.finished@ != roster()
            &&& supervisor_next(s, c).0.finished@ == roster()
            &&& supervisor_next(s, c).0.phase == SupervisorPhase::Terminated
            &&& supervisor_next(s, c).0.outcome == Some(Outcome::Clean)
        },
{
    if supervisor_next(s, c).1 == SupervisorAction::BroadcastFinished {
        let w = c->ThreadFinished_0;
        s.finished.lemma_view();
        s.finished.spec_insert(w).lemma_view();
    }
}

/// After a Quit in steady state, the supervisor broadcasts Shutdown, waits on
/// the first two ThreadFinished messages, in whatever order they come, and
/// broadcasts SupervisorFinished on the third; it has then terminated cleanly
/// and joins every worker.
pub proof fn lemma_shutdown_barrier_any_order(s: Supervisor, order: Seq<ThreadSource>)
    requires
        s.phase == SupervisorPhase::Running,
        s.finished@ == Set::<ThreadSource>::empty(),
        is_arrival_order(order),
    ensures
        supervisor_run(s, seq![SupervisorCommand::Quit] + finished_messages(order)).1 == seq![
            SupervisorAction::BroadcastShutdown,
            SupervisorAction::Wait,
            SupervisorAction::Wait,
            SupervisorAction::BroadcastFinished,
        ],
        supervisor_run(s, seq![SupervisorCommand::Quit] + finished_messages(order)).0.phase
            == SupervisorPhase::Terminated,
        supervisor_run(s, seq![SupervisorCommand::Quit] + finished_messages(order)).0.outcome
            == Some(Outcome::Clean),
        supervisor_run(s, seq![SupervisorCommand::Quit] + finished_messages(order)).0.finished@
            == roster(),
{
    let cs = seq![SupervisorCommand::Quit] + finished_messages(order);
    lemma_three_arrivals(s.finished, order);
    assert(cs.len() == 4);
    assert(cs[0] == SupervisorCommand::Quit);
    assert(cs[1] == SupervisorCommand::ThreadFinished(order[0]));
    assert(cs[2] == SupervisorCommand::ThreadFinished(order[1]));
    assert(cs[3] == SupervisorCommand::ThreadFinished(order[2]));
    let c1 = cs.drop_last().drop_last().drop_last();
    let c2 = cs.drop_last().drop_last();
    let c3 = cs.drop_last();
    assert(c1.drop_last() =~= Seq::<SupervisorCommand>::empty());
    assert(c1.last() == cs[0]);
    assert(c2.last() == cs[1]);
    assert(c3.last() == cs[2]);
    assert(cs.last() == cs[3]);
    let s1 = supervisor_next(s, cs[0]);
    assert(supervisor_run(s, c1) == (s1.0, seq![s1.1])) by {
        assert(supervisor_run(s, c1.drop_last()) == (s, Seq::<SupervisorAction>::empty()));
        assert(seq![s1.1] =~= Seq::<SupervisorAction>::empty().push(s1.1));
    }
    let s2 = supervisor_next(s1.0, cs[1]);
    assert(supervisor_run(s, c2) == (s2.0, seq![s1.1, s2.1])) by {
        assert(seq![s1.1, s2.1] =~= seq![s1.1].push(s2.1));
    }
    let s3 = supervisor_next(s2.0, cs[2]);
    assert(supervisor_run(s, c3) == (s3.0, seq![s1.1, s2.1, s3.1])) by {
        assert(seq![s1.1, s2.1, s3.1] =~= seq![s1.1, s2.1].push(s3.1));
    }
    let s4 = supervisor_next(s3.0, cs[3]);
    assert(supervisor_run(s, cs).1 =~= seq![s1.1, s2.1, s3.1].push(s4.1));
}

/// A worker keeps holding handles of its peers only.
pub proof fn lemma_worker_wf_preserved(w: Worker, e: WorkerEvent)
    requires
        worker_wf(w),
    ensures
        worker_wf(worker_next(w, e).0),
        worker_next(w, e).0.identity == w.identity,
{
    let n = worker_next(w, e).0;
    assert forall|t: ThreadSource| #[trigger] n.handles.holds(t) implies needs_handle(
        n.identity,
        t,
    ) by {
        if !w.handles.holds(t) {
            assert(e is PeerHandle && t == e->PeerHandle_0);
        }
    }
}

/// A worker enters its steady state only from the wait for SupervisorReady,
/// and only on receiving it; EnterRunning answers nothing else.
pub proof fn lemma_steady_state_needs_supervisor_ready(w: Worker, e: WorkerEvent)
    ensures
        has_entered_steady_state(worker_next(w, e).0.phase) && !has_entered_steady_state(w.phase)
            ==> {
            &&& w.phase == WorkerPhase::AwaitingSupervisorReady
            &&& e == WorkerEvent::Received(WorkerSignal::SupervisorReady)
            &&& worker_next(w, e).1 == WorkerAction::EnterRunning
        },
        worker_next(w, e).1 == WorkerAction::EnterRunning ==> e == WorkerEvent::Received(
            WorkerSignal::SupervisorReady,
        ),
{
}

/// Over any sequence of events, a worker that had not entered its steady
/// state enters it only at a SupervisorReady that it received.
pub proof fn lemma_run_enters_steady_state_after_ready(w: Worker, es: Seq<WorkerEvent>)
    requires
        !has_entered_steady_state(w.phase),
    ensures
        worker_run(w, es).1.len() == es.len(),
        has_entered_steady_state(worker_run(w, es).0.phase) ==> exists|i: int|
            0 <= i < es.len() && es[i] == WorkerEvent::Received(WorkerSignal::SupervisorReady)
                && #[trigger] worker_run(w, es).1[i] == WorkerAction::EnterRunning,
    decreases es.len(),
{
    if es.len() > 0 {
        let before = worker_run(w, es.drop_last());
        lemma_run_enters_steady_state_after_ready(w, es.drop_last());
        lemma_steady_state_needs_supervisor_ready(before.0, es.last());
        let acts = worker_run(w, es).1;
        assert(acts == before.1.push(worker_next(before.0, es.last()).1));
        if has_entered_steady_state(worker_run(w, es).0.phase) {
            if has_entered_steady_state(before.0.phase) {
                let i = choose|i: int|
                    0 <= i < es.drop_last().len() && es.drop_last()[i] == WorkerEvent::Received(
                        WorkerSignal::SupervisorReady,
                    ) && #[trigger] before.1[i] == WorkerAction::EnterRunning;
                assert(es[i] == es.drop_last()[i]);
                assert(acts[i] == before.1[i]);
            } else {
                let i = es.len() - 1;
                assert(acts[i] == WorkerAction::EnterRunning);
            }
        }
    }
}

/// A worker that holds all its handles and meets a fault of its own (a send
/// that failed) broadcasts its crash to each other actor, the supervisor and
/// the two other workers, exactly once; having returned, it sends nothing more.
pub proof fn lemma_fault_broadcasts_to_each_peer_once(x: Worker, later: WorkerEvent)
    requires
        worker_wf(x),
        has_all_handles(x.identity, x.handles),
        is_live(x.phase),
    ensures
        worker_next(x, WorkerEvent::Fault) == (
            Worker { phase: WorkerPhase::Crashed, ..x },
            WorkerAction::BroadcastCrash,
        ),
        x.handles.targets().len() == 3,
        x.handles.targets().no_duplicates(),
        forall|t: ThreadSource| #[trigger]
            x.handles.targets().contains(t) <==> (is_actor(t) && t != x.identity),
        worker_next(worker_next(x, WorkerEvent::Fault).0, later).1 == WorkerAction::Wait,
{
    let h = x.handles;
    assert(h.holds(ThreadSource::Supervisor) == (x.identity != ThreadSource::Supervisor)) by {
        assert(needs_handle(x.identity, ThreadSource::Supervisor));
    }
    assert(h.holds(ThreadSource::Render) == (x.identity != ThreadSource::Render)) by {
        if x.identity != ThreadSource::Render {
            assert(needs_handle(x.identity, ThreadSource::Render));
        }
    }
    assert(h.holds(ThreadSource::Controller) == (x.identity != ThreadSource::Controller)) by {
        if x.identity != ThreadSource::Controller {
            assert(needs_handle(x.identity, ThreadSource::Controller));
        }
    }
    assert(h.holds(ThreadSource::Process) == (x.identity != ThreadSource::Process)) by {
        if x.identity != ThreadSource::Process {
            assert(needs_handle(x.identity, ThreadSource::Process));
        }
    }
    let expected = if x.identity == ThreadSource::Render {
        seq![ThreadSource::Supervisor, ThreadSource::Controller, ThreadSource::Process]
    } else if x.identity == ThreadSource::Controller {
        seq![ThreadSource::Supervisor, ThreadSource::Render, ThreadSource::Process]
    } else {
        seq![ThreadSource::Supervisor, ThreadSource::Render, ThreadSource::Controller]
    };
    assert(h.targets() =~= expected);
    assert forall|t: ThreadSource| #[trigger]
        h.targets().contains(t) <==> (is_actor(t) && t != x.identity) by {
        if is_actor(t) && t != x.identity {
            if t == expected[0] {
                assert(h.targets()[0] == t);
            } else if t == expected[1] {
                assert(h.targets()[1] == t);
            } else {
                assert(h.targets()[2] == t);
            }
        }
    }
}

/// A crash that an actor receives is never broadcast again: a live worker
/// returns without sending anything, and the supervisor forwards nothing.
pub proof fn lemma_received_crash_is_not_rebroadcast(
    y: Worker,
    s: Supervisor,
    origin: ThreadSource,
)
    ensures
        worker_next(y, WorkerEvent::Received(WorkerSignal::ThreadCrash(origin))).1 == (if is_live(
            y.phase,
        ) {
            WorkerAction::Unwind(origin)
        } else {
            WorkerAction::Wait
        }),
        supervisor_next(s, SupervisorCommand::ThreadCrash(origin)).1 == (
        match s.phase {
            SupervisorPhase::Bootstrapping => SupervisorAction::Abort,
            SupervisorPhase::Terminated => SupervisorAction::Wait,
            _ => SupervisorAction::Unwind(origin),
        }),
{
}

/// Tick on a running worker whose mailbox holds nothing else only ends the
/// drain: the state is unchanged, and a second Tick does the same.
pub proof fn lemma_tick_is_idempotent(w: Worker)
    requires
        w.phase == WorkerPhase::Running,
    ensures
        worker_next(w, WorkerEvent::Received(WorkerSignal::Tick)) == (w, WorkerAction::EndDrain),
        worker_next(
            worker_next(w, WorkerEvent::Received(WorkerSignal::Tick)).0,
            WorkerEvent::Received(WorkerSignal::Tick),
        ) == worker_next(w, WorkerEvent::Received(WorkerSignal::Tick)),
{
}

/// A worker returns normally only from the wait for SupervisorFinished, and
/// only on receiving it.
pub proof fn lemma_exit_needs_supervisor_finished(w: Worker, e: WorkerEvent)
    ensures
        worker_next(w, e).1 == WorkerAction::Exit ==> {
            &&& w.phase == WorkerPhase::AwaitingSupervisorFinished
            &&& e == WorkerEvent::Received(WorkerSignal::SupervisorFinished)
            &&& worker_next(w, e).0.phase == WorkerPhase::Finished
        },
        worker_next(w, e).0.phase == WorkerPhase::Finished && w.phase != WorkerPhase::Finished
            ==> worker_next(w, e).1 == WorkerAction::Exit,
{
}

/// Over any sequence of events, a worker that had not finished finishes only
/// at a SupervisorFinished that it received.
pub proof fn lemma_run_exits_after_supervisor_finished(w: Worker, es: Seq<WorkerEvent>)
    requires
        w.phase != WorkerPhase::Finished,
    ensures
        worker_run(w, es).1.len() == es.len(),
        worker_run(w, es).0.phase == WorkerPhase::Finished ==> exists|i: int|
            0 <= i < es.len() && es[i] == WorkerEvent::Received(WorkerSignal::SupervisorFinished)
                && #[trigger] worker_run(w, es).1[i] == WorkerAction::Exit,
    decreases es.len(),
{
    if es.len() > 0 {
        let before = worker_run(w, es.drop_last());
        lemma_run_exits_after_supervisor_finished(w, es.drop_last());
        lemma_exit_needs_supervisor_finished(before.0, es.last());
        let acts = worker_run(w, es).1;
        assert(acts == before.1.push(worker_next(before.0, es.last()).1));
        if worker_run(w, es).0.phase == WorkerPhase::Finished {
            if before.0.phase == WorkerPhase::Finished {
                let i = choose|i: int|
                    0 <= i < es.drop_last().len() && es.drop_last()[i] == WorkerEvent::Received(
                        WorkerSignal::SupervisorFinished,
                    ) && #[trigger] before.1[i] == WorkerAction::Exit;
                assert(es[i] == es.drop_last()[i]);
                assert(acts[i] == before.1[i]);
            } else {
                let i = es.len() - 1;
                assert(acts[i] == WorkerAction::Exit);
            }
        }
    }
}

/// A drain decision taken at `now` by the phase that began at `start`.
pub open spec fn drain_at(sched: Scheduler, start: u64, poll: (u64, bool, bool)) -> DrainStep {
    drain_decision(sched.plan_storage_commands_handling_i, start, poll.0, poll.1, poll.2)
}

/// However many items the secondary queue offers, a drain phase that began at
/// `start` is over by `start + budget + eps`, where `eps` bounds the time
/// between two polls (one item handled, or one pause): each poll is given as
/// its time, whether an item was ready and whether loads were pending, and
/// the phase went on at every poll but the last. Any poll at or after
/// `start + budget` stops the phase.
pub proof fn lemma_drain_phase_bounded(
    sched: Scheduler,
    start: u64,
    eps: int,
    polls: Seq<(u64, bool, bool)>,
)
    requires
        polls.len() > 0,
        polls[0].0 == start,
        eps >= 0,
        forall|i: int|
            0 <= i < polls.len() - 1 ==> polls[i].0 <= #[trigger] polls[i + 1].0 <= polls[i].0
                + eps,
        forall|i: int|
            0 <= i < polls.len() - 1 ==> drain_at(sched, start, #[trigger] polls[i])
                != DrainStep::Stop,
    ensures
        polls.last().0 <= start + sched.plan_storage_commands_handling_i + eps,
        forall|i: int|
            0 <= i < polls.len() && #[trigger] polls[i].0 >= start
                + sched.plan_storage_commands_handling_i ==> drain_at(sched, start, polls[i])
                == DrainStep::Stop,
{
    if polls.len() > 1 {
        let k = polls.len() - 2;
        assert(drain_at(sched, start, polls[k]) != DrainStep::Stop);
        assert(polls[k + 1].0 <= polls[k].0 + eps);
    }
}

pub open spec fn handle_deliveries(hs: Seq<ThreadSource>) -> Seq<WorkerEvent> {
    hs.map_values(|t: ThreadSource| WorkerEvent::PeerHandle(t))
}

/// A fresh worker that is handed every handle that the supervisor's wiring
/// gives it waits on the first two and starts its setup on the third, with
/// all its handles in hand.
pub proof fn lemma_wiring_configures_worker(identity: ThreadSource)
    requires
        is_worker(identity),
    ensures
        ({
            let w = Worker {
                identity,
                phase: WorkerPhase::AwaitingPeerHandles,
                handles: Handles::spec_new(),
            };
            let run = worker_run(w, handle_deliveries(full_handles(identity).targets()));
            &&& run.1 == seq![WorkerAction::Wait, WorkerAction::Wait, WorkerAction::Configure]
            &&& run.0.phase == WorkerPhase::Configuring
            &&& run.0.handles == full_handles(identity)
        }),
{
    let w = Worker {
        identity,
        phase: WorkerPhase::AwaitingPeerHandles,
        handles: Handles::spec_new(),
    };
    let hs = full_handles(identity).targets();
    let es = handle_deliveries(hs);
    let order = if identity == ThreadSource::Render {
        seq![ThreadSource::Supervisor, ThreadSource::Controller, ThreadSource::Process]
    } else if identity == ThreadSource::Controller {
        seq![ThreadSource::Supervisor, ThreadSource::Render, ThreadSource::Process]
    } else {
        seq![ThreadSource::Supervisor, ThreadSource::Render, ThreadSource::Controller]
    };
    assert(hs =~= order);
    assert(es.len() == 3);
    assert(es[0] == WorkerEvent::PeerHandle(order[0]));
    assert(es[1] == WorkerEvent::PeerHandle(order[1]));
    assert(es[2] == WorkerEvent::PeerHandle(order[2]));
    let e1 = es.drop_last().drop_last();
    let e2 = es.drop_last();
    assert(e1.drop_last() =~= Seq::<WorkerEvent>::empty());
    assert(e1.last() == es[0]);
    assert(e2.last() == es[1]);
    assert(es.last() == es[2]);
    let w1 = worker_next(w, es[0]);
    assert(worker_run(w, e1) == (w1.0, seq![w1.1])) by {
        assert(worker_run(w, e1.drop_last()) == (w, Seq::<WorkerAction>::empty()));
        assert(seq![w1.1] =~= Seq::<WorkerAction>::empty().push(w1.1));
    }
    let w2 = worker_next(w1.0, es[1]);
    assert(worker_run(w, e2) == (w2.0, seq![w1.1, w2.1])) by {
        assert(seq![w1.1, w2.1] =~= seq![w1.1].push(w2.1));
    }
    let w3 = worker_next(w2.0, es[2]);
    assert(w3.1 == WorkerAction::Configure);
    assert(worker_run(w, es).1 =~= seq![w1.1, w2.1].push(w3.1));
}

} // verus!

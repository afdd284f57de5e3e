use vstd::prelude::*;
use crate::commands::WorkerSignal;
use crate::types::{ThreadSource, is_actor, is_worker};

verus! {

/// The send handles a worker holds, one per peer actor.
#[derive(Debug, Clone, Copy, PartialEq, Eq, Structural)]
pub struct Handles {
    pub supervisor: bool,
    pub render: bool,
    pub controller: bool,
    pub process: bool,
}

impl Handles {
    pub open spec fn holds(self, t: ThreadSource) -> bool {
        match t {
            ThreadSource::Supervisor => self.supervisor,
            ThreadSource::Render => self.render,
            ThreadSource::Controller => self.controller,
            ThreadSource::Process => self.process,
            _ => false,
        }
    }

    pub open spec fn view(self) -> Set<ThreadSource> {
        Set::new(|t: ThreadSource| self.holds(t))
    }

    pub open spec fn spec_insert(self, t: ThreadSource) -> Handles {
        match t {
            ThreadSource::Supervisor => Handles { supervisor: true, ..self },
            ThreadSource::Render => Handles { render: true, ..self },
            ThreadSource::Controller => Handles { controller: true, ..self },
            ThreadSource::Process => Handles { process: true, ..self },
            _ => self,
        }
    }

    /// The handles, in a fixed order: supervisor, render, controller, process.
    pub open spec fn targets(self) -> Seq<ThreadSource> {
        (if self.supervisor { seq![ThreadSource::Supervisor] } else { Seq::empty() })
            + (if self.render { seq![ThreadSource::Render] } else { Seq::empty() })
            + (if self.controller { seq![ThreadSource::Controller] } else { Seq::empty() })
            + (if self.process { seq![ThreadSource::Process] } else { Seq::empty() })
    }

    pub open spec fn spec_new() -> Handles {
        Handles { supervisor: false, render: false, controller: false, process: false }
    }

    pub fn new() -> (r: Handles)
        ensures
            r == Handles::spec_new(),
            r@ == Set::<ThreadSource>::empty(),
    {
        let r = Handles { supervisor: false, controller: false, render: false, process: false };
        assert(r@ =~= Set::<ThreadSource>::empty());
        r
    }

    /// Whether the handle of `t` is held.
    pub fn has(&self, t: ThreadSource) -> (r: bool)
        ensures
            r == self.holds(t),
    {
        match t {
            ThreadSource::Supervisor => self.supervisor,
            ThreadSource::Render => self.render,
            ThreadSource::Controller => self.controller,
            ThreadSource::Process => self.process,
            _ => false,
        }
    }

    /// The actors to which a crash is broadcast: each held handle, once.
    pub fn crash_targets(&self) -> (r: Vec<ThreadSource>)
        ensures
            r@ == self.targets(),
    {
        let mut r: Vec<ThreadSource> = Vec::new();
        if self.supervisor {
            r.push(ThreadSource::Supervisor);
        }
        if self.render {
            r.push(ThreadSource::Render);
        }
        if self.controller {
            r.push(ThreadSource::Controller);
        }
        if self.process {
            r.push(ThreadSource::Process);
        }
        assert(r@ =~= self.targets());
        r
    }
}

/// The handles that a worker needs: the supervisor's and every other worker's.
pub open spec fn needs_handle(identity: ThreadSource, t: ThreadSource) -> bool {
    is_actor(t) && t != identity
}

/// Every handle that `identity` needs, and no other.
pub open spec fn full_handles(identity: ThreadSource) -> Handles {
    Handles {
        supervisor: identity != ThreadSource::Supervisor,
        render: identity != ThreadSource::Render,
        controller: identity != ThreadSource::Controller,
        process: identity != ThreadSource::Process,
    }
}

/// The handles that the supervisor hands to a worker while wiring the actors
/// to one another, in delivery order.
pub fn peer_handles(identity: ThreadSource) -> (r: Vec<ThreadSource>)
    requires
        is_worker(identity),
    ensures
        r@ == full_handles(identity).targets(),
{
    let h = Handles {
        supervisor: true,
        render: identity != ThreadSource::Render,
        controller: identity != ThreadSource::Controller,
        process: identity != ThreadSource::Process,
    };
    h.crash_targets()
}

pub open spec fn has_all_handles(identity: ThreadSource, h: Handles) -> bool {
    &&& (h.supervisor || identity == ThreadSource::Supervisor)
    &&& (h.render || identity == ThreadSource::Render)
    &&& (h.controller || identity == ThreadSource::Controller)
    &&& (h.process || identity == ThreadSource::Process)
}

/// A worker's lifecycle.
#[derive(Debug, Clone, Copy, PartialEq, Eq, Structural)]
pub enum WorkerPhase {
    AwaitingPeerHandles,
    /// Every handle is in: local setup runs.
    Configuring,
    /// ThreadReady was sent.
    AwaitingSupervisorReady,
    /// The steady-state command loop.
    Running,
    /// ThreadFinished was sent.
    AwaitingSupervisorFinished,
    /// Returned normally.
    Finished,
    /// Returned on a fault, its own or a peer's.
    Crashed,
}

/// What happens to a worker.
#[derive(Debug, Clone, Copy, PartialEq, Eq, Structural)]
pub enum WorkerEvent {
    /// The send handle of a peer was delivered.
    PeerHandle(ThreadSource),
    SetupSucceeded,
    SetupFailed,
    /// A message was taken from the worker's mailbox.
    Received(WorkerSignal),
    /// A send to a peer failed, or the worker's own mailbox was disconnected.
    Fault,
}

/// What a worker does after one event.
#[derive(Debug, Clone, Copy, PartialEq, Eq, Structural)]
pub enum WorkerAction {
    /// Nothing to do; go on receiving.
    Wait,
    /// Run the local setup.
    Configure,
    /// Send ThreadReady(self) to the supervisor.
    ReportReady,
    /// Enter the steady-state command loop.
    EnterRunning,
    /// Handle the role-specific payload.
    Dispatch,
    /// Stop draining the mailbox and go on with the worker's own loop.
    EndDrain,
    /// Send ThreadFinished(self) to the supervisor.
    ReportFinished,
    /// Release the resources and return from the thread.
    Exit,
    /// Send ThreadCrash(self) to every held handle, then return.
    BroadcastCrash,
    /// A peer crashed: return without sending anything.
    Unwind(ThreadSource),
}

/// A worker's state between two events.
#[derive(Debug, Clone, Copy, PartialEq, Eq, Structural)]
pub struct Worker {
    pub identity: ThreadSource,
    pub phase: WorkerPhase,
    pub handles: Handles,
}

pub open spec fn is_live(p: WorkerPhase) -> bool {
    p != WorkerPhase::Finished && p != WorkerPhase::Crashed
}

/// A local fault: the worker broadcasts its own crash and stops.
pub open spec fn fail(w: Worker) -> (Worker, WorkerAction) {
    (Worker { phase: WorkerPhase::Crashed, ..w }, WorkerAction::BroadcastCrash)
}

pub open spec fn move_to(w: Worker, p: WorkerPhase, a: WorkerAction) -> (Worker, WorkerAction) {
    (Worker { phase: p, ..w }, a)
}

/// The worker's answer to one event. A crash that was received is never
/// broadcast again; every other fault, and any message that the current
/// phase does not expect, is broadcast once as the worker's own crash.
pub open spec fn worker_next(w: Worker, e: WorkerEvent) -> (Worker, WorkerAction) {
    if !is_live(w.phase) {
        (w, WorkerAction::Wait)
    } else {
        match e {
            WorkerEvent::Received(WorkerSignal::ThreadCrash(x)) => move_to(
                w,
                WorkerPhase::Crashed,
                WorkerAction::Unwind(x),
            ),
            WorkerEvent::Fault => fail(w),
            _ => match w.phase {
                WorkerPhase::AwaitingPeerHandles => match e {
                    WorkerEvent::PeerHandle(t) => {
                        if needs_handle(w.identity, t) && !w.handles.holds(t) {
                            let h = w.handles.spec_insert(t);
                            if has_all_handles(w.identity, h) {
                                (
                                    Worker { phase: WorkerPhase::Configuring, handles: h, ..w },
                                    WorkerAction::Configure,
                                )
                            } else {
                                (Worker { handles: h, ..w }, WorkerAction::Wait)
                            }
                        } else {
                            fail(w)
                        }
                    },
                    _ => fail(w),
                },
                WorkerPhase::Configuring => match e {
                    WorkerEvent::SetupSucceeded => move_to(
                        w,
                        WorkerPhase::AwaitingSupervisorReady,
                        WorkerAction::ReportReady,
                    ),
                    WorkerEvent::Received(WorkerSignal::Payload) => (w, WorkerAction::Dispatch),
                    _ => fail(w),
                },
                WorkerPhase::AwaitingSupervisorReady => match e {
                    WorkerEvent::Received(WorkerSignal::SupervisorReady) => move_to(
                        w,
                        WorkerPhase::Running,
                        WorkerAction::EnterRunning,
                    ),
                    _ => fail(w),
                },
                WorkerPhase::Running => match e {
                    WorkerEvent::Received(WorkerSignal::Tick) => (w, WorkerAction::EndDrain),
                    WorkerEvent::Received(WorkerSignal::Payload) => (w, WorkerAction::Dispatch),
                    WorkerEvent::Received(WorkerSignal::Shutdown) => move_to(
                        w,
                        WorkerPhase::AwaitingSupervisorFinished,
                        WorkerAction::ReportFinished,
                    ),
                    _ => fail(w),
                },
                WorkerPhase::AwaitingSupervisorFinished => match e {
                    WorkerEvent::Received(WorkerSignal::SupervisorFinished) => move_to(
                        w,
                        WorkerPhase::Finished,
                        WorkerAction::Exit,
                    ),
                    _ => fail(w),
                },
                _ => (w, WorkerAction::Wait),
            },
        }
    }
}

/// The state and the actions after the worker has met `es` in order.
pub open spec fn worker_run(w: Worker, es: Seq<WorkerEvent>) -> (Worker, Seq<WorkerAction>)
    decreases es.len(),
{
    if es.len() == 0 {
        (w, Seq::empty())
    } else {
        let before = worker_run(w, es.drop_last());
        let after = worker_next(before.0, es.last());
        (after.0, before.1.push(after.1))
    }
}

/// A worker of the roster that holds handles only of its peers.
pub open spec fn worker_wf(w: Worker) -> bool {
    &&& is_worker(w.identity)
    &&& forall|t: ThreadSource| #[trigger] w.handles.holds(t) ==> needs_handle(w.identity, t)
}

/// The worker has entered the steady state at some point and not crashed since.
pub open spec fn has_entered_steady_state(p: WorkerPhase) -> bool {
    p == WorkerPhase::Running || p == WorkerPhase::AwaitingSupervisorFinished
        || p == WorkerPhase::Finished
}

impl Worker {
    /// A worker of the roster that holds no handle yet.
    pub fn new(identity: ThreadSource) -> (r: Worker)
        requires
            is_worker(identity),
        ensures
            r == (Worker {
                identity,
                phase: WorkerPhase::AwaitingPeerHandles,
                handles: Handles::spec_new(),
            }),
            r.handles@ == Set::<ThreadSource>::empty(),
    {
        Worker { identity, phase: WorkerPhase::AwaitingPeerHandles, handles: Handles::new() }
    }

    fn needs_handle(&self, t: ThreadSource) -> (r: bool)
        ensures
            r == needs_handle(self.identity, t),
    {
        match t {
            ThreadSource::Supervisor | ThreadSource::Render | ThreadSource::Controller
            | ThreadSource::Process => t != self.identity,
            _ => false,
        }
    }

    fn has_all_handles(&self, h: &Handles) -> (r: bool)
        ensures
            r == has_all_handles(self.identity, *h),
    {
        (h.supervisor || self.identity == ThreadSource::Supervisor)
            && (h.render || self.identity == ThreadSource::Render)
            && (h.controller || self.identity == ThreadSource::Controller)
            && (h.process || self.identity == ThreadSource::Process)
    }

    fn fail(&mut self) -> (r: WorkerAction)
        ensures
            (*final(self), r) == fail(*old(self)),
    {
        self.phase = WorkerPhase::Crashed;
        WorkerAction::BroadcastCrash
    }

    /// Handles one event.
    pub fn step(&mut self, e: WorkerEvent) -> (r: WorkerAction)
        ensures
            (*final(self), r) == worker_next(*old(self), e),
    {
        if self.phase == WorkerPhase::Finished || self.phase == WorkerPhase::Crashed {
            return WorkerAction::Wait;
        }
        match e {
            WorkerEvent::Received(WorkerSignal::ThreadCrash(x)) => {
                self.phase = WorkerPhase::Crashed;
                return WorkerAction::Unwind(x);
            },
            WorkerEvent::Fault => {
                return self.fail();
            },
            _ => {},
        }
        match self.phase {
            WorkerPhase::AwaitingPeerHandles => match e {
                WorkerEvent::PeerHandle(t) => {
                    if self.needs_handle(t) && !self.handles.has(t) {
                        let mut h = self.handles;
                        match t {
                            ThreadSource::Supervisor => h.supervisor = true,
                            ThreadSource::Render => h.render = true,
                            ThreadSource::Controller => h.controller = true,
                            _ => h.process = true,
                        }
                        assert(h == self.handles.spec_insert(t));
                        self.handles = h;
                        if self.has_all_handles(&h) {
                            self.phase = WorkerPhase::Configuring;
                            WorkerAction::Configure
                        } else {
                            WorkerAction::Wait
                        }
                    } else {
                        self.fail()
                    }
                },
                _ => self.fail(),
            },
            WorkerPhase::Configuring => match e {
                WorkerEvent::SetupSucceeded => {
                    self.phase = WorkerPhase::AwaitingSupervisorReady;
                    WorkerAction::ReportReady
                },
                WorkerEvent::Received(WorkerSignal::Payload) => WorkerAction::Dispatch,
                _ => self.fail(),
            },
            WorkerPhase::AwaitingSupervisorReady => match e {
                WorkerEvent::Received(WorkerSignal::SupervisorReady) => {
                    self.phase = WorkerPhase::Running;
                    WorkerAction::EnterRunning
                },
                _ => self.fail(),
            },
            WorkerPhase::Running => match e {
                WorkerEvent::Received(WorkerSignal::Tick) => WorkerAction::EndDrain,
                WorkerEvent::Received(WorkerSignal::Payload) => WorkerAction::Dispatch,
                WorkerEvent::Received(WorkerSignal::Shutdown) => {
                    self.phase = WorkerPhase::AwaitingSupervisorFinished;
                    WorkerAction::ReportFinished
                },
                _ => self.fail(),
            },
            WorkerPhase::AwaitingSupervisorFinished => match e {
                WorkerEvent::Received(WorkerSignal::SupervisorFinished) => {
                    self.phase = WorkerPhase::Finished;
                    WorkerAction::Exit
                },
                _ => self.fail(),
            },
            _ => WorkerAction::Wait,
        }
    }

    /// The actors to which this worker's crash goes: each handle it holds, once.
    pub fn crash_targets(&self) -> (r: Vec<ThreadSource>)
        ensures
            r@ == self.handles.targets(),
    {
        self.handles.crash_targets()
    }

    /// Whether the worker's thread has returned, by any path.
    pub fn has_returned(&self) -> (r: bool)
        ensures
            r == !is_live(self.phase),
    {
        self.phase == WorkerPhase::Finished || self.phase == WorkerPhase::Crashed
    }
}

} // verus!

use vstd::prelude::*;
use crate::barrier::{Arrival, Barrier};
use crate::commands::{SupervisorCommand, WorkerSignal};
use crate::types::ThreadSource;

verus! {

/// The supervisor's lifecycle; it only ever moves forward.
#[derive(Debug, Clone, Copy, PartialEq, Eq, Structural)]
pub enum SupervisorPhase {
    /// Spawning the workers and handing out the send handles.
    Bootstrapping,
    /// Waiting for every worker's ThreadReady.
    HandshakeWait,
    /// Steady state: draining the mailbox and ticking the workers.
    Running,
    /// Shutdown was broadcast: waiting for every worker's ThreadFinished.
    ShuttingDown,
    Terminated,
}

/// Why the supervisor terminated.
#[derive(Debug, Clone, Copy, PartialEq, Eq, Structural)]
pub enum Outcome {
    /// Quit, then every worker finished.
    Clean,
    /// A worker reported a crash.
    Crashed(ThreadSource),
    /// A handshake received a message it does not expect.
    ProtocolViolation,
}

/// What the supervisor does after one event.
#[derive(Debug, Clone, Copy, PartialEq, Eq, Structural)]
pub enum SupervisorAction {
    /// Nothing to send; go on receiving.
    Wait,
    /// Send SupervisorReady to every worker.
    BroadcastReady,
    /// Send Tick to the render and control workers.
    TickWorkers,
    /// Send Shutdown to every worker.
    BroadcastShutdown,
    /// Send SupervisorFinished to every worker, then join them all.
    BroadcastFinished,
    /// A worker crashed: forward nothing, skip the finished handshake, join.
    Unwind(ThreadSource),
    /// A handshake was broken: stop, and join.
    Abort,
}

/// The signal that an action sends to workers, if it sends one.
pub open spec fn action_signal(a: SupervisorAction) -> Option<WorkerSignal> {
    match a {
        SupervisorAction::BroadcastReady => Some(WorkerSignal::SupervisorReady),
        SupervisorAction::TickWorkers => Some(WorkerSignal::Tick),
        SupervisorAction::BroadcastShutdown => Some(WorkerSignal::Shutdown),
        SupervisorAction::BroadcastFinished => Some(WorkerSignal::SupervisorFinished),
        _ => None,
    }
}

/// The workers to which an action sends its signal, in sending order.
pub open spec fn action_recipients(a: SupervisorAction) -> Seq<ThreadSource> {
    match a {
        SupervisorAction::TickWorkers => seq![ThreadSource::Render, ThreadSource::Controller],
        SupervisorAction::BroadcastReady | SupervisorAction::BroadcastShutdown
        | SupervisorAction::BroadcastFinished => seq![
            ThreadSource::Render,
            ThreadSource::Controller,
            ThreadSource::Process,
        ],
        _ => Seq::empty(),
    }
}

impl SupervisorAction {
    /// The signal this action sends, if any.
    pub fn signal(&self) -> (r: Option<WorkerSignal>)
        ensures
            r == action_signal(*self),
    {
        match self {
            SupervisorAction::BroadcastReady => Some(WorkerSignal::SupervisorReady),
            SupervisorAction::TickWorkers => Some(WorkerSignal::Tick),
            SupervisorAction::BroadcastShutdown => Some(WorkerSignal::Shutdown),
            SupervisorAction::BroadcastFinished => Some(WorkerSignal::SupervisorFinished),
            _ => None,
        }
    }

    /// The workers that receive this action's signal, each once.
    pub fn recipients(&self) -> (r: Vec<ThreadSource>)
        ensures
            r@ == action_recipients(*self),
    {
        let mut r: Vec<ThreadSource> = Vec::new();
        match self {
            SupervisorAction::TickWorkers => {
                r.push(ThreadSource::Render);
                r.push(ThreadSource::Controller);
            },
            SupervisorAction::BroadcastReady | SupervisorAction::BroadcastShutdown
            | SupervisorAction::BroadcastFinished => {
                r.push(ThreadSource::Render);
                r.push(ThreadSource::Controller);
                r.push(ThreadSource::Process);
            },
            _ => {},
        }
        assert(r@ =~= action_recipients(*self));
        r
    }
}

/// The supervisor's state between two events.
#[derive(Debug, Clone, Copy, PartialEq, Eq, Structural)]
pub struct Supervisor {
    pub phase: SupervisorPhase,
    /// The workers whose ThreadReady has arrived.
    pub ready: Barrier,
    /// The workers whose ThreadFinished has arrived.
    pub finished: Barrier,
    /// Set once, when the supervisor terminates.
    pub outcome: Option<Outcome>,
}

pub open spec fn terminate(s: Supervisor, o: Outcome) -> Supervisor {
    Supervisor { phase: SupervisorPhase::Terminated, outcome: Some(o), ..s }
}

/// The supervisor's answer to one message of its mailbox.
pub open spec fn supervisor_next(s: Supervisor, c: SupervisorCommand) -> (Supervisor, SupervisorAction) {
    match s.phase {
        SupervisorPhase::Bootstrapping => (
            terminate(s, Outcome::ProtocolViolation),
            SupervisorAction::Abort,
        ),
        SupervisorPhase::HandshakeWait => match c {
            SupervisorCommand::ThreadReady(w) => match s.ready.spec_arrival(w) {
                Arrival::Recorded => (
                    Supervisor { ready: s.ready.spec_insert(w), ..s },
                    SupervisorAction::Wait,
                ),
                Arrival::Complete => (
                    Supervisor {
                        phase: SupervisorPhase::Running,
                        ready: s.ready.spec_insert(w),
                        ..s
                    },
                    SupervisorAction::BroadcastReady,
                ),
                _ => (terminate(s, Outcome::ProtocolViolation), SupervisorAction::Abort),
            },
            SupervisorCommand::ThreadCrash(x) => (
                terminate(s, Outcome::Crashed(x)),
                SupervisorAction::Unwind(x),
            ),
            _ => (terminate(s, Outcome::ProtocolViolation), SupervisorAction::Abort),
        },
        SupervisorPhase::Running => match c {
            SupervisorCommand::ThreadCrash(x) => (
                terminate(s, Outcome::Crashed(x)),
                SupervisorAction::Unwind(x),
            ),
            SupervisorCommand::Quit => (
                Supervisor { phase: SupervisorPhase::ShuttingDown, ..s },
                SupervisorAction::BroadcastShutdown,
            ),
            _ => (s, SupervisorAction::Wait),
        },
        SupervisorPhase::ShuttingDown => match c {
            SupervisorCommand::ThreadFinished(w) => match s.finished.spec_arrival(w) {
                Arrival::Recorded => (
                    Supervisor { finished: s.finished.spec_insert(w), ..s },
                    SupervisorAction::Wait,
                ),
                Arrival::Complete => (
                    Supervisor {
                        phase: SupervisorPhase::Terminated,
                        finished: s.finished.spec_insert(w),
                        outcome: Some(Outcome::Clean),
                        ..s
                    },
                    SupervisorAction::BroadcastFinished,
                ),
                _ => (terminate(s, Outcome::ProtocolViolation), SupervisorAction::Abort),
            },
            SupervisorCommand::ThreadCrash(x) => (
                terminate(s, Outcome::Crashed(x)),
                SupervisorAction::Unwind(x),
            ),
            _ => (terminate(s, Outcome::ProtocolViolation), SupervisorAction::Abort),
        },
        SupervisorPhase::Terminated => (s, SupervisorAction::Wait),
    }
}

/// The supervisor's answer when its steady-state interval has elapsed.
pub open spec fn supervisor_interval(s: Supervisor) -> SupervisorAction {
    if s.phase == SupervisorPhase::Running {
        SupervisorAction::TickWorkers
    } else {
        SupervisorAction::Wait
    }
}

/// The state and the actions after the supervisor has handled `cs` in order.
pub open spec fn supervisor_run(s: Supervisor, cs: Seq<SupervisorCommand>) -> (Supervisor, Seq<SupervisorAction>)
    decreases cs.len(),
{
    if cs.len() == 0 {
        (s, Seq::empty())
    } else {
        let before = supervisor_run(s, cs.drop_last());
        let after = supervisor_next(before.0, cs.last());
        (after.0, before.1.push(after.1))
    }
}

/// The position of a phase in the lifecycle.
pub open spec fn phase_rank(p: SupervisorPhase) -> nat {
    match p {
        SupervisorPhase::Bootstrapping => 0,
        SupervisorPhase::HandshakeWait => 1,
        SupervisorPhase::Running => 2,
        SupervisorPhase::ShuttingDown => 3,
        SupervisorPhase::Terminated => 4,
    }
}

impl Supervisor {
    /// A supervisor that has not yet handed out the send handles.
    pub fn new() -> (r: Supervisor)
        ensures
            r == (Supervisor {
                phase: SupervisorPhase::Bootstrapping,
                ready: Barrier::spec_new(),
                finished: Barrier::spec_new(),
                outcome: None,
            }),
            r.ready@ == Set::<ThreadSource>::empty(),
            r.finished@ == Set::<ThreadSource>::empty(),
            r.outcome.is_none(),
    {
        Supervisor {
            phase: SupervisorPhase::Bootstrapping,
            ready: Barrier::new(),
            finished: Barrier::new(),
            outcome: None,
        }
    }

    /// Every worker holds its peer handles: start waiting for ThreadReady.
    /// Outside bootstrapping nothing changes.
    pub fn begin_handshake(&mut self)
        ensures
            old(self).phase == SupervisorPhase::Bootstrapping ==> *final(self) == (Supervisor {
                phase: SupervisorPhase::HandshakeWait,
                ..*old(self)
            }),
            old(self).phase != SupervisorPhase::Bootstrapping ==> *final(self) == *old(self),
    {
        if self.phase == SupervisorPhase::Bootstrapping {
            self.phase = SupervisorPhase::HandshakeWait;
        }
    }

    fn terminate(&mut self, o: Outcome)
        ensures
            *final(self) == terminate(*old(self), o),
    {
        self.phase = SupervisorPhase::Terminated;
        self.outcome = Some(o);
    }

    /// Handles one message taken from the supervisor's mailbox.
    pub fn step(&mut self, c: SupervisorCommand) -> (r: SupervisorAction)
        ensures
            (*final(self), r) == supervisor_next(*old(self), c),
    {
        match self.phase {
            SupervisorPhase::Bootstrapping => {
                self.terminate(Outcome::ProtocolViolation);
                SupervisorAction::Abort
            },
            SupervisorPhase::HandshakeWait => match c {
                SupervisorCommand::ThreadReady(w) => match self.ready.arrive(w) {
                    Arrival::Recorded => SupervisorAction::Wait,
                    Arrival::Complete => {
                        self.phase = SupervisorPhase::Running;
                        SupervisorAction::BroadcastReady
                    },
                    _ => {
                        self.terminate(Outcome::ProtocolViolation);
                        SupervisorAction::Abort
                    },
                },
                SupervisorCommand::ThreadCrash(x) => {
                    self.terminate(Outcome::Crashed(x));
                    SupervisorAction::Unwind(x)
                },
                _ => {
                    self.terminate(Outcome::ProtocolViolation);
                    SupervisorAction::Abort
                },
            },
            SupervisorPhase::Running => match c {
                SupervisorCommand::ThreadCrash(x) => {
                    self.terminate(Outcome::Crashed(x));
                    SupervisorAction::Unwind(x)
                },
                SupervisorCommand::Quit => {
                    self.phase = SupervisorPhase::ShuttingDown;
                    SupervisorAction::BroadcastShutdown
                },
                _ => SupervisorAction::Wait,
            },
            SupervisorPhase::ShuttingDown => match c {
                SupervisorCommand::ThreadFinished(w) => match self.finished.arrive(w) {
                    Arrival::Recorded => SupervisorAction::Wait,
                    Arrival::Complete => {
                        self.terminate(Outcome::Clean);
                        SupervisorAction::BroadcastFinished
                    },
                    _ => {
                        self.terminate(Outcome::ProtocolViolation);
                        SupervisorAction::Abort
                    },
                },
                SupervisorCommand::ThreadCrash(x) => {
                    self.terminate(Outcome::Crashed(x));
                    SupervisorAction::Unwind(x)
                },
                _ => {
                    self.terminate(Outcome::ProtocolViolation);
                    SupervisorAction::Abort
                },
            },
            SupervisorPhase::Terminated => SupervisorAction::Wait,
        }
    }

    /// Called once per steady-state interval, after the mailbox was drained.
    pub fn on_interval(&self) -> (r: SupervisorAction)
        ensures
            r == supervisor_interval(*self),
    {
        if self.phase == SupervisorPhase::Running {
            SupervisorAction::TickWorkers
        } else {
            SupervisorAction::Wait
        }
    }

    /// Whether the supervisor has terminated, by any path; the caller then
    /// joins every worker thread.
    pub fn is_terminated(&self) -> (r: bool)
        ensures
            r == (self.phase == SupervisorPhase::Terminated),
    {
        self.phase == SupervisorPhase::Terminated
    }
}

} // verus!

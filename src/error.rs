use vstd::prelude::*;
use crate::commands::WorkerSignal;
use crate::types::ThreadSource;
use crate::worker::WorkerEvent;

verus! {

/// What can stop an actor's run loop.
#[derive(Debug, Clone, Copy, PartialEq, Eq, Structural)]
pub enum Error {
    /// A peer reported its crash.
    ThreadCrash(ThreadSource),
    /// A send to this actor failed: its mailbox is closed.
    BrokenChannel(ThreadSource),
    /// A shared resource's lock was held by a thread that failed while holding it.
    Poisoned,
    /// The local setup failed before ThreadReady was sent.
    BootstrapFailure,
}

/// How the crash policy sees an error: a crash that was received is handed
/// on as received, and is not broadcast again; any other error is a fault of
/// the actor itself, which broadcasts it.
pub open spec fn error_event(e: Error) -> WorkerEvent {
    match e {
        Error::ThreadCrash(x) => WorkerEvent::Received(WorkerSignal::ThreadCrash(x)),
        Error::BootstrapFailure => WorkerEvent::SetupFailed,
        _ => WorkerEvent::Fault,
    }
}

impl Error {
    /// The event that this error is to the worker's state machine.
    pub fn event(&self) -> (r: WorkerEvent)
        ensures
            r == error_event(*self),
    {
        match self {
            Error::ThreadCrash(x) => WorkerEvent::Received(WorkerSignal::ThreadCrash(*x)),
            Error::BootstrapFailure => WorkerEvent::SetupFailed,
            _ => WorkerEvent::Fault,
        }
    }

}

} // verus!

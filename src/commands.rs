use vstd::prelude::*;
use crate::types::ThreadSource;

verus! {

/// What the supervisor's mailbox carries.
#[derive(Debug, Clone, Copy, PartialEq, Eq, Structural)]
pub enum SupervisorCommand {
    ThreadCrash(ThreadSource),
    ThreadReady(ThreadSource),
    ThreadFinished(ThreadSource),
    Quit,
}

/// The control tags that every worker's mailbox shares. A message that is
/// specific to one worker's role (a handle, a resource, a workload) is a
/// `Payload` here: the worker itself handles it.
#[derive(Debug, Clone, Copy, PartialEq, Eq, Structural)]
pub enum WorkerSignal {
    ThreadCrash(ThreadSource),
    SupervisorReady,
    SupervisorFinished,
    Tick,
    Shutdown,
    Payload,
}

} // verus!

use vstd::prelude::*;

verus! {

/// The role of an actor; it names the origin of crash, ready and finished messages.
#[derive(Debug, Clone, Copy, PartialEq, Eq, Structural)]
pub enum ThreadSource {
    Supervisor,
    Render,
    Process,
    Controller,
    Algorithm,
}

/// The workers that the supervisor spawns and waits for.
pub open spec fn is_worker(t: ThreadSource) -> bool {
    t == ThreadSource::Render || t == ThreadSource::Process || t == ThreadSource::Controller
}

/// The roster of workers, as a set.
pub open spec fn roster() -> Set<ThreadSource> {
    set![ThreadSource::Render, ThreadSource::Controller, ThreadSource::Process]
}

/// The actors that can hold a send handle to one another: the supervisor and the workers.
pub open spec fn is_actor(t: ThreadSource) -> bool {
    t == ThreadSource::Supervisor || is_worker(t)
}

pub open spec fn name_of(t: ThreadSource) -> Seq<char> {
    match t {
        ThreadSource::Supervisor => "Supervisor"@,
        ThreadSource::Render => "Render"@,
        ThreadSource::Process => "Process"@,
        ThreadSource::Controller => "Controller"@,
        ThreadSource::Algorithm => "Algorithm"@,
    }
}

pub proof fn lemma_roster_is_workers(t: ThreadSource)
    ensures
        roster().contains(t) <==> is_worker(t),
{
}

impl ThreadSource {
    /// Whether this actor is one of the workers of the roster.
    pub fn is_worker(&self) -> (r: bool)
        ensures
            r == is_worker(*self),
    {
        match self {
            ThreadSource::Render | ThreadSource::Process | ThreadSource::Controller => true,
            _ => false,
        }
    }

    /// The actor's name, as shown in diagnostics.
    pub fn name(&self) -> (r: &'static str)
        ensures
            r@ == name_of(*self),
    {
        proof {
            reveal_strlit("Supervisor");
            reveal_strlit("Render");
            reveal_strlit("Process");
            reveal_strlit("Controller");
            reveal_strlit("Algorithm");
        }
        match self {
            ThreadSource::Supervisor => "Supervisor",
            ThreadSource::Render => "Render",
            ThreadSource::Process => "Process",
            ThreadSource::Controller => "Controller",
            ThreadSource::Algorithm => "Algorithm",
        }
    }
}

} // verus!

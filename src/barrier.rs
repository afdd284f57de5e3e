use vstd::prelude::*;
use crate::types::{ThreadSource, is_worker, roster};

verus! {

/// The workers that have reported in at one handshake.
#[derive(Debug, Clone, Copy, PartialEq, Eq, Structural)]
pub struct Barrier {
    pub render: bool,
    pub controller: bool,
    pub process: bool,
}

/// What one arrival did to a barrier.
#[derive(Debug, Clone, Copy, PartialEq, Eq, Structural)]
pub enum Arrival {
    /// Recorded; some workers are still missing.
    Recorded,
    /// Recorded, and it was the last one missing.
    Complete,
    /// The worker had already arrived: nothing changes.
    Duplicate,
    /// Not a worker of the roster: nothing changes.
    Stranger,
}

impl Barrier {
    pub open spec fn contains(self, t: ThreadSource) -> bool {
        match t {
            ThreadSource::Render => self.render,
            ThreadSource::Controller => self.controller,
            ThreadSource::Process => self.process,
            _ => false,
        }
    }

    pub open spec fn view(self) -> Set<ThreadSource> {
        Set::new(|t: ThreadSource| self.contains(t))
    }

    /// The barrier after `t` arrives, when `t` is a worker.
    pub open spec fn spec_insert(self, t: ThreadSource) -> Barrier {
        match t {
            ThreadSource::Render => Barrier { render: true, ..self },
            ThreadSource::Controller => Barrier { controller: true, ..self },
            ThreadSource::Process => Barrier { process: true, ..self },
            _ => self,
        }
    }

    pub open spec fn spec_is_complete(self) -> bool {
        self.render && self.controller && self.process
    }

    /// What `arrive` returns.
    pub open spec fn spec_arrival(self, t: ThreadSource) -> Arrival {
        if !is_worker(t) {
            Arrival::Stranger
        } else if self.contains(t) {
            Arrival::Duplicate
        } else if self.spec_insert(t).spec_is_complete() {
            Arrival::Complete
        } else {
            Arrival::Recorded
        }
    }

    pub proof fn lemma_view(self)
        ensures
            self@.subset_of(roster()),
            self.spec_is_complete() <==> self@ == roster(),
            forall|t: ThreadSource| #[trigger] self@.contains(t) <==> self.contains(t),
    {
        assert(self@.subset_of(roster()));
        if self.spec_is_complete() {
            assert(self@ =~= roster());
        }
        if self@ == roster() {
            assert(roster().contains(ThreadSource::Render));
            assert(roster().contains(ThreadSource::Controller));
            assert(roster().contains(ThreadSource::Process));
        }
    }

    pub proof fn lemma_insert(self, t: ThreadSource)
        requires
            is_worker(t),
        ensures
            self.spec_insert(t)@ == self@.insert(t),
    {
        assert(self.spec_insert(t)@ =~= self@.insert(t));
    }

    pub open spec fn spec_new() -> Barrier {
        Barrier { render: false, controller: false, process: false }
    }

    /// An empty barrier.
    pub fn new() -> (r: Barrier)
        ensures
            r == Barrier::spec_new(),
            r@ == Set::<ThreadSource>::empty(),
            !r.spec_is_complete(),
    {
        let r = Barrier { render: false, controller: false, process: false };
        assert(r@ =~= Set::<ThreadSource>::empty());
        r
    }

    /// Whether `t` has arrived.
    pub fn has_arrived(&self, t: ThreadSource) -> (r: bool)
        ensures
            r == self@.contains(t),
    {
        match t {
            ThreadSource::Render => self.render,
            ThreadSource::Controller => self.controller,
            ThreadSource::Process => self.process,
            _ => false,
        }
    }

    /// Whether every worker of the roster has arrived.
    pub fn is_complete(&self) -> (r: bool)
        ensures
            r == (self@ == roster()),
            r == self.spec_is_complete(),
    {
        proof {
            self.lemma_view();
        }
        self.render && self.controller && self.process
    }

    /// Records that `t` has arrived. A worker that arrives twice, and a
    /// source that is no worker, leave the barrier as it was.
    pub fn arrive(&mut self, t: ThreadSource) -> (r: Arrival)
        ensures
            r == old(self).spec_arrival(t),
            *final(self) == (if r == Arrival::Recorded || r == Arrival::Complete {
                old(self).spec_insert(t)
            } else {
                *old(self)
            }),
            is_worker(t) && !old(self)@.contains(t) ==> final(self)@ == old(self)@.insert(t),
            !(is_worker(t) && !old(self)@.contains(t)) ==> final(self)@ == old(self)@,
            (r == Arrival::Complete) <==> (!old(self)@.contains(t) && is_worker(t)
                && final(self)@ == roster()),
    {
        proof {
            old(self).lemma_view();
            old(self).spec_insert(t).lemma_view();
            if is_worker(t) {
                old(self).lemma_insert(t);
            }
        }
        match t {
            ThreadSource::Render => {
                if self.render {
                    return Arrival::Duplicate;
                }
                self.render = true;
            },
            ThreadSource::Controller => {
                if self.controller {
                    return Arrival::Duplicate;
                }
                self.controller = true;
            },
            ThreadSource::Process => {
                if self.process {
                    return Arrival::Duplicate;
                }
                self.process = true;
            },
            _ => {
                return Arrival::Stranger;
            },
        }
        if self.is_complete() {
            Arrival::Complete
        } else {
            Arrival::Recorded
        }
    }
}

} // verus!

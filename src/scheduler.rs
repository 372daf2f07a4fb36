//! Admission of probe pipelines under a concurrency cap.

use vstd::prelude::*;

verus! {

/// Pipelines that may hold a session at once unless told otherwise.
pub const MAX_CONCURRENT: usize = 50;

/// The counters of a batch: its cap, its size, how many targets were
/// admitted, how many of them still run and how many have finished.
pub ghost struct BatchState {
    pub cap: nat,
    pub total: nat,
    pub next: nat,
    pub active: nat,
    pub finished: nat,
}

impl BatchState {
    /// The counters agree: no more pipelines run than the cap allows, and
    /// each admitted target is either running or finished.
    pub open spec fn well_formed(self) -> bool {
        &&& 0 < self.cap
        &&& self.active <= self.cap
        &&& self.next <= self.total
        &&& self.finished + self.active == self.next
    }
}

/// Hands out the targets of a batch, in order, to at most `cap` pipelines
/// at a time.
#[derive(Debug)]
pub struct Scheduler {
    cap: usize,
    total: usize,
    next: usize,
    active: usize,
    finished: usize,
}

impl View for Scheduler {
    type V = BatchState;

    closed spec fn view(&self) -> BatchState {
        BatchState {
            cap: self.cap as nat,
            total: self.total as nat,
            next: self.next as nat,
            active: self.active as nat,
            finished: self.finished as nat,
        }
    }
}

impl Scheduler {
    #[verifier::type_invariant]
    spec fn inv(&self) -> bool {
        &&& 0 < self.cap
        &&& self.active <= self.cap
        &&& self.next <= self.total
        &&& self.finished + self.active == self.next
    }

    /// A batch of `total` targets, none admitted yet.
    pub fn new(total: usize, cap: usize) -> (r: Scheduler)
        requires
            0 < cap,
        ensures
            r@ == (BatchState { cap: cap as nat, total: total as nat, next: 0, active: 0, finished: 0 }),
            r@.well_formed(),
    {
        Scheduler { cap, total, next: 0, active: 0, finished: 0 }
    }

    /// A batch of `total` targets under the default cap.
    pub fn with_default_cap(total: usize) -> (r: Scheduler)
        ensures
            r@ == (BatchState { cap: MAX_CONCURRENT as nat, total: total as nat, next: 0, active: 0, finished: 0 }),
            r@.well_formed(),
    {
        Scheduler::new(total, MAX_CONCURRENT)
    }

    /// Admits the next target when a slot is free and one is left, and
    /// returns its index; `None` otherwise, with nothing changed.
    pub fn take_next(&mut self) -> (r: Option<usize>)
        ensures
            old(self)@.well_formed(),
            final(self)@.well_formed(),
            old(self)@.active < old(self)@.cap && old(self)@.next < old(self)@.total ==> {
                &&& r == Some(old(self)@.next as usize)
                &&& final(self)@ == (BatchState {
                    next: old(self)@.next + 1,
                    active: old(self)@.active + 1,
                    ..old(self)@
                })
            },
            !(old(self)@.active < old(self)@.cap && old(self)@.next < old(self)@.total) ==> {
                &&& r is None
                &&& final(self)@ == old(self)@
            },
    {
        proof {
            use_type_invariant(&*self);
        }
        if self.active < self.cap && self.next < self.total {
            let i = self.next;
            *self = Scheduler { next: i + 1, active: self.active + 1, ..*self };
            Some(i)
        } else {
            None
        }
    }

    /// Marks one admitted pipeline as finished, which frees its slot.
    pub fn complete(&mut self)
        requires
            old(self)@.active > 0,
        ensures
            final(self)@ == (BatchState {
                active: (old(self)@.active - 1) as nat,
                finished: old(self)@.finished + 1,
                ..old(self)@
            }),
            final(self)@.well_formed(),
    {
        proof {
            use_type_invariant(&*self);
        }
        *self = Scheduler { active: self.active - 1, finished: self.finished + 1, ..*self };
    }

    /// Most pipelines that may hold a slot at once.
    pub fn cap(&self) -> (r: usize)
        ensures
            r == self@.cap,
            self@.well_formed(),
    {
        proof {
            use_type_invariant(self);
        }
        self.cap
    }

    /// Number of pipelines that hold a slot now.
    pub fn active(&self) -> (r: usize)
        ensures
            r == self@.active,
            self@.well_formed(),
    {
        proof {
            use_type_invariant(self);
        }
        self.active
    }

    /// Number of pipelines that have finished.
    pub fn finished(&self) -> (r: usize)
        ensures
            r == self@.finished,
    {
        self.finished
    }

    /// Whether every target of the batch has been admitted and has finished.
    pub fn is_done(&self) -> (r: bool)
        ensures
            r == (self@.finished == self@.total),
            self@.well_formed(),
            r ==> self@.active == 0 && self@.next == self@.total,
    {
        proof {
            use_type_invariant(self);
        }
        self.finished == self.total
    }
}

} // verus!

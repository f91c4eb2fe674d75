//! Progress towards a total, as a value that moves between three states: just started
//! ([`Init`]), advanced ([`Add`]) and finished ([`Complete`]).
//!
//! Progress never goes beyond its total, and no transition changes the total.
use vstd::prelude::*;

verus! {

/// How far along something is: `current` out of `total`.
pub struct Progress {
    current: usize,
    total: usize,
}

impl Progress {
    #[verifier::type_invariant]
    spec fn inv(self) -> bool {
        self.current <= self.total
    }
}

/// The state a [`Progression`] is in.
pub enum State {
    Init(Init),
    Add(Add),
    Complete(Complete),
}

/// Progression indicates how far we are.
pub struct Progression {
    state: State,
}

/// Progress that has just started: nothing done yet.
pub struct Init(Progress);

impl Init {
    #[verifier::type_invariant]
    spec fn inv(self) -> bool {
        self.0.current == 0
    }
}

/// Progress that has advanced by some amount.
pub struct Add(Progress);

/// Progress that has finished: everything done.
pub struct Complete {
    total: usize,
}

/// The counts of a progress value: `(current, total)`.
pub struct Counts {
    pub current: nat,
    pub total: nat,
}

impl View for Init {
    type V = Counts;

    closed spec fn view(&self) -> Counts {
        Counts { current: self.0.current as nat, total: self.0.total as nat }
    }
}

impl View for Add {
    type V = Counts;

    closed spec fn view(&self) -> Counts {
        Counts { current: self.0.current as nat, total: self.0.total as nat }
    }
}

impl View for Complete {
    type V = Counts;

    closed spec fn view(&self) -> Counts {
        Counts { current: self.total as nat, total: self.total as nat }
    }
}

impl View for Progression {
    type V = Counts;

    closed spec fn view(&self) -> Counts {
        match self.state {
            State::Init(p) => p@,
            State::Add(p) => p@,
            State::Complete(p) => p@,
        }
    }
}

/// Adding `value` to `current`, without going beyond `total`.
pub open spec fn added(current: nat, value: nat, total: nat) -> nat {
    if current + value <= total {
        current + value
    } else {
        total
    }
}

impl Add {
    fn add_to(progress: Progress, added_value: usize) -> (r: Add)
        requires
            progress.current + added_value <= usize::MAX,
        ensures
            r@ == (Counts {
                current: added(progress.current as nat, added_value as nat, progress.total as nat),
                total: progress.total as nat,
            }),
    {
        let current = progress.current;
        let total = progress.total;
        let added = current + added_value;

        // Do not scale beyond the max (i.e. beyond 'total')
        let updated_current = if added <= total {
            added
        } else {
            total
        };

        Add(Progress { current: updated_current, total })
    }
}

impl Complete {
    fn completed(progress: Progress) -> (r: Complete)
        ensures
            r@ == (Counts { current: progress.total as nat, total: progress.total as nat }),
    {
        Complete { total: progress.total }
    }
}

impl Init {
    /// Start: nothing done out of `total`.
    pub fn init(total: usize) -> (r: Init)
        ensures
            r@ == (Counts { current: 0, total: total as nat }),
    {
        Init(Progress { current: 0, total })
    }

    pub fn current(&self) -> (r: usize)
        ensures
            r == self@.current,
            r <= self@.total,
    {
        proof {
            use_type_invariant(&self.0);
        }
        self.0.current
    }

    pub fn total(&self) -> (r: usize)
        ensures
            r == self@.total,
    {
        self.0.total
    }

    /// Advance by `value`, up to the total.
    pub fn add(self, value: usize) -> (r: Add)
        ensures
            r@ == (Counts { current: added(0, value as nat, self@.total), total: self@.total }),
    {
        proof {
            use_type_invariant(&self);
        }
        Add::add_to(self.0, value)
    }

    /// Finish: everything done.
    pub fn complete(self) -> (r: Complete)
        ensures
            r@ == (Counts { current: self@.total, total: self@.total }),
    {
        Complete::completed(self.0)
    }
}

impl Add {
    pub fn current(&self) -> (r: usize)
        ensures
            r == self@.current,
            r <= self@.total,
    {
        proof {
            use_type_invariant(&self.0);
        }
        self.0.current
    }

    pub fn total(&self) -> (r: usize)
        ensures
            r == self@.total,
    {
        self.0.total
    }

    /// Advance by `progress` more, up to the total.
    pub fn add(self, progress: usize) -> (r: Add)
        requires
            self@.current + progress <= usize::MAX,
        ensures
            r@ == (Counts {
                current: added(self@.current, progress as nat, self@.total),
                total: self@.total,
            }),
    {
        Add::add_to(self.0, progress)
    }

    /// Start over: nothing done out of the same total.
    pub fn reset(self) -> (r: Init)
        ensures
            r@ == (Counts { current: 0, total: self@.total }),
    {
        Init::init(self.0.total)
    }

    /// Finish: everything done.
    pub fn complete(self) -> (r: Complete)
        ensures
            r@ == (Counts { current: self@.total, total: self@.total }),
    {
        Complete::completed(self.0)
    }
}

impl Complete {
    pub fn current(&self) -> (r: usize)
        ensures
            r == self@.current,
            r <= self@.total,
    {
        self.total
    }

    pub fn total(&self) -> (r: usize)
        ensures
            r == self@.total,
    {
        self.total
    }

    /// Start over: nothing done out of the same total.
    pub fn reset(self) -> (r: Init)
        ensures
            r@ == (Counts { current: 0, total: self@.total }),
    {
        Init::init(self.total)
    }
}

impl Progression {
    /// A progression that has just started, out of `total`.
    pub fn new(total: usize) -> (r: Progression)
        ensures
            r@ == (Counts { current: 0, total: total as nat }),
    {
        Progression::from_init(Init::init(total))
    }

    pub fn from_init(instance: Init) -> (r: Progression)
        ensures
            r@ == instance@,
    {
        Progression { state: State::Init(instance) }
    }

    pub fn from_add(instance: Add) -> (r: Progression)
        ensures
            r@ == instance@,
    {
        Progression { state: State::Add(instance) }
    }

    pub fn from_complete(instance: Complete) -> (r: Progression)
        ensures
            r@ == instance@,
    {
        Progression { state: State::Complete(instance) }
    }

    /// How much is done; never more than the total.
    pub fn current(&self) -> (r: usize)
        ensures
            r == self@.current,
            r <= self@.total,
    {
        match &self.state {
            State::Init(item) => item.current(),
            State::Add(item) => item.current(),
            State::Complete(item) => item.current(),
        }
    }

    pub fn total(&self) -> (r: usize)
        ensures
            r == self@.total,
    {
        match &self.state {
            State::Init(item) => item.total(),
            State::Add(item) => item.total(),
            State::Complete(item) => item.total(),
        }
    }
}

} // verus!

//! Progress towards a total, with its state in its type: a `Progression<Init>` has just
//! started, a `Progression<Add>` has advanced, and a `Progression<Complete>` has finished.
//!
//! Progress never goes beyond its total, and no transition changes the total.
use vstd::prelude::*;
use std::marker::PhantomData;

verus! {

/// How far along: `current` out of `total`.
pub struct Progress {
    current: usize,
    total: usize,
}

impl Progress {
    #[verifier::type_invariant]
    spec fn inv(self) -> bool {
        self.current <= self.total
    }
}

/// Progression indicates how far we are.
pub struct Progression<S: ProgressionState> {
    progress: Progress,
    marker: PhantomData<S>,
}

/// The state "just started".
pub struct Init;

/// The state "advanced by some amount".
pub struct Add;

/// The state "finished".
pub struct Complete;

/// The states a [`Progression`] can be in.
pub trait ProgressionState {}

impl ProgressionState for Init {}

impl ProgressionState for Add {}

impl ProgressionState for Complete {}

/// The counts of a progression: `(current, total)`.
pub struct Counts {
    pub current: nat,
    pub total: nat,
}

impl<S: ProgressionState> View for Progression<S> {
    type V = Counts;

    closed spec fn view(&self) -> Counts {
        Counts { current: self.progress.current as nat, total: self.progress.total as nat }
    }
}

/// Adding `value` to `current`, without going beyond `total`.
pub open spec fn added(current: nat, value: nat, total: nat) -> nat {
    if current + value <= total {
        current + value
    } else {
        total
    }
}

impl Add {
    fn add<S: ProgressionState>(progress: Progression<S>, additional_value: usize) -> (r:
        Progression<Add>)
        requires
            progress@.current + additional_value <= usize::MAX,
        ensures
            r@ == (Counts {
                current: added(progress@.current, additional_value as nat, progress@.total),
                total: progress@.total,
            }),
    {
        let current = progress.current();
        let total = progress.total();
        let added = current + additional_value;

        // Do not scale beyond the max (i.e. beyond 'total')
        let updated_current = if added <= total {
            added
        } else {
            total
        };

        Progression { progress: Progress { current: updated_current, total }, marker: PhantomData }
    }
}

impl Complete {
    /// The finished form of any progression: everything done, out of the same total.
    pub fn completed<S: ProgressionState>(progress: Progression<S>) -> (r: Progression<Complete>)
        ensures
            r@ == (Counts { current: progress@.total, total: progress@.total }),
    {
        let total = progress.total();

        Progression { progress: Progress { current: total, total }, marker: PhantomData }
    }
}

impl<T: ProgressionState> Progression<T> {
    /// How much is done; never more than the total.
    pub fn current(&self) -> (r: usize)
        ensures
            r == self@.current,
            r <= self@.total,
    {
        proof {
            use_type_invariant(&self.progress);
        }
        self.progress.current
    }

    pub fn total(&self) -> (r: usize)
        ensures
            r == self@.total,
    {
        self.progress.total
    }
}

impl Progression<Init> {
    /// Start: nothing done out of `total`.
    pub fn init(total: usize) -> (r: Self)
        ensures
            r@ == (Counts { current: 0, total: total as nat }),
    {
        Progression { progress: Progress { current: 0, total }, marker: PhantomData }
    }

    /// Advance by `progress`, up to the total.
    pub fn add(self, progress: usize) -> (r: Progression<Add>)
        requires
            self@.current + progress <= usize::MAX,
        ensures
            r@ == (Counts {
                current: added(self@.current, progress as nat, self@.total),
                total: self@.total,
            }),
    {
        Add::add(self, progress)
    }

    /// Finish: everything done.
    pub fn complete(self) -> (r: Progression<Complete>)
        ensures
            r@ == (Counts { current: self@.total, total: self@.total }),
    {
        Complete::completed(self)
    }
}

impl Progression<Add> {
    /// Advance by `progress` more, up to the total.
    pub fn add(self, progress: usize) -> (r: Progression<Add>)
        requires
            self@.current + progress <= usize::MAX,
        ensures
            r@ == (Counts {
                current: added(self@.current, progress as nat, self@.total),
                total: self@.total,
            }),
    {
        Add::add(self, progress)
    }

    /// Start over: nothing done out of the same total.
    pub fn reset(self) -> (r: Progression<Init>)
        ensures
            r@ == (Counts { current: 0, total: self@.total }),
    {
        Progression::init(self.total())
    }

    /// Finish: everything done.
    pub fn complete(self) -> (r: Progression<Complete>)
        ensures
            r@ == (Counts { current: self@.total, total: self@.total }),
    {
        Complete::completed(self)
    }
}

impl Progression<Complete> {
    /// Start over: nothing done out of the same total.
    pub fn reset(self) -> (r: Progression<Init>)
        ensures
            r@ == (Counts { current: 0, total: self@.total }),
    {
        Progression::init(self.total())
    }
}

} // verus!

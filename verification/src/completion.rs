//! One-shot completion cell: the bridge between "the native engine invokes
//! this callback exactly once, from an unspecified thread" and "the issuing
//! call site resumes with the delivered result".
//!
//! A fresh cell is created per asynchronous operation and lives exactly as
//! long as that call. The resolving side settles it at most once; dropping
//! the resolving side without resolving abandons it. An abandoned cell is a
//! distinct terminal outcome, never success and never a hang: taking the
//! outcome of a settled cell is total.
//!
//! The cell itself is a sequential state machine. Whatever wraps it for
//! cross-thread use (a lock plus a waker, a channel) adds the suspension;
//! the legal transitions and the meaning of each terminal state are fixed
//! here.

use vstd::prelude::*;

verus! {

/// Marker outcome of a completion whose resolving side was dropped without
/// ever delivering a value.
#[derive(Clone, Copy, PartialEq, Eq, Structural, Debug)]
pub struct Abandoned;

/// State of a one-shot completion cell, generic over the delivered payload.
///
/// `Pending` is the only state with outgoing transitions: `resolve` moves it
/// to `Resolved`, `abandon` to `Dropped`. Both terminal states are final.
#[derive(Debug)]
pub enum Completion<T> {
    Pending,
    Resolved(T),
    Dropped,
}

/// The state `resolve(value)` leaves a cell in.
pub open spec fn resolved_state<T>(c: Completion<T>, value: T) -> Completion<T> {
    if c is Pending {
        Completion::Resolved(value)
    } else {
        c
    }
}

/// The state `abandon` leaves a cell in.
pub open spec fn abandoned_state<T>(c: Completion<T>) -> Completion<T> {
    if c is Pending {
        Completion::Dropped
    } else {
        c
    }
}

impl<T> Completion<T> {
    /// True while no outcome has been delivered.
    pub open spec fn is_pending(self) -> bool {
        self is Pending
    }

    /// True once the cell carries a terminal outcome.
    pub open spec fn is_settled(self) -> bool {
        !(self is Pending)
    }

    /// A fresh cell, awaiting its single resolution.
    pub fn new() -> (r: Completion<T>)
        ensures
            r is Pending,
    {
        Completion::Pending
    }

    /// Delivers the one result. Accepted exactly on a pending cell; a second
    /// delivery is refused and leaves the first outcome untouched, so the
    /// value the awaiting side sees is always the first one delivered.
    /// Never blocks and never fails: the delivering thread must not stall.
    pub fn resolve(&mut self, value: T) -> (accepted: bool)
        ensures
            accepted == old(self).is_pending(),
            *final(self) == resolved_state(*old(self), value),
    {
        match self {
            Completion::Pending => {
                *self = Completion::Resolved(value);
                true
            },
            _ => false,
        }
    }

    /// Records that the resolving side was dropped without resolving. A cell
    /// that already carries an outcome keeps it.
    pub fn abandon(&mut self)
        ensures
            *final(self) == abandoned_state(*old(self)),
    {
        match self {
            Completion::Pending => {
                *self = Completion::Dropped;
            },
            _ => {},
        }
    }

    /// True once the cell carries a terminal outcome; the awaiting side may
    /// then `take` without suspending further.
    pub fn settled(&self) -> (r: bool)
        ensures
            r == self.is_settled(),
    {
        !(matches!(self, Completion::Pending))
    }

    /// Consumes a settled cell: the delivered value on resolution, the
    /// distinct abandonment failure when the resolver was dropped. Total on
    /// settled cells, so an awaiting caller can never hang on one.
    pub fn take(self) -> (r: Result<T, Abandoned>)
        requires
            self.is_settled(),
        ensures
            self matches Completion::Resolved(v) ==> r == Result::<T, Abandoned>::Ok(v),
            self is Dropped ==> r == Result::<T, Abandoned>::Err(Abandoned),
    {
        match self {
            Completion::Resolved(v) => Ok(v),
            _ => Err(Abandoned),
        }
    }
}

/// Law: a completion delivers at most one outcome. Whatever is delivered
/// first wins; any later resolution or abandonment leaves the cell unchanged,
/// so the awaiting side observes exactly the first delivery.
pub proof fn lemma_first_delivery_wins<T>(c: Completion<T>, first: T, second: T)
    requires
        c is Pending,
    ensures
        resolved_state(c, first) == Completion::Resolved(first),
        !resolved_state(c, first).is_pending(),
        resolved_state(resolved_state(c, first), second) == Completion::<T>::Resolved(first),
        abandoned_state(resolved_state(c, first)) == Completion::<T>::Resolved(first),
{
}

/// Law: abandonment of an in-flight completion is terminal and distinct: the
/// cell settles (the awaiting caller is resumed, never left hanging) and its
/// outcome is the abandonment failure, not success.
pub proof fn lemma_abandonment_terminal<T>(c: Completion<T>)
    requires
        c is Pending,
    ensures
        abandoned_state(c).is_settled(),
        !(abandoned_state(c) matches Completion::Resolved(_)),
        abandoned_state(c) is Dropped,
{
}

} // verus!

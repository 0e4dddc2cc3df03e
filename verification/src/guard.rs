//! The guard: it owns one action until its teardown, and the teardown runs it.

use crate::lifecycle::teardown;
use vstd::prelude::*;

verus! {

/// Owns an action from the moment it is made until its teardown.
///
/// A guard is made by [`defer`] and holds the action without calling it.
/// There is no way to look at the action, to take it back, or to arm the guard
/// again. The one thing that can happen to a guard is its teardown,
/// [`Defer::fire`], and that is meant for one caller only: the destructor of
/// the scope guard that wraps this type.
///
/// This type has no destructor of its own. Verus admits a destructor only
/// under the promise that it never unwinds, and a teardown unwinds whenever
/// the action panics, so that promise cannot be kept here. A `Defer` that is
/// dropped without a teardown drops its action uncalled.
///
/// The guard can be moved like any other value, and it can be sent to another
/// thread exactly when its action can. It cannot be copied or cloned.
pub struct Defer<F: FnOnce()> {
    action: Option<F>,
}

impl<F: FnOnce()> Defer<F> {
    /// The action that the guard holds: `Some` from when it is made until its
    /// teardown, `None` from then on.
    pub closed spec fn pending(&self) -> Option<F> {
        self.action
    }

    /// An action that a guard holds can be called.
    #[verifier::type_invariant]
    spec fn callable(&self) -> bool {
        self.action matches Some(f) ==> call_requires(f, ())
    }

    /// Moves the action out of the guard and leaves the guard empty, so that
    /// a teardown that runs again finds nothing to invoke.
    fn take_action(&mut self) -> (taken: Option<F>)
        ensures
            taken == teardown(old(self).pending()).invoked,
            final(self).pending() == teardown(old(self).pending()).left,
            taken matches Some(f) ==> call_requires(f, ()),
        no_unwind
    {
        proof {
            use_type_invariant(&*self);
        }
        // `swap`, not `Option::take`: of the two, only `swap` is known not to
        // unwind.
        let mut slot: Option<F> = None;
        core::mem::swap(&mut self.action, &mut slot);
        slot
    }

    /// The teardown. If the guard holds an action, the action is taken out
    /// and called, on this thread, before `fire` returns, and its
    /// postcondition then holds. A guard that holds nothing invokes nothing.
    /// Either way the guard holds nothing afterwards.
    ///
    /// The guard is emptied before the action is called. A panic raised by
    /// the action is neither caught nor replaced: it leaves `fire` as it left
    /// the action, and a teardown that runs again after it finds the guard
    /// empty. The teardown raises no failure of its own: on a guard that holds
    /// nothing it cannot unwind.
    pub fn fire(&mut self)
        ensures
            final(self).pending() == teardown(old(self).pending()).left,
            teardown(old(self).pending()).invoked matches Some(f) ==> call_ensures(f, (), ()),
        no_unwind when old(self).pending().is_none()
    {
        match self.take_action() {
            Some(action) => action(),
            None => {},
        }
    }
}

/// Defers `action`: makes the guard that holds it until the teardown.
///
/// The guard takes ownership of the action, and of everything the action has
/// captured by value, without calling it. Making a guard cannot fail; all
/// that is asked is that the action can be called.
pub fn defer<F: FnOnce()>(action: F) -> (guard: Defer<F>)
    requires
        call_requires(action, ()),
    ensures
        guard.pending() == Some(action),
    no_unwind
{
    Defer { action: Some(action) }
}

} // verus!

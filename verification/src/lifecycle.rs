//! The life of a guard, as values.
//!
//! A guard is either armed (it holds the action it was made with) or spent (it
//! holds nothing). The only thing that ever happens to it is a teardown. This
//! module says what a teardown does and proves what follows for any number of
//! them: the action is handed over for invocation once, and only once.
//!
//! It then says what the end of a scope does to the guards that the scope
//! holds, and proves that their actions are invoked in the reverse of the
//! order in which they were deferred.

use vstd::prelude::*;

verus! {

/// What one teardown does.
pub struct Teardown<F> {
    /// The action handed over for invocation, if the guard held one.
    pub invoked: Option<F>,
    /// What the guard holds afterwards.
    pub left: Option<F>,
}

/// One teardown of a guard that holds `pending`: whatever it holds is handed
/// over, and nothing is left behind.
pub open spec fn teardown<F>(pending: Option<F>) -> Teardown<F> {
    Teardown { invoked: pending, left: None }
}

/// The actions invoked, in order, by `teardowns` successive teardowns of a
/// guard that starts out holding `pending`.
pub open spec fn fired<F>(pending: Option<F>, teardowns: nat) -> Seq<F>
    decreases teardowns,
{
    if teardowns == 0 {
        Seq::empty()
    } else {
        let step = teardown(pending);
        let now = match step.invoked {
            Some(f) => seq![f],
            None => Seq::empty(),
        };
        now + fired(step.left, (teardowns - 1) as nat)
    }
}

/// As long as a guard has not been torn down, nothing has been invoked,
/// whatever it holds.
pub proof fn lemma_nothing_fires_before_teardown<F>(pending: Option<F>)
    ensures
        fired(pending, 0) == Seq::<F>::empty(),
{
}

/// A teardown that runs again, after the first, hands over nothing and
/// changes nothing: the first one has left the guard empty.
pub proof fn lemma_second_teardown_is_idle<F>(pending: Option<F>)
    ensures
        teardown(teardown(pending).left).invoked.is_none(),
        teardown(teardown(pending).left).left == teardown(pending).left,
{
}

/// A spent guard invokes nothing, however often it is torn down.
pub proof fn lemma_spent_guard_fires_nothing<F>(teardowns: nat)
    ensures
        fired::<F>(None, teardowns) == Seq::<F>::empty(),
    decreases teardowns,
{
    if teardowns > 0 {
        lemma_spent_guard_fires_nothing::<F>((teardowns - 1) as nat);
        assert(fired::<F>(None, teardowns) =~= Seq::<F>::empty());
    }
}

/// An armed guard invokes the action it holds exactly once: the first
/// teardown hands over that very action, and no later teardown adds to it.
pub proof fn lemma_fires_exactly_once<F>(f: F, teardowns: nat)
    requires
        teardowns >= 1,
    ensures
        fired(Some(f), teardowns) == seq![f],
{
    lemma_spent_guard_fires_nothing::<F>((teardowns - 1) as nat);
    assert(fired(Some(f), teardowns) =~= seq![f]);
}

/// The guards of a scope in which `actions` were deferred, one after the
/// other, and none has been torn down yet.
pub open spec fn armed<F>(actions: Seq<F>) -> Seq<Option<F>> {
    Seq::new(actions.len(), |i: int| Some(actions[i]))
}

/// The actions invoked, in order, when a scope ends whose guards hold `held`,
/// listed in the order in which the guards were made.
///
/// A scope lets go of its locals last made, first dropped, whichever way it
/// is left, and dropping a guard is one teardown. That order is Rust's rule;
/// it is written down here, not derived.
pub open spec fn fired_at_scope_end<F>(held: Seq<Option<F>>) -> Seq<F>
    decreases held.len(),
{
    if held.len() == 0 {
        Seq::empty()
    } else {
        fired(held.last(), 1) + fired_at_scope_end(held.drop_last())
    }
}

/// A scope that holds one armed guard invokes that guard's action, once,
/// when it ends.
pub proof fn lemma_scope_end_fires_its_guard_once<F>(f: F)
    ensures
        fired_at_scope_end(armed(seq![f])) == seq![f],
{
    lemma_scope_end_fires_in_reverse(seq![f]);
}

/// When a scope ends in which `actions` were deferred one after the other,
/// every one of them is invoked exactly once, and they are invoked in the
/// reverse of the order in which they were deferred.
pub proof fn lemma_scope_end_fires_in_reverse<F>(actions: Seq<F>)
    ensures
        fired_at_scope_end(armed(actions)) == actions.reverse(),
    decreases actions.len(),
{
    if actions.len() > 0 {
        let earlier = actions.drop_last();
        lemma_fires_exactly_once(actions.last(), 1);
        lemma_scope_end_fires_in_reverse(earlier);
        assert(armed(actions).drop_last() =~= armed(earlier));
    }
}

} // verus!

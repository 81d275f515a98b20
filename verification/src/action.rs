//! The unit of serialized work, and the mathematical model of a mailbox
//! run: what state results, and what replies are produced, when a sequence
//! of dequeued actions is applied in order, each exactly once.

use vstd::prelude::*;

verus! {

/// One move-only unit of work the mailbox applies to its owned state.
///
/// An action is consumed exactly once by `act`; once applied it cannot be
/// replayed or inspected. Implementers describe the transform twice: once
/// mathematically (`act_spec`) and once executably (`act`), and the contract
/// ties the two together, so everything proved of a mailbox run holds of
/// whatever the implementer's `act` actually does.
pub trait Action: Sized {
    /// The state owned by the runtime loop.
    type State;

    /// What a successful application hands back to the caller.
    type Result;

    /// The user-domain error an application may hand back instead. Opaque to
    /// the mailbox machinery, which passes it through verbatim.
    type Error;

    /// What applying this action means: the successor state, and the outcome
    /// delivered to the caller who submitted it.
    spec fn act_spec(self, s: Self::State) -> (Self::State, Result<Self::Result, Self::Error>);

    /// Consume this action and transform the state, producing the outcome.
    fn act(self, s: &mut Self::State) -> (r: Result<Self::Result, Self::Error>)
        ensures
            *final(s) == self.act_spec(*old(s)).0,
            r == self.act_spec(*old(s)).1,
    ;
}

/// The state after one action has been applied.
pub open spec fn next_state<A: Action>(s: A::State, a: A) -> A::State {
    a.act_spec(s).0
}

/// The reply one action produces when applied to `s`.
pub open spec fn outcome_of<A: Action>(s: A::State, a: A) -> Result<A::Result, A::Error> {
    a.act_spec(s).1
}

/// The state after the mailbox has applied `actions` in order, each exactly
/// once, starting from `s`.
pub open spec fn run_state<A: Action>(s: A::State, actions: Seq<A>) -> A::State
    decreases actions.len(),
{
    if actions.len() == 0 {
        s
    } else {
        run_state(next_state(s, actions[0]), actions.drop_first())
    }
}

/// The replies the mailbox delivers for `actions`, in submission order.
pub open spec fn run_outcomes<A: Action>(s: A::State, actions: Seq<A>) -> Seq<
    Result<A::Result, A::Error>,
>
    decreases actions.len(),
{
    if actions.len() == 0 {
        Seq::empty()
    } else {
        seq![outcome_of(s, actions[0])] + run_outcomes(
            next_state(s, actions[0]),
            actions.drop_first(),
        )
    }
}

/// Appending one action to a run applies it last, to the state the earlier
/// actions produced.
pub proof fn lemma_run_state_push<A: Action>(s: A::State, actions: Seq<A>, a: A)
    ensures
        run_state(s, actions.push(a)) == next_state(run_state(s, actions), a),
    decreases actions.len(),
{
    if actions.len() == 0 {
        assert(actions.push(a)[0] == a);
        assert(actions.push(a).drop_first() =~= Seq::<A>::empty());
        assert(run_state(s, actions.push(a)) == run_state(next_state(s, a), Seq::<A>::empty()));
        assert(run_state(next_state(s, a), Seq::<A>::empty()) == next_state(s, a));
        assert(run_state(s, actions) == s);
    } else {
        let tail = actions.drop_first();
        let s1 = next_state(s, actions[0]);
        assert(actions.push(a)[0] == actions[0]);
        assert(actions.push(a).drop_first() =~= tail.push(a));
        assert(run_state(s, actions.push(a)) == run_state(s1, tail.push(a)));
        lemma_run_state_push(s1, tail, a);
        assert(run_state(s, actions) == run_state(s1, tail));
    }
}

/// Appending one action to a run appends exactly one reply: the outcome of
/// that action against the state the earlier actions produced.
pub proof fn lemma_run_outcomes_push<A: Action>(s: A::State, actions: Seq<A>, a: A)
    ensures
        run_outcomes(s, actions.push(a)) == run_outcomes(s, actions).push(
            outcome_of(run_state(s, actions), a),
        ),
    decreases actions.len(),
{
    if actions.len() == 0 {
        assert(actions.push(a)[0] == a);
        assert(actions.push(a).drop_first() =~= Seq::<A>::empty());
        assert(run_outcomes(s, actions.push(a)) == seq![outcome_of(s, a)] + run_outcomes(
            next_state(s, a),
            Seq::<A>::empty(),
        ));
        assert(run_state(s, actions) == s);
        assert(run_outcomes(s, actions.push(a)) =~= run_outcomes(s, actions).push(
            outcome_of(s, a),
        ));
    } else {
        let tail = actions.drop_first();
        let s1 = next_state(s, actions[0]);
        assert(actions.push(a)[0] == actions[0]);
        assert(actions.push(a).drop_first() =~= tail.push(a));
        assert(run_outcomes(s, actions.push(a)) == seq![outcome_of(s, actions[0])]
            + run_outcomes(s1, tail.push(a)));
        lemma_run_outcomes_push(s1, tail, a);
        assert(run_state(s, actions) == run_state(s1, tail));
        assert(run_outcomes(s, actions) == seq![outcome_of(s, actions[0])] + run_outcomes(
            s1,
            tail,
        ));
        assert(run_outcomes(s, actions.push(a)) =~= run_outcomes(s, actions).push(
            outcome_of(run_state(s, actions), a),
        ));
    }
}

/// A run produces exactly one reply per dequeued action.
pub proof fn lemma_run_outcomes_len<A: Action>(s: A::State, actions: Seq<A>)
    ensures
        run_outcomes(s, actions).len() == actions.len(),
    decreases actions.len(),
{
    if actions.len() > 0 {
        lemma_run_outcomes_len(next_state(s, actions[0]), actions.drop_first());
    }
}

/// Serialization: a run over a concatenation is the run over the first part
/// followed by the run over the second, so the final state of any mailbox
/// run equals the result of applying all submitted actions in one sequential
/// order — the dequeue order — with none lost and none duplicated.
pub proof fn lemma_run_state_concat<A: Action>(s: A::State, xs: Seq<A>, ys: Seq<A>)
    ensures
        run_state(s, xs + ys) == run_state(run_state(s, xs), ys),
    decreases xs.len(),
{
    if xs.len() == 0 {
        assert(xs + ys =~= ys);
    } else {
        assert((xs + ys).drop_first() =~= xs.drop_first() + ys);
        lemma_run_state_concat(next_state(s, xs[0]), xs.drop_first(), ys);
    }
}

/// Per-handle FIFO: when one action stands before another in the dequeue
/// order — as two actions submitted through the same handle always do,
/// whether or not the first was awaited — the earlier one is applied first:
/// the later one's reply is computed against a state that already includes
/// the earlier one's effect.
pub proof fn lemma_per_handle_fifo<A: Action>(s: A::State, actions: Seq<A>, i: int, j: int)
    requires
        0 <= i < j < actions.len(),
    ensures
        run_outcomes(s, actions)[j] == outcome_of(
            run_state(run_state(s, actions.take(i + 1)), actions.subrange(i + 1, j)),
            actions[j],
        ),
{
    lemma_reply_in_order(s, actions, j);
    assert(actions.take(j) =~= actions.take(i + 1) + actions.subrange(i + 1, j));
    lemma_run_state_concat(s, actions.take(i + 1), actions.subrange(i + 1, j));
}

/// Ordering and exactly-once application, pointwise: the `i`-th dequeued
/// action is applied exactly once, to precisely the state left by the `i`
/// actions dequeued before it — so two actions submitted through one handle
/// are applied in submission order, each seeing the effects of the earlier
/// one.
pub proof fn lemma_reply_in_order<A: Action>(s: A::State, actions: Seq<A>, i: int)
    requires
        0 <= i < actions.len(),
    ensures
        run_outcomes(s, actions).len() == actions.len(),
        run_outcomes(s, actions)[i] == outcome_of(run_state(s, actions.take(i)), actions[i]),
        run_state(s, actions.take(i + 1)) == next_state(
            run_state(s, actions.take(i)),
            actions[i],
        ),
    decreases i,
{
    lemma_run_outcomes_len(s, actions);
    assert(actions.take(i + 1) =~= actions.take(i).push(actions[i]));
    lemma_run_state_push(s, actions.take(i), actions[i]);
    if i == 0 {
        assert(actions.take(0) =~= Seq::<A>::empty());
    } else {
        let s1 = next_state(s, actions[0]);
        let rest = actions.drop_first();
        lemma_reply_in_order(s1, rest, i - 1);
        assert(rest.take(i - 1) =~= actions.take(i).drop_first());
        assert(rest[i - 1] == actions[i]);
        assert(run_state(s, actions.take(i)) == run_state(s1, rest.take(i - 1)));
        assert(run_outcomes(s, actions)[i] == run_outcomes(s1, rest)[i - 1]);
    }
}

} // verus!

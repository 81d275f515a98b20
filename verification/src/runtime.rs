//! The single consumer of the mailbox: it owns the state exclusively for
//! its entire lifetime and applies dequeued actions one at a time, so all
//! mutation is serialized by construction, without locks.

use vstd::prelude::*;

use crate::action::Action;
use crate::action::lemma_run_outcomes_push;
use crate::action::lemma_run_state_push;
use crate::action::next_state;
use crate::action::outcome_of;
use crate::action::run_outcomes;
use crate::action::run_state;

verus! {

/// The runtime loop's owned half: the state, reachable only through the
/// serialized action protocol. No other component ever reads or writes it.
pub struct Actor<A: Action> {
    state: A::State,
}

impl<A: Action> Actor<A> {
    /// The owned state, visible to specifications alone: at run time it is
    /// never observable or mutable except from inside the runtime loop.
    pub closed spec fn model(&self) -> A::State {
        self.state
    }

    /// Begin a runtime loop's life with the caller-supplied initial state.
    pub fn new(initial_state: A::State) -> (r: Self)
        ensures
            r.model() == initial_state,
    {
        Actor { state: initial_state }
    }

    /// Apply one dequeued action to the owned state. Taking `&mut self`
    /// makes the serialization structural: at most one action is ever being
    /// applied at any instant, and each is applied exactly once, when it is
    /// dequeued.
    pub fn step(&mut self, action: A) -> (r: Result<A::Result, A::Error>)
        ensures
            final(self).model() == next_state(old(self).model(), action),
            r == outcome_of(old(self).model(), action),
    {
        action.act(&mut self.state)
    }

    /// Apply one dequeued action, then push its outcome into that action's
    /// reply channel. Returns whether the reply was delivered; a delivery
    /// failure (the caller already abandoned the wait) is swallowed, never
    /// propagated, so the loop goes on whether or not anyone is listening.
    /// A user error inside the outcome is a payload, never a loop fault.
    pub fn handle(
        &mut self,
        action: A,
        reply_to: futures_channel::oneshot::Sender<Result<A::Result, A::Error>>,
    ) -> (delivered: bool)
        ensures
            final(self).model() == next_state(old(self).model(), action),
    {
        let outcome = self.step(action);
        match reply_to.send(outcome) {
            Ok(()) => true,
            Err(_) => false,
        }
    }

    /// The runtime loop run to quiescence: apply every dequeued action in
    /// arrival order, each exactly once, collecting one reply per action in
    /// that same order.
    pub fn drain(&mut self, actions: Vec<A>) -> (replies: Vec<Result<A::Result, A::Error>>)
        ensures
            final(self).model() == run_state(old(self).model(), actions@),
            replies@ == run_outcomes(old(self).model(), actions@),
    {
        let ghost s0 = self.model();
        let ghost q = actions@;
        let mut rest = actions;
        let mut replies: Vec<Result<A::Result, A::Error>> = Vec::new();
        while rest.len() != 0
            invariant
                replies@.len() + rest@.len() == q.len(),
                rest@ == q.skip(replies@.len() as int),
                self.model() == run_state(s0, q.take(replies@.len() as int)),
                replies@ == run_outcomes(s0, q.take(replies@.len() as int)),
            decreases rest@.len(),
        {
            let ghost i = replies@.len() as int;
            proof {
                assert(rest@[0] == q[i]);
            }
            let a = rest.remove(0);
            proof {
                assert(rest@ =~= q.skip(i + 1));
                assert(q.take(i + 1) =~= q.take(i).push(a));
                lemma_run_state_push(s0, q.take(i), a);
                lemma_run_outcomes_push(s0, q.take(i), a);
            }
            let r = self.step(a);
            replies.push(r);
        }
        proof {
            assert(q.take(replies@.len() as int) =~= q);
        }
        replies
    }
}

} // verus!

//! A state machine whose states decide for themselves what follows an event.

use std::fmt::Debug;
use std::marker::PhantomData;
use vstd::prelude::*;

verus! {

/// An event that a state machine can be handed.
pub trait FsmEvent: Debug {

}

/// One state of a machine over the events `E`.
pub trait FsmState<E: FsmEvent>: Debug + Sized {
    /// Called when the machine enters this state.
    fn on_enter(&self) {
    }

    /// Called when the machine leaves this state.
    fn on_exit(&self) {
    }

    /// Decides what follows `event`: the state to go to, or nothing if the
    /// machine is to stay where it is.
    fn handle_event(&self, event: &E) -> Option<Self>;
}

/// The state a machine is in after its state `current` has decided on `decision`.
pub open spec fn successor<S>(current: S, decision: Option<S>) -> S {
    match decision {
        Some(next) => next,
        None => current,
    }
}

/// A machine that is in one state at a time.
#[derive(Debug)]
pub struct StateMachine<E: FsmEvent, S: FsmState<E>> {
    state: S,
    event: PhantomData<E>,
}

impl<E: FsmEvent, S: FsmState<E>> StateMachine<E, S> {
    /// The state the machine is in.
    pub closed spec fn current(&self) -> S {
        self.state
    }

    /// A machine in `initial_state`.
    pub fn new(initial_state: S) -> (m: Self)
        ensures
            m.current() == initial_state,
    {
        Self { state: initial_state, event: PhantomData }
    }

    /// The state the machine is in.
    pub fn state(&self) -> (s: &S)
        ensures
            *s == self.current(),
    {
        &self.state
    }

    /// Hands `event` to the present state and goes where that state decides:
    /// the machine ends in the successor that the state's own
    /// `handle_event` has named for this event, or stays if it has named none.
    pub fn handle_event(&mut self, event: &E)
        ensures
            exists|decision: Option<S>|
                call_ensures(S::handle_event, (&old(self).current(), event), decision)
                    && final(self).current() == successor(old(self).current(), decision),
    {
        let new_state = self.state.handle_event(event);
        self.transition(new_state);
    }

    /// Carries out a state's decision. Where it names a successor, the
    /// present state is left and the successor entered.
    pub fn transition(&mut self, decision: Option<S>)
        ensures
            final(self).current() == successor(old(self).current(), decision),
    {
        if let Some(new_state) = decision {
            self.state.on_exit();
            self.state = new_state;
            self.state.on_enter();
        }
    }
}

} // verus!

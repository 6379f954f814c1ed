//! The session store: the state of every conversation, by its identifier.

use vstd::prelude::*;
use std::collections::HashMap;
use crate::dialogue::{decide, step, Action, ActionView, Step};
use crate::state::{InboundEvent, InboundEventView, State, StateView};

verus! {

broadcast use vstd::std_specs::hash::group_hash_axioms;

/// The state of the conversation `id` among `sessions`: a conversation that
/// has no session yet is in `Start`.
pub open spec fn state_in(sessions: Map<i64, StateView>, id: i64) -> StateView {
    if sessions.contains_key(id) {
        sessions[id]
    } else {
        StateView::Start
    }
}

/// The sessions after `event` was taken: the conversation of the event is in
/// the state that the dialogue gives, every other session is as before.
pub open spec fn advanced(sessions: Map<i64, StateView>, event: InboundEventView) -> Map<
    i64,
    StateView,
> {
    sessions.insert(
        event.conversation_id,
        decide(state_in(sessions, event.conversation_id), event).state,
    )
}

/// What follows when `event` is taken with the sessions as they are.
pub open spec fn action_for(sessions: Map<i64, StateView>, event: InboundEventView) -> ActionView {
    decide(state_in(sessions, event.conversation_id), event).action
}

/// The sessions of all conversations.
pub struct SessionStore {
    sessions: HashMap<i64, State>,
}

impl View for SessionStore {
    type V = Map<i64, StateView>;

    closed spec fn view(&self) -> Map<i64, StateView> {
        Map::new(|id: i64| self.sessions@.contains_key(id), |id: i64| self.sessions@[id]@)
    }
}

impl SessionStore {
    /// A store without any session.
    pub fn new() -> (r: Self)
        ensures
            r@ == Map::<i64, StateView>::empty(),
    {
        let r = SessionStore { sessions: HashMap::new() };
        assert(r@ =~= Map::<i64, StateView>::empty());
        r
    }

    /// The state of the conversation `id`.
    pub fn get(&self, id: i64) -> (r: State)
        ensures
            r@ == state_in(self@, id),
    {
        match self.sessions.get(&id) {
            Some(state) => state.clone(),
            None => State::Start,
        }
    }

    /// Puts the conversation `id` in `state`.
    pub fn set(&mut self, id: i64, state: State)
        ensures
            final(self)@ == old(self)@.insert(id, state@),
    {
        self.sessions.insert(id, state);
        assert(self@ =~= old(self)@.insert(id, state@));
    }

    /// Takes one event: moves the conversation of the event to its next
    /// state and gives what follows. No other conversation is read or changed.
    pub fn advance(&mut self, event: &InboundEvent) -> (r: Action)
        ensures
            final(self)@ == advanced(old(self)@, event@),
            r@ == action_for(old(self)@, event@),
            forall|other: i64|
                other != event.conversation_id ==> state_in(final(self)@, other) == state_in(
                    old(self)@,
                    other,
                ),
    {
        let state = self.get(event.conversation_id);
        let Step { state: next, action } = step(state, event);
        self.set(event.conversation_id, next);
        action
    }
}

/// Taking an event of one conversation leaves every other conversation as it was.
pub proof fn lemma_session_isolation(
    sessions: Map<i64, StateView>,
    event: InboundEventView,
    other: i64,
)
    requires
        other != event.conversation_id,
    ensures
        advanced(sessions, event).contains_key(other) == sessions.contains_key(other),
        state_in(advanced(sessions, event), other) == state_in(sessions, other),
{
}

/// Events of two conversations can be taken in either order: each gets the
/// same action and the same next state as if the other had not been there.
pub proof fn lemma_interleaving(
    sessions: Map<i64, StateView>,
    first: InboundEventView,
    second: InboundEventView,
)
    requires
        first.conversation_id != second.conversation_id,
    ensures
        action_for(advanced(sessions, first), second) == action_for(sessions, second),
        action_for(advanced(sessions, second), first) == action_for(sessions, first),
        advanced(advanced(sessions, first), second) == advanced(advanced(sessions, second), first),
{
    assert(advanced(advanced(sessions, first), second) =~= advanced(
        advanced(sessions, second),
        first,
    ));
}

} // verus!

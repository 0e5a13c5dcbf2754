//! Keeps track of how far each conversation has come. `C` is what a conversation is held with once
//! it is active.

use vstd::prelude::*;

use crate::error::Error;
use crate::protocol::ConversationId;
use crate::table::Table;
use crate::text::concat2;

verus! {

/// How far a conversation has come.
pub enum ConversationState<C> {
    Starting,
    Active(C),
    Stopping,
}

impl<C> View for ConversationState<C> {
    type V = ConversationState<C>;

    open spec fn view(&self) -> ConversationState<C> {
        *self
    }
}

impl<C> ConversationState<C> {
    /// Goes from active to stopping, and hands out what the conversation was held with.
    pub fn stopping(&mut self) -> (r: Result<C, Error>)
        ensures
            r is Ok <==> *old(self) is Active,
            r matches Ok(conversation) ==> *old(self) == ConversationState::Active(conversation)
                && *final(self) is Stopping,
            r matches Err(e) ==> *final(self) == *old(self) && e@ == seq![not_active()],
    {
        let mut state = ConversationState::Stopping;
        core::mem::swap(self, &mut state);
        match state {
            ConversationState::Active(conversation) => Ok(conversation),
            other => {
                *self = other;
                Err(Error::new("ConverstationState is not active"))
            },
        }
    }
}

/// The message for a conversation that is not active.
pub open spec fn not_active() -> Seq<char> {
    "ConverstationState is not active"@
}

/// Keeps the calls for each conversation in order: starting, started, stopping, stopped.
pub struct ConversationController<C> {
    conversations: Table<ConversationId, ConversationState<C>>,
}

impl<C> View for ConversationController<C> {
    type V = Map<Seq<char>, ConversationState<C>>;

    closed spec fn view(&self) -> Map<Seq<char>, ConversationState<C>> {
        self.conversations@
    }
}

impl<C> Default for ConversationController<C> {
    fn default() -> (r: ConversationController<C>)
        ensures
            r@ == Map::<Seq<char>, ConversationState<C>>::empty(),
    {
        ConversationController { conversations: Table::new() }
    }
}

/// Whether a conversation is in the first of its states.
pub open spec fn is_starting<C>(
    conversations: Map<Seq<char>, ConversationState<C>>,
    id: Seq<char>,
) -> bool {
    conversations.contains_key(id) && conversations[id] is Starting
}

/// Whether a conversation is active.
pub open spec fn is_active<C>(
    conversations: Map<Seq<char>, ConversationState<C>>,
    id: Seq<char>,
) -> bool {
    conversations.contains_key(id) && conversations[id] is Active
}

/// Whether a conversation is in the last of its states.
pub open spec fn is_stopping<C>(
    conversations: Map<Seq<char>, ConversationState<C>>,
    id: Seq<char>,
) -> bool {
    conversations.contains_key(id) && conversations[id] is Stopping
}

impl<C> ConversationController<C> {
    /// A conversation with the given id is starting.
    pub fn starting(&mut self, id: &ConversationId) -> (r: Result<(), Error>)
        ensures
            r is Ok <==> !old(self)@.contains_key(id@),
            r is Ok ==> final(self)@ == old(self)@.insert(id@, ConversationState::Starting),
            r matches Err(e) ==> final(self)@ == old(self)@ && e@ == seq![
                id@ + ": Conversation already ongoing"@,
            ],
    {
        if self.conversations.contains(id) {
            return Err(Error::from_text(concat2(id.as_str(), ": Conversation already ongoing")));
        }
        let _ = self.conversations.insert(id.clone(), ConversationState::Starting);
        Ok(())
    }

    /// A conversation that was starting is active, or could not be started.
    pub fn started(&mut self, id: &ConversationId, conversation: Result<C, Error>) -> (r: Result<
        (),
        Error,
    >)
        ensures
            r is Ok <==> is_starting(old(self)@, id@) && conversation is Ok,
            r is Ok ==> final(self)@ == old(self)@.insert(
                id@,
                ConversationState::Active(conversation->Ok_0),
            ),
            r is Err ==> final(self)@ == old(self)@,
            r matches Err(e) ==> e@ == if is_starting(old(self)@, id@) {
                conversation->Err_0@
            } else {
                seq![id@ + ": Conversation started, but currently not in state starting"@]
            },
    {
        let starting = match self.conversations.get(id) {
            Some(ConversationState::Starting) => true,
            _ => false,
        };
        if !starting {
            return Err(
                Error::from_text(
                    concat2(
                        id.as_str(),
                        ": Conversation started, but currently not in state starting",
                    ),
                ),
            );
        }
        match conversation {
            Ok(conversation) => {
                let _ = self.conversations.insert(
                    id.clone(),
                    ConversationState::Active(conversation),
                );
                Ok(())
            },
            Err(error) => Err(error),
        }
    }

    /// An active conversation is stopping. Returns what it was held with.
    pub fn stopping(&mut self, id: &ConversationId) -> (r: Result<C, Error>)
        ensures
            r is Ok <==> is_active(old(self)@, id@),
            r matches Ok(conversation) ==> old(self)@[id@] == ConversationState::Active(
                conversation,
            ) && final(self)@ == old(self)@.insert(id@, ConversationState::Stopping),
            r matches Err(e) ==> final(self)@ == old(self)@ && e@ == if old(self)@.contains_key(
                id@,
            ) {
                seq![not_active()]
            } else {
                seq![id@ + ": Conversation does not exist, can't stop"@]
            },
    {
        match self.conversations.remove(id) {
            None => {
                assert(self@ =~= old(self)@);
                Err(
                    Error::from_text(
                        concat2(id.as_str(), ": Conversation does not exist, can't stop"),
                    ),
                )
            },
            Some(state) => {
                let mut state = state;
                let r = state.stopping();
                let _ = self.conversations.insert(id.clone(), state);
                proof {
                    if r is Err {
                        assert(self@ =~= old(self)@);
                    } else {
                        assert(self@ =~= old(self)@.insert(id@, ConversationState::Stopping));
                    }
                }
                r
            },
        }
    }

    /// A conversation that was stopping has stopped, with the given result.
    pub fn stopped(&mut self, id: &ConversationId, result: Result<(), Error>) -> (r: Result<
        (),
        Error,
    >)
        ensures
            is_stopping(old(self)@, id@) ==> r == result && final(self)@ == old(self)@.remove(id@),
            !is_stopping(old(self)@, id@) ==> final(self)@ == old(self)@ && r is Err
                && r->Err_0@ == seq![
                id@ + ": Conversation stopped, but currently not in state stopping"@,
            ],
    {
        let stopping = match self.conversations.get(id) {
            Some(ConversationState::Stopping) => true,
            _ => false,
        };
        if !stopping {
            return Err(
                Error::from_text(
                    concat2(
                        id.as_str(),
                        ": Conversation stopped, but currently not in state stopping",
                    ),
                ),
            );
        }
        let _ = self.conversations.remove(id);
        result
    }
}

/// A conversation that goes through all its states leaves nothing behind, and its id can be used
/// again.
pub proof fn law_whole_life_leaves_nothing<C>(
    conversations: Map<Seq<char>, ConversationState<C>>,
    id: Seq<char>,
    conversation: C,
)
    requires
        !conversations.contains_key(id),
    ensures
        ({
            let starting = conversations.insert(id, ConversationState::Starting);
            let active = starting.insert(id, ConversationState::Active(conversation));
            let stopping = active.insert(id, ConversationState::Stopping);
            &&& is_starting(starting, id)
            &&& is_active(active, id)
            &&& is_stopping(stopping, id)
            &&& stopping.remove(id) == conversations
        }),
{
    let starting = conversations.insert(id, ConversationState::Starting);
    let active = starting.insert(id, ConversationState::Active(conversation));
    let stopping = active.insert(id, ConversationState::Stopping);
    assert(stopping.remove(id) =~= conversations);
}

/// The states of a conversation exclude each other, and one of them holds of each that is known.
pub proof fn law_one_state<C>(conversations: Map<Seq<char>, ConversationState<C>>, id: Seq<char>)
    ensures
        conversations.contains_key(id) <==> (is_starting(conversations, id) || is_active(
            conversations,
            id,
        ) || is_stopping(conversations, id)),
        is_starting(conversations, id) ==> conversations[id] is Starting,
        is_active(conversations, id) ==> conversations[id] is Active,
        is_stopping(conversations, id) ==> conversations[id] is Stopping,
{
}

/// A conversation is started once, becomes active when it has started, hands itself out when it is
/// stopped, and is forgotten when it has stopped.
pub proof fn law_steps_of_a_life<C>(
    a: &mut ConversationController<C>,
    b: &mut ConversationController<C>,
    c: &mut ConversationController<C>,
    d: &mut ConversationController<C>,
    id: ConversationId,
    conversation: Result<C, Error>,
    result: Result<(), Error>,
    starting: Result<(), Error>,
    started: Result<(), Error>,
    stopping: Result<C, Error>,
    stopped: Result<(), Error>,
)
    requires
        call_ensures(ConversationController::<C>::starting, (a, &id), starting),
        call_ensures(ConversationController::<C>::started, (b, &id, conversation), started),
        call_ensures(ConversationController::<C>::stopping, (c, &id), stopping),
        call_ensures(ConversationController::<C>::stopped, (d, &id, result), stopped),
    ensures
        starting is Ok <==> !old(a)@.contains_key(id@),
        starting is Ok ==> final(a)@.contains_key(id@) && final(a)@[id@] is Starting,
        starting is Err ==> final(a)@ == old(a)@ && starting->Err_0@ == seq![
            id@ + ": Conversation already ongoing"@,
        ],
        started is Ok <==> old(b)@.contains_key(id@) && old(b)@[id@] is Starting && conversation
            is Ok,
        started is Ok ==> final(b)@.contains_key(id@) && final(b)@[id@]
            == ConversationState::Active(conversation->Ok_0),
        started is Err ==> final(b)@ == old(b)@,
        stopping is Ok <==> old(c)@.contains_key(id@) && old(c)@[id@] is Active,
        stopping is Ok ==> old(c)@[id@] == ConversationState::Active(stopping->Ok_0)
            && final(c)@.contains_key(id@) && final(c)@[id@] is Stopping,
        stopping is Err ==> final(c)@ == old(c)@,
        old(d)@.contains_key(id@) && old(d)@[id@] is Stopping ==> stopped == result
            && !final(d)@.contains_key(id@),
        !(old(d)@.contains_key(id@) && old(d)@[id@] is Stopping) ==> stopped is Err && final(d)@
            == old(d)@,
{
}

} // verus!

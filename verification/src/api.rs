//! A plain front for conversations, which starts one with whatever event comes first.

use vstd::prelude::*;

use crate::error::Error;
use crate::protocol::ClientEvent;
use crate::protocol::ConversationId;
use crate::protocol::ServerEvent;
use crate::registry::default_services;
use crate::registry::Registry;
use crate::registry::ServiceKind;
use crate::table::Table;

verus! {

/// The conversations that were started, and the services that they can be held with.
pub struct Api {
    pub registry: Registry<ServiceKind>,
    pub conversations: Table<ConversationId, ()>,
}

impl View for Api {
    type V = Set<Seq<char>>;

    closed spec fn view(&self) -> Set<Seq<char>> {
        self.conversations@.dom()
    }
}

/// What to do about an event from a client.
pub enum ApiAction {
    /// Start a conversation with it.
    Start { event: ClientEvent },
    /// Hand it to the conversation that it belongs to.
    Forward { event: ClientEvent },
}

impl Api {
    /// No conversations, and the default services.
    pub fn new() -> (r: Api)
        ensures
            r@ == Set::<Seq<char>>::empty(),
            r.registry@ == default_services(),
    {
        let r = Api { registry: Registry::default(), conversations: Table::new() };
        assert(r@ =~= Set::<Seq<char>>::empty());
        r
    }

    /// Processes an event from a client.
    pub fn process(&mut self, event: ClientEvent) -> (r: ApiAction)
        ensures
            r == if old(self)@.contains(event.id()@) {
                ApiAction::Forward { event }
            } else {
                ApiAction::Start { event }
            },
            final(self)@ == old(self)@.insert(event.id()@),
            final(self).registry == old(self).registry,
    {
        if self.conversations.contains(event.conversation_id()) {
            assert(self@ =~= old(self)@.insert(event.id()@));
            ApiAction::Forward { event }
        } else {
            let _ = self.conversations.insert(event.conversation_id().clone(), ());
            assert(self@ =~= old(self)@.insert(event.id()@));
            ApiAction::Start { event }
        }
    }

    /// The last event of a conversation: the one that it ended with, or the outermost message of
    /// the error.
    pub fn process_conversation(id: ConversationId, result: Result<ServerEvent, Error>) -> (r:
        ServerEvent)
        requires
            result matches Err(e) ==> e@.len() > 0,
        ensures
            result matches Ok(event) ==> r == event,
            result matches Err(error) ==> r is Error && r.id() == id && r->message@ == error@[0],
    {
        match result {
            Ok(event) => event,
            Err(error) => {
                assert(error@[0] == error.chain@[0]@);
                ServerEvent::Error { id, message: error.chain[0].clone() }
            },
        }
    }
}

/// The first event of a conversation starts it, and all others go to it.
pub proof fn law_processed_events(api: &mut Api, event: ClientEvent, r: ApiAction, other: Seq<char>)
    requires
        call_ensures(Api::process, (api, event), r),
    ensures
        old(api)@.contains(event.id()@) ==> r is Forward && r->Forward_event == event,
        !old(api)@.contains(event.id()@) ==> r is Start && r->Start_event == event,
        final(api)@.contains(other) <==> old(api)@.contains(other) || other == event.id()@,
{
}

/// A conversation ends with the event that it came to, or with the outermost message of the error.
pub proof fn law_last_events(
    id: ConversationId,
    result: Result<ServerEvent, Error>,
    r: ServerEvent,
)
    requires
        result matches Err(e) ==> e@.len() > 0,
        call_ensures(Api::process_conversation, (id, result), r),
    ensures
        result matches Ok(event) ==> r == event,
        result matches Err(error) ==> r is Error && r.id() == id && r->message@ == error@[0],
{
}

} // verus!

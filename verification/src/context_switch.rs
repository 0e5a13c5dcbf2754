//! The conversations that are going on.

use vstd::prelude::*;

use crate::audio::AudioFrame;
use crate::error::Error;
use crate::modality::InputModality;
use crate::protocol::ClientEvent;
use crate::protocol::ConversationId;
use crate::protocol::Samples;
use crate::table::Table;

verus! {

/// The length of a span of time in nanoseconds, as `Duration::as_nanos` counts them.
pub uninterp spec fn whole_nanos(span: std::time::Duration) -> nat;

/// `Duration::from_secs` of the standard library makes a span of that many whole seconds.
pub assume_specification[ std::time::Duration::from_secs ](secs: u64) -> (r: std::time::Duration)
    ensures
        whole_nanos(r) == secs * 1_000_000_000,
;

/// A conversation that is going on.
pub struct ActiveConversation {
    pub input_modality: InputModality,
}

impl View for ActiveConversation {
    type V = InputModality;

    open spec fn view(&self) -> InputModality {
        self.input_modality
    }
}

/// The conversations that are going on, by their ids.
pub struct ContextSwitch {
    conversations: Table<ConversationId, ActiveConversation>,
    shutdown_timeout: std::time::Duration,
}

/// What billing records of a conversation are collected under.
pub struct BillingContext {
    pub billing_id: String,
    pub service: String,
}

/// What to do about an event from a client.
pub enum ProcessAction {
    /// Start a conversation with it.
    Start { event: ClientEvent, billing: Option<BillingContext> },
    /// Leave the conversation, so that it shuts down.
    Leave { id: ConversationId },
    /// Hand it to the conversation that is going on.
    Forward { event: ClientEvent },
}

/// The view of a billing context that may be absent.
pub open spec fn billing_view(billing: Option<BillingContext>) -> Option<(Seq<char>, Seq<char>)> {
    match billing {
        Some(b) => Some((b.billing_id@, b.service@)),
        None => None,
    }
}

/// What the billing records of a new conversation are collected under: nothing, unless the client
/// asks for it.
pub open spec fn billing_of(event: ClientEvent) -> Option<(Seq<char>, Seq<char>)> {
    match event {
        ClientEvent::Start { billing_id: Some(billing_id), service, .. } => Some(
            (billing_id@, service@),
        ),
        _ => None,
    }
}

/// Whether an event for audio brings the samples of a frame to a conversation.
pub open spec fn brings(event: ClientEvent, id: Seq<char>, samples: Seq<i16>) -> bool {
    event matches ClientEvent::Audio { id: to, samples: s } && to@ == id && s@ == samples
}

impl View for ContextSwitch {
    type V = Map<Seq<char>, InputModality>;

    closed spec fn view(&self) -> Map<Seq<char>, InputModality> {
        self.conversations@
    }
}

impl ContextSwitch {
    /// How long a conversation may take to shut down.
    pub closed spec fn timeout(&self) -> std::time::Duration {
        self.shutdown_timeout
    }

    /// No conversations. Three seconds are enough to end connections all over the world.
    pub fn new() -> (r: ContextSwitch)
        ensures
            r@ == Map::<Seq<char>, InputModality>::empty(),
            whole_nanos(r.timeout()) == 3_000_000_000,
    {
        ContextSwitch { conversations: Table::new(), shutdown_timeout: std::time::Duration::from_secs(3) }
    }

    /// The same with another time for conversations to shut down.
    pub fn with_shutdown_timeout(self, timeout: std::time::Duration) -> (r: ContextSwitch)
        ensures
            r@ == self@,
            r.timeout() == timeout,
    {
        ContextSwitch { conversations: self.conversations, shutdown_timeout: timeout }
    }

    /// How long a conversation may take to shut down.
    pub fn shutdown_timeout(&self) -> (r: std::time::Duration)
        ensures
            r == self.timeout(),
    {
        self.shutdown_timeout
    }

    /// Processes an event from a client. The first event of a conversation starts it, and a stop
    /// event leaves it.
    pub fn process(&mut self, event: ClientEvent) -> (r: Result<ProcessAction, Error>)
        ensures
            ({
                let id = event.id()@;
                &&& r is Err <==> !old(self)@.contains_key(id) && !(event is Start)
                &&& r matches Err(e) ==> final(self)@ == old(self)@ && e@ == seq![
                    "Expected start event for a new conversation id"@,
                ]
                &&& r matches Ok(action) ==> if !old(self)@.contains_key(id) {
                    &&& action is Start
                    &&& action->Start_event == event
                    &&& billing_view(action->billing) == billing_of(event)
                    &&& final(self)@ == old(self)@.insert(id, event->input_modality)
                } else if event is Stop {
                    &&& action is Leave
                    &&& action->id@ == id
                    &&& final(self)@ == old(self)@.remove(id)
                } else {
                    &&& action == (ProcessAction::Forward { event })
                    &&& final(self)@ == old(self)@
                }
            }),
            final(self).timeout() == old(self).timeout(),
    {
        if !self.conversations.contains(event.conversation_id()) {
            match &event {
                ClientEvent::Start { id, service, input_modality, billing_id, .. } => {
                    let billing = match billing_id {
                        Some(billing_id) => Some(
                            BillingContext {
                                billing_id: billing_id.clone(),
                                service: service.clone(),
                            },
                        ),
                        None => None,
                    };
                    let _ = self.conversations.insert(
                        id.clone(),
                        ActiveConversation { input_modality: *input_modality },
                    );
                    Ok(ProcessAction::Start { event, billing })
                },
                _ => Err(Error::new("Expected start event for a new conversation id")),
            }
        } else {
            match event {
                ClientEvent::Stop { id } => {
                    let _ = self.conversations.remove(&id);
                    Ok(ProcessAction::Leave { id })
                },
                event => Ok(ProcessAction::Forward { event }),
            }
        }
    }

    /// The event that brings a frame of audio to a conversation. The conversation has to exist and
    /// to take audio in the format of the frame.
    pub fn post_audio_frame(&self, conversation_id: &ConversationId, frame: AudioFrame) -> (r:
        Result<ClientEvent, Error>)
        ensures
            r is Ok <==> self@.contains_key(conversation_id@) && self@[conversation_id@].takes(
                frame.format,
            ),
            r matches Ok(event) ==> brings(event, conversation_id@, frame@.samples),
            r matches Err(e) ==> e@ == if self@.contains_key(conversation_id@) {
                seq!["Conversation's input modality does not match format of the audio frame"@]
            } else {
                seq!["Conversation does not exist"@]
            },
    {
        match self.conversations.get(conversation_id) {
            Some(conversation) => {
                if conversation.input_modality.can_receive_audio(frame.format) {
                    Ok(
                        ClientEvent::Audio {
                            id: conversation_id.clone(),
                            samples: Samples(frame.samples),
                        },
                    )
                } else {
                    Err(
                        Error::new(
                            "Conversation's input modality does not match format of the audio frame",
                        ),
                    )
                }
            },
            None => Err(Error::new("Conversation does not exist")),
        }
    }

    /// The events that bring a frame of audio to all conversations that take audio in its format,
    /// one for each, in no particular order.
    pub fn broadcast_audio(&self, frame: &AudioFrame) -> (r: Vec<ClientEvent>)
        ensures
            forall|i: int|
                0 <= i < r@.len() ==> {
                    &&& (#[trigger] r@[i]) is Audio
                    &&& brings(r@[i], r@[i].id()@, frame@.samples)
                    &&& self@.contains_key(r@[i].id()@)
                    &&& self@[r@[i].id()@].takes(frame.format)
                },
            forall|i: int, j: int|
                0 <= i < j < r@.len() ==> (#[trigger] r@[i]).id()@ != (#[trigger] r@[j]).id()@,
            forall|id: Seq<char>| #[trigger]
                self@.contains_key(id) && self@[id].takes(frame.format) ==> exists|i: int|
                    0 <= i < r@.len() && (#[trigger] r@[i]).id()@ == id,
    {
        let mut r: Vec<ClientEvent> = Vec::new();
        let n: usize = self.conversations.len();
        let ghost entries = self.conversations.entry_seq();
        let mut i: usize = 0;
        while i < n
            invariant
                i <= n,
                n == entries.len(),
                entries == self.conversations.entry_seq(),
                forall|a: int, b: int|
                    0 <= a < b < n ==> (#[trigger] entries[a]).0@ != (#[trigger] entries[b]).0@,
                forall|a: int|
                    0 <= a < n ==> self@.contains_key((#[trigger] entries[a]).0@)
                        && self@[entries[a].0@] == entries[a].1@,
                forall|k: int|
                    0 <= k < r@.len() ==> {
                        &&& (#[trigger] r@[k]) is Audio
                        &&& brings(r@[k], r@[k].id()@, frame@.samples)
                        &&& self@.contains_key(r@[k].id()@)
                        &&& self@[r@[k].id()@].takes(frame.format)
                    },
                forall|k: int|
                    0 <= k < r@.len() ==> exists|a: int|
                        0 <= a < i && (#[trigger] entries[a]).0@ == (#[trigger] r@[k]).id()@,
                forall|k: int, l: int|
                    0 <= k < l < r@.len() ==> (#[trigger] r@[k]).id()@ != (#[trigger] r@[l]).id()@,
                forall|a: int|
                    0 <= a < i && self@[(#[trigger] entries[a]).0@].takes(frame.format)
                        ==> exists|k: int|
                        0 <= k < r@.len() && (#[trigger] r@[k]).id()@ == entries[a].0@,
            decreases n - i,
        {
            let (id, conversation) = self.conversations.entry(i);
            let ghost before = r@;
            if conversation.input_modality.can_receive_audio(frame.format) {
                let mut samples: Vec<i16> = Vec::new();
                samples.extend_from_slice(frame.samples.as_slice());
                assert(samples@ =~= frame@.samples);
                r.push(ClientEvent::Audio { id: id.clone(), samples: Samples(samples) });
                proof {
                    let new = r@[before.len() as int];
                    assert(new.id()@ == entries[i as int].0@);
                    assert forall|k: int| 0 <= k < before.len() implies (#[trigger] r@[k]).id()@
                        != new.id()@ by {
                        let a = choose|a: int|
                            0 <= a < i && (#[trigger] entries[a]).0@ == before[k].id()@;
                        assert(entries[a].0@ != entries[i as int].0@);
                    }
                    assert forall|k: int| 0 <= k < r@.len() implies exists|a: int|
                        0 <= a < i + 1 && (#[trigger] entries[a]).0@ == (#[trigger] r@[k]).id()@ by {
                        if k < before.len() {
                            let a = choose|a: int|
                                0 <= a < i && (#[trigger] entries[a]).0@ == before[k].id()@;
                            assert(entries[a].0@ == r@[k].id()@);
                        } else {
                            assert(entries[i as int].0@ == r@[k].id()@);
                        }
                    }
                    assert forall|a: int|
                        0 <= a < i + 1 && self@[(#[trigger] entries[a]).0@].takes(
                            frame.format,
                        ) implies exists|k: int|
                        0 <= k < r@.len() && (#[trigger] r@[k]).id()@ == entries[a].0@ by {
                        if a < i {
                            let k = choose|k: int|
                                0 <= k < before.len() && (#[trigger] before[k]).id()@
                                    == entries[a].0@;
                            assert(r@[k].id()@ == entries[a].0@);
                        } else {
                            assert(r@[before.len() as int].id()@ == entries[a].0@);
                        }
                    }
                }
            }
            i += 1;
        }
        proof {
            assert forall|id: Seq<char>| #[trigger]
                self@.contains_key(id) && self@[id].takes(frame.format) implies exists|k: int|
                0 <= k < r@.len() && (#[trigger] r@[k]).id()@ == id by {
                let a = choose|a: int| 0 <= a < n && (#[trigger] entries[a]).0@ == id;
                assert(self@[entries[a].0@].takes(frame.format));
            }
        }
        r
    }
}

/// A conversation that is started and left is forgotten, and its id can be used for another one.
pub proof fn law_left_conversations_are_forgotten(
    conversations: Map<Seq<char>, InputModality>,
    id: Seq<char>,
    modality: InputModality,
)
    requires
        !conversations.contains_key(id),
    ensures
        conversations.insert(id, modality).remove(id) == conversations,
{
    assert(conversations.insert(id, modality).remove(id) =~= conversations);
}

/// Billing records are collected for a new conversation only if the client asks for it, under the id
/// that it gives and the name of the service.
pub proof fn law_billing_is_asked_for(
    id: ConversationId,
    service: String,
    params: serde_json::Value,
    input_modality: InputModality,
    output_modalities: Vec<crate::modality::OutputModality>,
    billing_id: Option<String>,
    context: BillingContext,
)
    ensures
        ({
            let b = billing_of(
                ClientEvent::Start {
                    id,
                    service,
                    params,
                    input_modality,
                    output_modalities,
                    billing_id,
                },
            );
            match billing_id {
                Some(billing_id) => b == Some((billing_id@, service@)),
                None => b is None,
            }
        }),
        billing_view(None) is None,
        billing_view(Some(context)) == Some((context.billing_id@, context.service@)),
{
}

/// An event brings samples to a conversation if it is one for audio that holds them and the id.
pub proof fn law_brought_audio(event: ClientEvent, id: Seq<char>, samples: Seq<i16>)
    ensures
        brings(event, id, samples) <==> match event {
            ClientEvent::Audio { id: to, samples: brought } => to@ == id && brought.0@ == samples,
            _ => false,
        },
{
}

/// The first event of a conversation has to start it. A stop leaves it, and everything else goes to
/// it. No other conversation is touched.
pub proof fn law_processed_events(
    switch: &mut ContextSwitch,
    event: ClientEvent,
    other: Seq<char>,
    r: Result<ProcessAction, Error>,
)
    requires
        call_ensures(ContextSwitch::process, (switch, event), r),
    ensures
        ({
            let known = old(switch)@.contains_key(event.id()@);
            &&& other != event.id()@ ==> (final(switch)@.contains_key(other)
                <==> old(switch)@.contains_key(other))
            &&& other != event.id()@ && old(switch)@.contains_key(other) ==> final(switch)@[other]
                == old(switch)@[other]
            &&& final(switch).timeout() == old(switch).timeout()
            &&& !known && !(event is Start) ==> r is Err && r->Err_0@ == seq![
                "Expected start event for a new conversation id"@,
            ] && !final(switch)@.contains_key(event.id()@)
            &&& !known ==> (event matches ClientEvent::Start { input_modality, .. } ==> {
                &&& r is Ok && r->Ok_0 is Start
                &&& r->Ok_0->Start_event == event
                &&& final(switch)@.contains_key(event.id()@)
                &&& final(switch)@[event.id()@] == input_modality
                &&& billing_view(r->Ok_0->billing) == billing_of(event)
            })
            &&& known && event is Stop ==> r is Ok && r->Ok_0 is Leave && r->Ok_0->id@
                == event.id()@ && !final(switch)@.contains_key(event.id()@)
            &&& known && !(event is Stop) ==> r is Ok && r->Ok_0 is Forward
                && r->Ok_0->Forward_event == event && final(switch)@ == old(switch)@
        }),
{
}

/// Audio is brought to a conversation that takes its format, as it is.
pub proof fn law_posted_audio(
    switch: ContextSwitch,
    id: ConversationId,
    frame: AudioFrame,
    r: Result<ClientEvent, Error>,
)
    requires
        call_ensures(ContextSwitch::post_audio_frame, (&switch, &id, frame), r),
    ensures
        !switch@.contains_key(id@) ==> r is Err && r->Err_0@ == seq!["Conversation does not exist"@],
        switch@.contains_key(id@) ==> {
            let takes = switch@[id@] == (InputModality::Audio { format: frame.format });
            &&& r is Ok <==> takes
            &&& r matches Ok(event) ==> event is Audio && event.id()@ == id@
                && event->Audio_samples.0@ == frame.samples@
            &&& r is Err ==> r->Err_0@ == seq![
                "Conversation's input modality does not match format of the audio frame"@,
            ]
        },
{
    assert(frame@.samples == frame.samples@);
}

/// Audio is brought to all conversations that take its format, to each once, and to no other.
pub proof fn law_broadcast_audio(
    switch: ContextSwitch,
    frame: AudioFrame,
    r: Vec<ClientEvent>,
    id: Seq<char>,
)
    requires
        call_ensures(ContextSwitch::broadcast_audio, (&switch, &frame), r),
    ensures
        (switch@.contains_key(id) && switch@[id] == (InputModality::Audio { format: frame.format }))
            <==> exists|i: int| 0 <= i < r@.len() && (#[trigger] r@[i]).id()@ == id,
        forall|i: int|
            0 <= i < r@.len() ==> (#[trigger] r@[i]) is Audio && r@[i]->Audio_samples.0@
                == frame.samples@,
        forall|i: int, j: int|
            0 <= i < j < r@.len() ==> (#[trigger] r@[i]).id()@ != (#[trigger] r@[j]).id()@,
{
    assert(frame@.samples == frame.samples@);
    if switch@.contains_key(id) && switch@[id] == (InputModality::Audio { format: frame.format }) {
        let arguments = (&switch, &frame);
        assert(arguments.0@.contains_key(id) && arguments.0@[id].takes(frame.format));
    }
    if exists|i: int| 0 <= i < r@.len() && (#[trigger] r@[i]).id()@ == id {
        let i = choose|i: int| 0 <= i < r@.len() && (#[trigger] r@[i]).id()@ == id;
        assert(r@[i] is Audio);
        assert(switch@.contains_key(id) && switch@[id].takes(frame.format));
    }
}

/// Conversations have three seconds to shut down unless another time is set.
pub proof fn law_times_to_shut_down(
    new: ContextSwitch,
    switch: ContextSwitch,
    timeout: std::time::Duration,
    set: ContextSwitch,
    told: std::time::Duration,
)
    requires
        call_ensures(ContextSwitch::new, (), new),
        call_ensures(ContextSwitch::with_shutdown_timeout, (switch, timeout), set),
        call_ensures(ContextSwitch::shutdown_timeout, (&set,), told),
    ensures
        whole_nanos(new.timeout()) == 3 * 1_000_000_000,
        forall|id: Seq<char>| !(#[trigger] new@.contains_key(id)),
        told == timeout,
        set@ == switch@,
{
}

} // verus!

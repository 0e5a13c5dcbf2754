//! The course of one conversation between a client and a service.

use vstd::prelude::*;

use serde_json::Value;

use crate::audio::AudioFrame;
use crate::error::Error;
use crate::input::Input;
use crate::modality::InputModality;
use crate::modality::OutputModality;
use crate::output::BillingRecord;
use crate::output::OutputPath;
use crate::protocol::ClientEvent;
use crate::protocol::ConversationId;
use crate::protocol::Samples;
use crate::protocol::ServerEvent;
use crate::registry::unregistered;
use crate::registry::Registry;
use crate::text::concat3;
use crate::text::joined;
use crate::text::law_joining;

verus! {

/// What a service hands to its client.
#[derive(Debug)]
pub enum Output {
    ServiceStarted { modalities: Vec<OutputModality> },
    Audio { frame: AudioFrame },
    Text { is_final: bool, text: String },
    RequestCompleted { request_id: Option<String> },
    ClearAudio,
    ServiceEvent { path: OutputPath, value: Value },
    BillingRecords {
        request_id: Option<String>,
        service: String,
        scope: Option<String>,
        records: Vec<BillingRecord>,
    },
}

/// The event that an output is sent to the client as.
pub open spec fn server_event(id: ConversationId, output: Output) -> ServerEvent {
    match output {
        Output::ServiceStarted { modalities } => ServerEvent::Started { id, modalities },
        Output::Audio { frame } => ServerEvent::Audio { id, samples: Samples(frame.samples) },
        Output::Text { is_final, text } => ServerEvent::Text { id, is_final, content: text },
        Output::RequestCompleted { request_id } => ServerEvent::RequestCompleted {
            id,
            request_id,
        },
        Output::ClearAudio => ServerEvent::ClearAudio { id },
        Output::ServiceEvent { path, value } => ServerEvent::Service { id, path, value },
        Output::BillingRecords { request_id, service, scope, records } =>
            ServerEvent::BillingRecords { id, request_id, service, scope, records },
    }
}

/// Makes an event for the client of an output of the service.
pub fn output_to_server_event(id: &ConversationId, output: Output) -> (r: ServerEvent)
    ensures
        r == server_event(*id, output),
{
    let id = id.clone();
    match output {
        Output::ServiceStarted { modalities } => ServerEvent::Started { id, modalities },
        Output::Audio { frame } => ServerEvent::Audio { id, samples: Samples(frame.samples) },
        Output::Text { is_final, text } => ServerEvent::Text { id, is_final, content: text },
        Output::RequestCompleted { request_id } => ServerEvent::RequestCompleted {
            id,
            request_id,
        },
        Output::ClearAudio => ServerEvent::ClearAudio { id },
        Output::ServiceEvent { path, value } => ServerEvent::Service { id, path, value },
        Output::BillingRecords { request_id, service, scope, records } =>
            ServerEvent::BillingRecords { id, request_id, service, scope, records },
    }
}

/// How far a conversation has come.
#[derive(Debug, Clone, Copy, PartialEq, Eq, Structural)]
pub enum Phase {
    /// The client and the service exchange events.
    Running,
    /// The client has left, and the service gets some time to come to its end.
    ShuttingDown,
    /// The conversation is over.
    Ended,
}

/// Drives a conversation.
pub struct ConversationDriver {
    pub id: ConversationId,
    pub input_modality: InputModality,
    pub phase: Phase,
}

/// Something that happens in the course of a conversation.
pub enum DriverEvent {
    /// The service came to its end.
    ServiceEnded(Result<(), Error>),
    /// An event from the client; `None` when the client has left.
    Input(Option<ClientEvent>),
    /// An output of the service; `None` when it can hand out nothing any more.
    Output(Option<Output>),
    /// The time to come to an end has passed.
    ShutdownTimeout,
}

/// What to do about it.
pub enum DriverAction {
    /// Hand an input to the service.
    Post(Input<Value>),
    /// Send an event to the client.
    Emit(ServerEvent),
    /// Tell the service that no more input comes.
    CloseInput,
    /// End the conversation with a last event.
    End(ServerEvent),
}

/// Whether something can happen in a phase. While shutting down, neither the client nor the outputs
/// of the service are listened to.
pub open spec fn can_happen(phase: Phase, event: DriverEvent) -> bool {
    match phase {
        Phase::Running => !(event is ShutdownTimeout),
        Phase::ShuttingDown => event is ServiceEnded || event is ShutdownTimeout,
        Phase::Ended => false,
    }
}

/// What comes of something that happens.
pub struct Step {
    pub phase: Phase,
    pub result: Result<DriverAction, Seq<Seq<char>>>,
}

/// The conversation ends with an error.
pub open spec fn failed(chain: Seq<Seq<char>>) -> Step {
    Step { phase: Phase::Ended, result: Err(chain) }
}

/// The conversation goes on.
pub open spec fn acts(action: DriverAction) -> Step {
    Step { phase: Phase::Running, result: Ok(action) }
}

/// What comes of an event from the client while the conversation runs.
pub open spec fn client_step(modality: InputModality, event: ClientEvent) -> Step {
    match event {
        ClientEvent::Start { .. } => failed(seq!["Received unexpected Start event"@]),
        ClientEvent::Stop { .. } => failed(seq!["Received unexpected Stop event"@]),
        ClientEvent::Audio { id: _, samples } => match modality {
            InputModality::Audio { format } => acts(
                DriverAction::Post(
                    Input::Audio { frame: AudioFrame { format, samples: samples.0 } },
                ),
            ),
            InputModality::Text => failed(seq!["Received unexpected Audio"@]),
        },
        ClientEvent::Text { id: _, content, content_type, billing_scope: _ } => match modality {
            InputModality::Text => acts(
                DriverAction::Post(
                    Input::Text {
                        request_id: None,
                        text: content,
                        text_type: content_type,
                        is_final: true,
                    },
                ),
            ),
            InputModality::Audio { .. } => failed(seq!["Received unexpected Text"@]),
        },
        ClientEvent::Service { id: _, value } => acts(
            DriverAction::Post(Input::ServiceEvent { value }),
        ),
    }
}

/// What comes of something that happens. A service that ends before its client has left has failed.
pub open spec fn stepped(
    phase: Phase,
    id: ConversationId,
    modality: InputModality,
    event: DriverEvent,
) -> Step {
    match event {
        DriverEvent::ServiceEnded(Err(error)) => failed(error@),
        DriverEvent::ServiceEnded(Ok(())) => if phase is Running {
            failed(seq!["Conversation ended prematurely"@])
        } else {
            Step {
                phase: Phase::Ended,
                result: Ok(DriverAction::End(ServerEvent::Stopped { id })),
            }
        },
        DriverEvent::Input(None) => Step {
            phase: Phase::ShuttingDown,
            result: Ok(DriverAction::CloseInput),
        },
        DriverEvent::Input(Some(event)) => client_step(modality, event),
        DriverEvent::Output(Some(output)) => acts(DriverAction::Emit(server_event(id, output))),
        DriverEvent::Output(None) => failed(seq!["Service output channel closed."@]),
        DriverEvent::ShutdownTimeout => Step {
            phase: Phase::Ended,
            result: Ok(DriverAction::End(ServerEvent::Stopped { id })),
        },
    }
}

/// What a conversation starts with.
pub struct ConversationStart<'a, S> {
    pub driver: ConversationDriver,
    pub service: &'a S,
    pub service_name: String,
    pub params: Value,
    pub output_modalities: Vec<OutputModality>,
}

impl ConversationDriver {
    /// Starts a conversation with the first event from its client, which says which service it is
    /// held with. That the service does not exist is an error for the client to see.
    pub fn start<'a, S: View>(registry: &'a Registry<S>, initial_event: ClientEvent) -> (r: Result<
        ConversationStart<'a, S>,
        Error,
    >)
        ensures
            match initial_event {
                ClientEvent::Start {
                    id,
                    service,
                    params,
                    input_modality,
                    output_modalities,
                    billing_id: _,
                } => {
                    &&& r is Ok <==> registry@.contains_key(service@)
                    &&& r matches Ok(start) ==> {
                        &&& start.driver == (ConversationDriver {
                            id,
                            input_modality,
                            phase: Phase::Running,
                        })
                        &&& start.service@ == registry@[service@]
                        &&& start.service_name == service
                        &&& start.params == params
                        &&& start.output_modalities == output_modalities
                    }
                    &&& r matches Err(e) ==> e@ == seq![unregistered(service@)]
                },
                _ => r is Err && r->Err_0@ == seq!["Initial client event must be a Start event"@],
            },
    {
        match initial_event {
            ClientEvent::Start {
                id,
                service,
                params,
                input_modality,
                output_modalities,
                billing_id: _,
            } => match registry.service(service.as_str()) {
                Ok(found) => Ok(
                    ConversationStart {
                        driver: ConversationDriver { id, input_modality, phase: Phase::Running },
                        service: found,
                        service_name: service,
                        params,
                        output_modalities,
                    },
                ),
                Err(error) => Err(error),
            },
            _ => Err(Error::new("Initial client event must be a Start event")),
        }
    }

    fn process_client_event(&self, event: ClientEvent) -> (r: Result<DriverAction, Error>)
        ensures
            ({
                let s = client_step(self.input_modality, event);
                &&& r is Ok <==> s.result is Ok
                &&& r is Ok <==> s.phase == Phase::Running
                &&& r is Err <==> s.phase == Phase::Ended
                &&& r matches Ok(action) ==> s.result->Ok_0 == action
                &&& r matches Err(e) ==> s.result->Err_0 == e@
            }),
    {
        match event {
            ClientEvent::Start { .. } => Err(Error::new("Received unexpected Start event")),
            ClientEvent::Stop { .. } => Err(Error::new("Received unexpected Stop event")),
            ClientEvent::Audio { id: _, samples } => match self.input_modality {
                InputModality::Audio { format } => Ok(
                    DriverAction::Post(
                        Input::Audio { frame: AudioFrame { format, samples: samples.0 } },
                    ),
                ),
                InputModality::Text => Err(Error::new("Received unexpected Audio")),
            },
            ClientEvent::Text { id: _, content, content_type, billing_scope: _ } => match
            self.input_modality {
                InputModality::Text => Ok(
                    DriverAction::Post(
                        Input::Text {
                            request_id: None,
                            text: content,
                            text_type: content_type,
                            is_final: true,
                        },
                    ),
                ),
                InputModality::Audio { .. } => Err(Error::new("Received unexpected Text")),
            },
            ClientEvent::Service { id: _, value } => Ok(
                DriverAction::Post(Input::ServiceEvent { value }),
            ),
        }
    }

    /// One round of a conversation: something happened, and this says what to do about it.
    pub fn process_conversation_protected(&mut self, event: DriverEvent) -> (r: Result<
        DriverAction,
        Error,
    >)
        requires
            can_happen(old(self).phase, event),
        ensures
            ({
                let s = stepped(old(self).phase, old(self).id, old(self).input_modality, event);
                &&& final(self).phase == s.phase
                &&& r is Ok <==> s.result is Ok
                &&& r matches Ok(action) ==> s.result->Ok_0 == action
                &&& r matches Err(e) ==> s.result->Err_0 == e@
            }),
            final(self).id == old(self).id,
            final(self).input_modality == old(self).input_modality,
    {
        match event {
            DriverEvent::ServiceEnded(Err(error)) => {
                self.phase = Phase::Ended;
                Err(error)
            },
            DriverEvent::ServiceEnded(Ok(())) => {
                let running = self.phase == Phase::Running;
                self.phase = Phase::Ended;
                if running {
                    Err(Error::new("Conversation ended prematurely"))
                } else {
                    Ok(DriverAction::End(ServerEvent::Stopped { id: self.id.clone() }))
                }
            },
            DriverEvent::Input(None) => {
                self.phase = Phase::ShuttingDown;
                Ok(DriverAction::CloseInput)
            },
            DriverEvent::Input(Some(event)) => {
                let r = self.process_client_event(event);
                if r.is_err() {
                    self.phase = Phase::Ended;
                }
                r
            },
            DriverEvent::Output(Some(output)) => Ok(
                DriverAction::Emit(output_to_server_event(&self.id, output)),
            ),
            DriverEvent::Output(None) => {
                self.phase = Phase::Ended;
                Err(Error::new("Service output channel closed."))
            },
            DriverEvent::ShutdownTimeout => {
                self.phase = Phase::Ended;
                Ok(DriverAction::End(ServerEvent::Stopped { id: self.id.clone() }))
            },
        }
    }
}

/// What is reported if an input cannot be handed to the service.
pub fn post_failure_context(input: &Input<Value>) -> (r: &'static str)
    ensures
        r@ == match *input {
            Input::Audio { .. } => "Sending input audio frame to conversation"@,
            Input::Text { .. } => "Sending input text to conversation"@,
            Input::ServiceEvent { .. } => "Sending service event"@,
        },
{
    match input {
        Input::Audio { .. } => "Sending input audio frame to conversation",
        Input::Text { .. } => "Sending input text to conversation",
        Input::ServiceEvent { .. } => "Sending service event",
    }
}

/// The message that an error ends a conversation with.
pub open spec fn final_message(id: Seq<char>, chain: Seq<Seq<char>>) -> Seq<char> {
    joined(seq!["Conversation: `"@ + id + "`"@] + chain, ": "@)
}

/// The last event of a conversation: the one that it ended with, or the error.
pub fn process_conversation(id: &ConversationId, result: Result<ServerEvent, Error>) -> (r:
    ServerEvent)
    ensures
        result matches Ok(event) ==> r == event,
        result matches Err(error) ==> r is Error && r.id() == *id && r->message@ == final_message(
            id@,
            error@,
        ),
{
    match result {
        Ok(event) => event,
        Err(error) => {
            let context = concat3("Conversation: `", id.as_str(), "`");
            let message = error.context(context.as_str()).message();
            ServerEvent::Error { id: id.clone(), message }
        },
    }
}

/// How a conversation ended.
pub enum End {
    NotYet,
    /// With a last event that says so.
    Stopped,
    /// With an error.
    Failed(Seq<Seq<char>>),
}

/// What comes of all that happens in a conversation.
pub struct Run {
    pub phase: Phase,
    /// The events for the client but for the last one.
    pub emitted: Seq<ServerEvent>,
    pub end: End,
}

/// What comes of all that happens in a conversation.
pub open spec fn run(
    id: ConversationId,
    modality: InputModality,
    events: Seq<DriverEvent>,
) -> Run
    decreases events.len(),
{
    if events.len() == 0 {
        Run { phase: Phase::Running, emitted: Seq::empty(), end: End::NotYet }
    } else {
        let before = run(id, modality, events.drop_last());
        let s = stepped(before.phase, id, modality, events.last());
        Run {
            phase: s.phase,
            emitted: match s.result {
                Ok(DriverAction::Emit(event)) => before.emitted.push(event),
                _ => before.emitted,
            },
            end: match s.result {
                Ok(DriverAction::End(_)) => End::Stopped,
                Ok(_) => End::NotYet,
                Err(chain) => End::Failed(chain),
            },
        }
    }
}

/// Whether each thing that happens can happen when it does.
pub open spec fn possible(
    id: ConversationId,
    modality: InputModality,
    events: Seq<DriverEvent>,
) -> bool
    decreases events.len(),
{
    events.len() > 0 ==> possible(id, modality, events.drop_last()) && can_happen(
        run(id, modality, events.drop_last()).phase,
        events.last(),
    )
}

/// Whether the client has left at some point.
pub open spec fn client_left(events: Seq<DriverEvent>) -> bool {
    exists|i: int| 0 <= i < events.len() && #[trigger] events[i] == DriverEvent::Input(None)
}

/// Every conversation that is over has one last event, and none that is not over has any. Every
/// event belongs to the conversation. It stops without an error only if its client has left.
pub proof fn law_one_last_event(
    id: ConversationId,
    modality: InputModality,
    events: Seq<DriverEvent>,
)
    requires
        possible(id, modality, events),
    ensures
        ({
            let r = run(id, modality, events);
            &&& r.end is NotYet <==> r.phase != Phase::Ended
            &&& forall|i: int|
                0 <= i < r.emitted.len() ==> (#[trigger] r.emitted[i]).id() == id && !(
                r.emitted[i] is Stopped) && !(r.emitted[i] is Error)
            &&& r.phase == Phase::ShuttingDown ==> client_left(events)
            &&& r.end is Stopped ==> client_left(events)
        }),
    decreases events.len(),
{
    if events.len() > 0 {
        let before = events.drop_last();
        law_one_last_event(id, modality, before);
        assert forall|i: int| 0 <= i < before.len() && #[trigger] before[i] == DriverEvent::Input(
            None,
        ) implies client_left(events) by {
            assert(events[i] == DriverEvent::Input(None));
        }
        if events.last() == DriverEvent::Input(None) {
            assert(events[events.len() - 1] == DriverEvent::Input(None));
        }
    }
}

/// Once its client has left, a conversation hands out nothing but its last event.
pub proof fn law_no_output_after_the_client_left(
    id: ConversationId,
    modality: InputModality,
    events: Seq<DriverEvent>,
    event: DriverEvent,
)
    requires
        possible(id, modality, events.push(event)),
        run(id, modality, events).phase == Phase::ShuttingDown,
    ensures
        run(id, modality, events.push(event)).emitted == run(id, modality, events).emitted,
        run(id, modality, events.push(event)).phase == Phase::Ended,
{
    assert(events.push(event).drop_last() =~= events);
}

/// A conversation that is over stays over: nothing can happen in it any more.
pub proof fn law_nothing_after_the_end(
    id: ConversationId,
    modality: InputModality,
    events: Seq<DriverEvent>,
    event: DriverEvent,
)
    requires
        run(id, modality, events).phase == Phase::Ended,
    ensures
        !possible(id, modality, events.push(event)),
{
    assert(events.push(event).drop_last() =~= events);
    assert(events.push(event).last() == event);
}

/// What a client sends as text arrives at the service unchanged, as one whole text, if the
/// conversation takes text. If it takes audio, the text ends it.
pub proof fn law_texts_arrive(
    id: ConversationId,
    modality: InputModality,
    to: ConversationId,
    content: String,
    content_type: Option<String>,
    billing_scope: Option<String>,
)
    ensures
        ({
            let event = ClientEvent::Text { id: to, content, content_type, billing_scope };
            let s = stepped(Phase::Running, id, modality, DriverEvent::Input(Some(event)));
            if modality is Text {
                &&& s.phase is Running
                &&& s.result is Ok
                &&& s.result->Ok_0 is Post
                &&& s.result->Ok_0->Post_0 is Text
                &&& s.result->Ok_0->Post_0->text == content
                &&& s.result->Ok_0->Post_0->text_type == content_type
                &&& s.result->Ok_0->Post_0->request_id is None
                &&& s.result->Ok_0->Post_0->is_final
            } else {
                s.phase is Ended && s.result == Err::<DriverAction, Seq<Seq<char>>>(
                    seq!["Received unexpected Text"@],
                )
            }
        }),
{
}

/// The samples that a client sends arrive at the service unchanged, in the format of the
/// conversation, if it takes audio. If it takes text, the audio ends it.
pub proof fn law_audio_arrives(
    id: ConversationId,
    modality: InputModality,
    to: ConversationId,
    samples: Samples,
)
    ensures
        ({
            let event = ClientEvent::Audio { id: to, samples };
            let s = stepped(Phase::Running, id, modality, DriverEvent::Input(Some(event)));
            match modality {
                InputModality::Audio { format } => {
                    &&& s.phase is Running
                    &&& s.result is Ok
                    &&& s.result->Ok_0 is Post
                    &&& s.result->Ok_0->Post_0 is Audio
                    &&& s.result->Ok_0->Post_0->frame.samples@ == samples.0@
                    &&& s.result->Ok_0->Post_0->frame.format == format
                },
                InputModality::Text => s.phase is Ended && s.result == Err::<
                    DriverAction,
                    Seq<Seq<char>>,
                >(seq!["Received unexpected Audio"@]),
            }
        }),
{
}

/// The service's own events arrive at it unchanged. Another start or a stop does not arrive: it ends
/// the conversation.
pub proof fn law_service_events_arrive(
    id: ConversationId,
    modality: InputModality,
    event: ClientEvent,
)
    ensures
        ({
            let s = stepped(Phase::Running, id, modality, DriverEvent::Input(Some(event)));
            match event {
                ClientEvent::Service { value, .. } => {
                    &&& s.phase is Running
                    &&& s.result is Ok
                    &&& s.result->Ok_0 is Post
                    &&& s.result->Ok_0->Post_0 is ServiceEvent
                    &&& s.result->Ok_0->Post_0->value == value
                },
                ClientEvent::Start { .. } => s.phase is Ended && s.result == Err::<
                    DriverAction,
                    Seq<Seq<char>>,
                >(seq!["Received unexpected Start event"@]),
                ClientEvent::Stop { .. } => s.phase is Ended && s.result == Err::<
                    DriverAction,
                    Seq<Seq<char>>,
                >(seq!["Received unexpected Stop event"@]),
                _ => true,
            }
        }),
{
}

/// What a service puts out reaches the client unchanged, under the id of the conversation.
pub proof fn law_outputs_reach_the_client(
    id: ConversationId,
    modality: InputModality,
    output: Output,
)
    ensures
        ({
            let s = stepped(Phase::Running, id, modality, DriverEvent::Output(Some(output)));
            &&& s.phase is Running
            &&& s.result is Ok
            &&& s.result->Ok_0 is Emit
            &&& match s.result->Ok_0->Emit_0 {
                ServerEvent::Started { id: to, modalities } => to == id && output
                    == (Output::ServiceStarted { modalities }),
                ServerEvent::Audio { id: to, samples } => to == id && output is Audio
                    && output->frame.samples@ == samples.0@,
                ServerEvent::Text { id: to, is_final, content } => to == id && output
                    == (Output::Text { is_final, text: content }),
                ServerEvent::RequestCompleted { id: to, request_id } => to == id && output
                    == (Output::RequestCompleted { request_id }),
                ServerEvent::ClearAudio { id: to } => to == id && output is ClearAudio,
                ServerEvent::Service { id: to, path, value } => to == id && output
                    == (Output::ServiceEvent { path, value }),
                ServerEvent::BillingRecords { id: to, request_id, service, scope, records } => to
                    == id && output == (Output::BillingRecords {
                    request_id,
                    service,
                    scope,
                    records,
                }),
                ServerEvent::Stopped { .. } => false,
                ServerEvent::Error { .. } => false,
            }
        }),
{
}

/// A conversation goes on until the client leaves, and is then shut down: it ends when the service
/// ends or the time is over, and the client learns that it stopped. Before that, the end of the
/// service or of its output is a failure, and an error of the service always is.
pub proof fn law_how_conversations_end(
    id: ConversationId,
    modality: InputModality,
    phase: Phase,
    error: Error,
)
    ensures
        stepped(phase, id, modality, DriverEvent::Input(None)).phase is ShuttingDown,
        stepped(phase, id, modality, DriverEvent::Input(None)).result == Ok::<
            DriverAction,
            Seq<Seq<char>>,
        >(DriverAction::CloseInput),
        stepped(phase, id, modality, DriverEvent::ServiceEnded(Err(error))) == (Step {
            phase: Phase::Ended,
            result: Err(error@),
        }),
        stepped(Phase::Running, id, modality, DriverEvent::ServiceEnded(Ok(()))) == (Step {
            phase: Phase::Ended,
            result: Err(seq!["Conversation ended prematurely"@]),
        }),
        stepped(phase, id, modality, DriverEvent::Output(None)) == (Step {
            phase: Phase::Ended,
            result: Err(seq!["Service output channel closed."@]),
        }),
        stepped(Phase::ShuttingDown, id, modality, DriverEvent::ServiceEnded(Ok(()))) == (Step {
            phase: Phase::Ended,
            result: Ok(DriverAction::End(ServerEvent::Stopped { id })),
        }),
        stepped(Phase::ShuttingDown, id, modality, DriverEvent::ShutdownTimeout) == (Step {
            phase: Phase::Ended,
            result: Ok(DriverAction::End(ServerEvent::Stopped { id })),
        }),
{
}

/// While a conversation is running, the service may end, and input and output may come. While it is
/// shut down, only the service may end or the time be over. After that nothing happens.
pub proof fn law_what_can_happen(event: DriverEvent)
    ensures
        can_happen(Phase::Running, event) <==> (event is ServiceEnded || event is Input
            || event is Output),
        can_happen(Phase::ShuttingDown, event) <==> (event is ServiceEnded
            || event is ShutdownTimeout),
        !can_happen(Phase::Ended, event),
{
}

/// The last message of a conversation that failed names the conversation, and then the messages of
/// the error, the outermost first, each after a colon.
pub proof fn law_final_messages(id: Seq<char>, chain: Seq<Seq<char>>, cause: Seq<char>)
    ensures
        final_message(id, Seq::empty()) == "Conversation: `"@ + id + "`"@,
        final_message(id, chain.push(cause)) == final_message(id, chain) + ": "@ + cause,
{
    let head = "Conversation: `"@ + id + "`"@;
    assert(seq![head] + Seq::<Seq<char>>::empty() =~= seq![head]);
    assert(seq![head] + chain.push(cause) =~= (seq![head] + chain).push(cause));
    law_joining(seq![head] + chain, cause, ": "@);
}

/// A round of a conversation: what the client sends arrives at the service as it is, what the service
/// puts out reaches the client as it is, and the conversation stays with its id and its modality.
pub proof fn law_rounds_of_a_conversation(
    driver: &mut ConversationDriver,
    event: DriverEvent,
    r: Result<DriverAction, Error>,
)
    requires
        can_happen(old(driver).phase, event),
        call_ensures(ConversationDriver::process_conversation_protected, (driver, event), r),
    ensures
        final(driver).id == old(driver).id,
        final(driver).input_modality == old(driver).input_modality,
        event matches DriverEvent::Input(
            Some(ClientEvent::Text { content, content_type, .. }),
        ) ==> (old(driver).input_modality is Text ==> {
            &&& r is Ok && r->Ok_0 is Post && r->Ok_0->Post_0 is Text
            &&& r->Ok_0->Post_0->text == content
            &&& r->Ok_0->Post_0->text_type == content_type
            &&& r->Ok_0->Post_0->request_id is None
            &&& r->Ok_0->Post_0->is_final
            &&& final(driver).phase is Running
        }),
        event matches DriverEvent::Input(Some(ClientEvent::Audio { samples, .. })) ==> (
        old(driver).input_modality matches InputModality::Audio { format } ==> {
            &&& r is Ok && r->Ok_0 is Post && r->Ok_0->Post_0 is Audio
            &&& r->Ok_0->Post_0->frame.samples@ == samples.0@
            &&& r->Ok_0->Post_0->frame.format == format
            &&& final(driver).phase is Running
        }),
        event matches DriverEvent::Input(Some(ClientEvent::Service { value, .. })) ==> r is Ok
            && r->Ok_0 is Post && r->Ok_0->Post_0 is ServiceEvent && r->Ok_0->Post_0->value == value,
        event matches DriverEvent::Output(Some(Output::Text { is_final, text })) ==> r is Ok
            && r->Ok_0 is Emit && r->Ok_0->Emit_0 == (ServerEvent::Text {
            id: old(driver).id,
            is_final,
            content: text,
        }),
        event matches DriverEvent::Output(Some(Output::Audio { frame })) ==> r is Ok && r->Ok_0
            is Emit && r->Ok_0->Emit_0 is Audio && r->Ok_0->Emit_0.id() == old(driver).id
            && r->Ok_0->Emit_0->Audio_samples.0@ == frame.samples@,
        event matches DriverEvent::Input(None) ==> r is Ok && r->Ok_0 is CloseInput
            && final(driver).phase is ShuttingDown,
        event matches DriverEvent::ShutdownTimeout ==> r is Ok && r->Ok_0 is End && r->Ok_0->End_0
            == (ServerEvent::Stopped { id: old(driver).id }),
        event matches DriverEvent::ServiceEnded(Err(error)) ==> r is Err && r->Err_0@ == error@
            && final(driver).phase is Ended,
{
}

/// A conversation starts with the service, the parameters and the modalities that the client asks for,
/// if the service is registered.
pub proof fn law_started_conversations<'a, S: View>(
    registry: &'a Registry<S>,
    event: ClientEvent,
    r: Result<ConversationStart<'a, S>, Error>,
)
    requires
        call_ensures(ConversationDriver::start::<S>, (registry, event), r),
    ensures
        !(event is Start) ==> r is Err && r->Err_0@ == seq![
            "Initial client event must be a Start event"@,
        ],
        event matches ClientEvent::Start {
            id,
            service,
            params,
            input_modality,
            output_modalities,
            ..
        } ==> {
            &&& r is Ok <==> registry@.contains_key(service@)
            &&& r is Err ==> r->Err_0@ == seq!["`"@ + service@ + "`: Unregistered service"@]
            &&& r matches Ok(start) ==> {
                &&& start.driver.id == id
                &&& start.driver.input_modality == input_modality
                &&& start.driver.phase is Running
                &&& start.service@ == registry@[service@]
                &&& start.service_name@ == service@
                &&& start.params == params
                &&& start.output_modalities@ == output_modalities@
            }
        },
{
}

/// A conversation ends with the event that it came to, or with an error that names it.
pub proof fn law_last_events(
    id: ConversationId,
    result: Result<ServerEvent, Error>,
    r: ServerEvent,
    input: Input<Value>,
    context: &'static str,
)
    requires
        call_ensures(process_conversation, (&id, result), r),
        call_ensures(post_failure_context, (&input,), context),
    ensures
        result matches Ok(event) ==> r == event,
        result matches Err(error) ==> {
            &&& r is Error
            &&& r.id() == id
            &&& error@.len() == 1 ==> r->message@ == "Conversation: `"@ + id@ + "`"@ + ": "@
                + error@[0]
        },
        input is Audio ==> context@ == "Sending input audio frame to conversation"@,
        input is Text ==> context@ == "Sending input text to conversation"@,
        input is ServiceEvent ==> context@ == "Sending service event"@,
{
    if let Err(error) = result {
        if error@.len() == 1 {
            let none = Seq::<Seq<char>>::empty();
            assert(error@ =~= none.push(error@[0]));
            law_final_messages(id@, none, error@[0]);
        }
    }
}

} // verus!

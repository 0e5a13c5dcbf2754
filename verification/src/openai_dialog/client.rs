//! The client's side of a dialog.

use vstd::prelude::*;

use serde_json::Value;

use crate::audio::from_le_bytes;
use crate::audio::samples_of;
use crate::audio::AudioFormat;
use crate::audio::AudioFrame;
use crate::audio::FrameView;
use crate::base64_codec::base64_bytes;
use crate::base64_codec::base64_error;
use crate::base64_codec::decode_base64;
use crate::base64_codec::is_base64;
use crate::error::Error;
use crate::input::FlowView;
use crate::json::json_read;
use crate::json::json_text;
use crate::json::read_json;
use crate::openai_dialog::prompts::is_active_response_error;
use crate::openai_dialog::prompts::is_busy_error;
use crate::openai_dialog::prompts::server_error_message;
use crate::openai_dialog::prompts::PromptCoordinator;
use crate::openai_dialog::prompts::Prompts;
use crate::openai_dialog::prompts::ResponseState;
use crate::openai_dialog::transcription::unless_empty;
use crate::openai_dialog::transcription::whole_transcript;
use crate::openai_dialog::transcription::InputPart;
use crate::openai_dialog::transcription::OutputPart;
use crate::openai_dialog::transcription::TranscriptionSettings;
use crate::openai_dialog::transcription::TranscriptionState;
use crate::openai_dialog::transcription::Transcripts;
use crate::openai_dialog::types::sent_view;
use crate::openai_dialog::types::ClientEvent;
use crate::openai_dialog::types::ClientEventView;
use crate::openai_dialog::types::Item;
use crate::openai_dialog::types::ItemType;
use crate::openai_dialog::types::Response;
use crate::openai_dialog::types::ServerError;
use crate::openai_dialog::types::ServerEvent;
use crate::openai_dialog::types::ServiceOutputEvent;
use crate::openai_dialog::types::ServiceOutputView;
use crate::openai_dialog::types::Session;
use crate::openai_dialog::types::Status;
use crate::openai_dialog::types::Usage;
use crate::output::agent_text;
use crate::output::bill_now;
use crate::output::count_record;
use crate::output::emissions;
use crate::output::emit;
use crate::output::plain_text;
use crate::output::records_view;
use crate::output::BillingRecord;
use crate::output::BillingSchedule;
use crate::output::Emission;
use crate::output::EmissionView;
use crate::output::OutputPath;
use crate::output::RecordView;
use crate::output::Speaker;
use crate::text::concat3;
use crate::text::same_text;

verus! {

/// The client's state in a dialog.
pub struct Client {
    pub transcription_state: TranscriptionState,
    /// Where prompts wait for the model to be idle; `None` if they are sent right away.
    pub prompt_coordinator: Option<PromptCoordinator>,
}

/// The client's state, as mathematical values.
pub struct ClientState {
    pub transcripts: Transcripts,
    pub prompts: Option<Prompts>,
}

/// The view of an optional coordinator.
pub open spec fn prompts_view(coordinator: Option<PromptCoordinator>) -> Option<Prompts> {
    match coordinator {
        Some(c) => Some(c@),
        None => None,
    }
}

impl View for Client {
    type V = ClientState;

    open spec fn view(&self) -> ClientState {
        ClientState {
            transcripts: self.transcription_state@,
            prompts: prompts_view(self.prompt_coordinator),
        }
    }
}

/// What comes of an event: the client's state after it, what is put out, what is sent, and how the
/// dialog goes on or the error that ends it.
pub struct Handled {
    pub client: ClientState,
    pub out: Seq<EmissionView<ServiceOutputView>>,
    pub sent: Seq<ClientEventView>,
    pub result: Result<FlowView, Seq<Seq<char>>>,
}

/// An event that changes the client's state only.
pub open spec fn moves(client: ClientState) -> Handled {
    Handled { client, out: Seq::empty(), sent: Seq::empty(), result: Ok(FlowView::Continue) }
}

/// An event that puts something out.
pub open spec fn puts_out(client: ClientState, e: EmissionView<ServiceOutputView>) -> Handled {
    Handled { out: seq![e], ..moves(client) }
}

/// An event that makes the client send something.
pub open spec fn sends(client: ClientState, sent: Seq<ClientEventView>) -> Handled {
    Handled { sent, ..moves(client) }
}

/// An event that ends the dialog with an error.
pub open spec fn fails(client: ClientState, chain: Seq<Seq<char>>) -> Handled {
    Handled { result: Err(chain), ..moves(client) }
}

/// An event that is answered by the flow of the loop alone.
pub open spec fn flows(client: ClientState, flow: FlowView) -> Handled {
    Handled { result: Ok(flow), ..moves(client) }
}

/// Whether an item is a function call to execute: calls are processed in completed responses only.
pub open spec fn is_completed_call(status: Status, item: Item) -> bool {
    status == Status::Completed && item.item_type == Some(ItemType::FunctionCall) && item.status
        == Some(Status::Completed)
}

/// Whether an item is a function call that lacks a name or an id, or whose arguments are no JSON.
pub open spec fn is_broken_call(status: Status, item: Item) -> bool {
    is_completed_call(status, item) && (item.name is None || item.call_id is None || (
    item.arguments is Some && json_read(item.arguments->0@) is Err))
}

/// The report of a function call.
pub open spec fn call_report(item: Item) -> EmissionView<ServiceOutputView> {
    EmissionView::ServiceEvent {
        path: OutputPath::Media,
        event: ServiceOutputView::FunctionCall {
            call_id: item.call_id->0@,
            name: item.name->0@,
            arguments: match item.arguments {
                Some(text) => Some(json_read(text@)->Ok_0),
                None => None,
            },
        },
    }
}

/// The reports of the function calls among the items of a response, in order.
pub open spec fn call_reports(status: Status, items: Seq<Item>) -> Seq<
    EmissionView<ServiceOutputView>,
>
    decreases items.len(),
{
    if items.len() == 0 {
        Seq::empty()
    } else {
        let before = call_reports(status, items.drop_last());
        if is_completed_call(status, items.last()) && !is_broken_call(status, items.last()) {
            before.push(call_report(items.last()))
        } else {
            before
        }
    }
}

/// The items of a response that are done with: those with an id, but for broken function calls.
pub open spec fn finished_items(status: Status, items: Seq<Item>) -> Set<Seq<char>>
    decreases items.len(),
{
    if items.len() == 0 {
        Set::empty()
    } else {
        let before = finished_items(status, items.drop_last());
        if items.last().id is Some && !is_broken_call(status, items.last()) {
            before.insert(items.last().id->0@)
        } else {
            before
        }
    }
}

/// The billing records of a response. Cached input tokens are billed apart.
pub open spec fn token_records(usage: Usage) -> Seq<RecordView> {
    seq![
        count_record(
            "tokens:input:audio"@,
            (usage.input_audio_tokens - usage.cached_audio_tokens) as u64,
        ),
        count_record(
            "tokens:input:text"@,
            (usage.input_text_tokens - usage.cached_text_tokens) as u64,
        ),
        count_record("tokens:input:audio:cached"@, usage.cached_audio_tokens as u64),
        count_record("tokens:input:text:cached"@, usage.cached_text_tokens as u64),
        count_record("tokens:output:audio"@, usage.output_audio_tokens as u64),
        count_record("tokens:output:text"@, usage.output_text_tokens as u64),
    ]
}

/// What is wrong with a count of tokens: more of them cached than there are.
pub open spec fn usage_error(usage: Option<Usage>) -> Option<Seq<char>> {
    match usage {
        None => None,
        Some(u) => if u.input_audio_tokens < u.cached_audio_tokens {
            Some("Internal error: less audio tokens than cached text tokens"@)
        } else if u.input_text_tokens < u.cached_text_tokens {
            Some("Internal error: less text tokens than cached text tokens"@)
        } else {
            None
        },
    }
}

/// The bill of a response, if the server tells its usage.
pub open spec fn usage_bill(usage: Option<Usage>, billing_scope: Seq<char>) -> Seq<
    EmissionView<ServiceOutputView>,
> {
    match usage {
        Some(u) => seq![bill_now(None, Some(billing_scope), token_records(u))],
        None => Seq::empty(),
    }
}

/// The prompts after the model went to a new state.
pub open spec fn prompts_updated(
    prompts: Option<Prompts>,
    state: ResponseState,
    event_id: Seq<char>,
) -> Option<Prompts> {
    match prompts {
        Some(p) => Some(p.updated(state, event_id)),
        None => None,
    }
}

/// What is sent when the model goes to a new state.
pub open spec fn prompts_sent(
    prompts: Option<Prompts>,
    state: ResponseState,
    event_id: Seq<char>,
) -> Seq<ClientEventView> {
    match prompts {
        Some(p) => p.update_sends(state, event_id),
        None => Seq::empty(),
    }
}

/// What the model is doing after a response.
pub open spec fn state_after(calls: Seq<EmissionView<ServiceOutputView>>) -> ResponseState {
    if calls.len() > 0 {
        ResponseState::ExpectingFunctionResult
    } else {
        ResponseState::Idle
    }
}

/// A response is done: its function calls are reported, its transcripts are dropped, its tokens are
/// billed, and the next prompt is sent unless the result of a function is expected.
pub open spec fn response_done(
    client: ClientState,
    response: Response,
    billing_scope: Seq<char>,
    event_id: Seq<char>,
) -> Handled {
    let calls = call_reports(response.status, response.output@);
    let transcripts = client.transcripts.without_items(
        finished_items(response.status, response.output@),
    ).response_ended(response.id@);
    match usage_error(response.usage) {
        Some(message) => Handled {
            out: calls,
            ..fails(ClientState { transcripts, ..client }, seq![message])
        },
        None => Handled {
            client: ClientState {
                transcripts,
                prompts: prompts_updated(client.prompts, state_after(calls), event_id),
            },
            out: calls + usage_bill(response.usage, billing_scope),
            sent: prompts_sent(client.prompts, state_after(calls), event_id),
            result: Ok(FlowView::Continue),
        },
    }
}

/// The tools of a dialog session.
pub open spec fn session_tools(session: Session) -> Option<Seq<Seq<char>>> {
    match session {
        Session::Realtime { tools, .. } => crate::json::opt_json_texts(tools),
        Session::Transcription { .. } => None,
    }
}

/// What comes of an error that the server reports.
pub open spec fn server_error(client: ClientState, raw: Seq<char>, error: ServerError) -> Handled {
    let failed = fails(client, seq![server_error_message(error, raw)]);
    match client.prompts {
        Some(p) => if p.rejected_by(error) {
            moves(ClientState { prompts: Some(p.rescheduled()), ..client })
        } else {
            failed
        },
        None => if is_busy_error(error) {
            moves(client)
        } else {
            failed
        },
    }
}

/// What comes of an event from the server.
pub open spec fn handled(
    client: ClientState,
    raw: Seq<char>,
    event: ServerEvent,
    output_format: AudioFormat,
    billing_scope: Seq<char>,
    transcription: TranscriptionSettings,
    event_id: Seq<char>,
) -> Handled {
    let t = client.transcripts;
    match event {
        ServerEvent::Error(error) => server_error(client, raw, error),
        ServerEvent::ResponseOutputAudioDelta { delta } => if is_base64(delta@) {
            puts_out(
                client,
                EmissionView::Audio(
                    FrameView {
                        format: output_format,
                        samples: samples_of(base64_bytes(delta@)),
                    },
                ),
            )
        } else {
            fails(client, seq![base64_error(delta@)])
        },
        ServerEvent::InputAudioBufferSpeechStarted => puts_out(client, EmissionView::ClearAudio),
        ServerEvent::ConversationItemInputAudioTranscriptionDelta {
            item_id,
            content_index,
            delta,
        } => {
            let part = InputPart { item: item_id@, content: content_index };
            let after = t.input_added(part, delta@);
            if transcription.input {
                puts_out(
                    ClientState { transcripts: after, ..client },
                    plain_text(false, after.input[part]),
                )
            } else {
                moves(client)
            }
        },
        ServerEvent::ConversationItemInputAudioTranscriptionCompleted {
            item_id,
            content_index,
            transcript,
        } => {
            let part = InputPart { item: item_id@, content: content_index };
            let after = ClientState { transcripts: t.input_ended(part), ..client };
            if !transcription.input {
                moves(client)
            } else {
                match unless_empty(whole_transcript(t.input, part, transcript@)) {
                    Some(text) => puts_out(after, plain_text(true, text)),
                    None => moves(after),
                }
            }
        },
        ServerEvent::ResponseOutputAudioTranscriptDelta {
            response_id,
            item_id,
            output_index,
            content_index,
            delta,
        } => {
            let part = OutputPart { item: item_id@, output: output_index, content: content_index };
            let after = t.output_added(response_id@, part, delta@);
            if transcription.output {
                puts_out(
                    ClientState { transcripts: after, ..client },
                    agent_text(false, after.output[part]),
                )
            } else {
                moves(client)
            }
        },
        ServerEvent::ResponseOutputAudioTranscriptDone {
            response_id,
            item_id,
            output_index,
            content_index,
            transcript,
        } => {
            let part = OutputPart { item: item_id@, output: output_index, content: content_index };
            let after = ClientState { transcripts: t.output_ended(response_id@, part), ..client };
            if !transcription.output {
                moves(client)
            } else {
                match unless_empty(whole_transcript(t.output, part, transcript@)) {
                    Some(text) => puts_out(after, agent_text(true, text)),
                    None => moves(after),
                }
            }
        },
        ServerEvent::ConversationItemDeleted { item_id } => moves(
            ClientState { transcripts: t.without_items(set![item_id@]), ..client },
        ),
        ServerEvent::ConversationItemTruncated { item_id, content_index } => moves(
            ClientState { transcripts: t.without_content(item_id@, content_index), ..client },
        ),
        ServerEvent::ResponseCreated { object } => if object@ == "realtime.response"@ {
            moves(
                ClientState {
                    prompts: prompts_updated(client.prompts, ResponseState::Responding, event_id),
                    ..client
                },
            )
        } else {
            moves(client)
        },
        ServerEvent::ResponseDone { response } => if response.object@ == "realtime.response"@ {
            response_done(client, response, billing_scope, event_id)
        } else {
            moves(client)
        },
        ServerEvent::SessionUpdated { session } => puts_out(
            client,
            EmissionView::ServiceEvent {
                path: OutputPath::Control,
                event: ServiceOutputView::SessionUpdated { tools: session_tools(session) },
            },
        ),
        ServerEvent::SessionCreated { .. } => moves(client),
        ServerEvent::Other => moves(client),
    }
}

/// Whether a call brought about what the model says.
pub open spec fn carried_out(
    h: Handled,
    client: ClientState,
    out_before: Seq<Emission<ServiceOutputEvent>>,
    out_after: Seq<Emission<ServiceOutputEvent>>,
    sent_before: Seq<ClientEvent>,
    sent_after: Seq<ClientEvent>,
) -> bool {
    &&& client == h.client
    &&& emissions(out_after) == emissions(out_before) + h.out
    &&& sent_view(sent_after) == sent_view(sent_before) + h.sent
}

/// The billing records of a response.
pub fn usage_records(usage: &Usage) -> (r: Vec<BillingRecord>)
    requires
        usage.cached_audio_tokens <= usage.input_audio_tokens,
        usage.cached_text_tokens <= usage.input_text_tokens,
    ensures
        records_view(r@) == token_records(*usage),
{
    let mut r: Vec<BillingRecord> = Vec::new();
    r.push(
        BillingRecord::count(
            "tokens:input:audio",
            (usage.input_audio_tokens - usage.cached_audio_tokens) as u64,
        ),
    );
    r.push(
        BillingRecord::count(
            "tokens:input:text",
            (usage.input_text_tokens - usage.cached_text_tokens) as u64,
        ),
    );
    r.push(BillingRecord::count("tokens:input:audio:cached", usage.cached_audio_tokens as u64));
    r.push(BillingRecord::count("tokens:input:text:cached", usage.cached_text_tokens as u64));
    r.push(BillingRecord::count("tokens:output:audio", usage.output_audio_tokens as u64));
    r.push(BillingRecord::count("tokens:output:text", usage.output_text_tokens as u64));
    assert(records_view(r@) =~= token_records(*usage));
    r
}

/// The function call that an item stands for: `None` if the item is no function call to execute,
/// `Some(None)` if it is one that cannot be executed. `arguments` is what was read from the
/// arguments of the item.
pub fn function_call(
    status: Status,
    item: &Item,
    arguments: Option<Result<Value, String>>,
) -> (r: Option<Option<ServiceOutputEvent>>)
    ensures
        r is Some <==> is_completed_call(status, *item),
        r matches Some(call) ==> (call is None <==> item.name is None || item.call_id is None
            || arguments matches Some(Err(_))),
        r matches Some(Some(call)) ==> call@ == (ServiceOutputView::FunctionCall {
            call_id: item.call_id->0@,
            name: item.name->0@,
            arguments: match arguments {
                Some(Ok(value)) => Some(json_text(value)),
                _ => None,
            },
        }),
{
    let is_call = match (item.item_type, item.status) {
        (Some(ItemType::FunctionCall), Some(Status::Completed)) => status == Status::Completed,
        _ => false,
    };
    if !is_call {
        return None;
    }
    match (&item.name, &item.call_id) {
        (Some(name), Some(call_id)) => {
            let arguments = match arguments {
                Some(Ok(value)) => Some(value),
                Some(Err(_)) => {
                    return Some(None);
                },
                None => None,
            };
            Some(
                Some(
                    ServiceOutputEvent::FunctionCall {
                        call_id: call_id.clone(),
                        name: name.clone(),
                        arguments,
                    },
                ),
            )
        },
        _ => Some(None),
    }
}

/// Reads the arguments of an item, if it has any.
fn read_arguments(item: &Item) -> (r: Option<Result<Value, String>>)
    ensures
        r is Some <==> item.arguments is Some,
        r matches Some(Ok(value)) ==> json_read(item.arguments->0@) is Ok && json_read(
            item.arguments->0@,
        )->Ok_0 == json_text(value),
        r matches Some(Err(_)) ==> json_read(item.arguments->0@) is Err,
{
    match &item.arguments {
        Some(text) => Some(read_json(text.as_str())),
        None => None,
    }
}

/// Forgetting one more item.
proof fn lemma_without_one_more(t: Transcripts, items: Set<Seq<char>>, item: Seq<char>)
    ensures
        t.without_items(items).without_items(set![item]) == t.without_items(items.insert(item)),
{
    let a = t.without_items(items).without_items(set![item]);
    let b = t.without_items(items.insert(item));
    assert(a.input =~= b.input);
    assert(a.output =~= b.output);
}

impl Client {
    /// A client at the beginning of a dialog. With `prompt_delay`, prompts wait until the model is
    /// idle.
    pub fn new(prompt_delay: bool) -> (r: Client)
        ensures
            r@.transcripts == Transcripts::none(),
            r@.prompts == if prompt_delay {
                Some(Prompts::none())
            } else {
                None
            },
    {
        Client {
            transcription_state: TranscriptionState::default(),
            prompt_coordinator: if prompt_delay {
                Some(PromptCoordinator::new())
            } else {
                None
            },
        }
    }

    /// Reports the function calls of a response and drops the transcripts of its items.
    fn process_items(
        &mut self,
        status: Status,
        items: &Vec<Item>,
        out: &mut Vec<Emission<ServiceOutputEvent>>,
    ) -> (r: bool)
        ensures
            final(self)@ == (ClientState {
                transcripts: old(self)@.transcripts.without_items(finished_items(status, items@)),
                ..old(self)@
            }),
            emissions(final(out)@) == emissions(old(out)@) + call_reports(status, items@),
            r == (call_reports(status, items@).len() > 0),
    {
        let mut any_function_call: bool = false;
        let mut i: usize = 0;
        let ghost t = self@.transcripts;
        proof {
            assert(t.without_items(Set::empty()).input =~= t.input);
            assert(t.without_items(Set::empty()).output =~= t.output);
            assert(emissions(out@) + Seq::empty() =~= emissions(out@));
            assert(items@.take(0).len() == 0);
        }
        while i < items.len()
            invariant
                i <= items@.len(),
                t == old(self)@.transcripts,
                self@.prompts == old(self)@.prompts,
                self@.transcripts == t.without_items(finished_items(status, items@.take(i as int))),
                emissions(out@) == emissions(old(out)@) + call_reports(
                    status,
                    items@.take(i as int),
                ),
                any_function_call == (call_reports(status, items@.take(i as int)).len() > 0),
            decreases items@.len() - i,
        {
            let item = &items[i];
            proof {
                let next = items@.take(i + 1);
                assert(next.drop_last() =~= items@.take(i as int));
                assert(next.last() == items@[i as int]);
                assert(items@[i as int] == *item);
            }
            let call = function_call(status, item, read_arguments(item));
            let broken = match call {
                Some(Some(event)) => {
                    emit(out, Emission::ServiceEvent { path: OutputPath::Media, event });
                    any_function_call = true;
                    false
                },
                Some(None) => true,
                None => false,
            };
            assert(broken == is_broken_call(status, *item));
            if !broken {
                match &item.id {
                    Some(item_id) => {
                        proof {
                            lemma_without_one_more(
                                t,
                                finished_items(status, items@.take(i as int)),
                                item_id@,
                            );
                        }
                        self.transcription_state.clear_item(item_id.as_str());
                    },
                    None => {},
                }
            }
            i += 1;
        }
        assert(items@.take(i as int) =~= items@);
        any_function_call
    }

    /// Follows the model into a new state.
    fn update_response_state(
        &mut self,
        state: ResponseState,
        event_id: String,
        sent: &mut Vec<ClientEvent>,
    )
        ensures
            final(self)@ == (ClientState {
                prompts: prompts_updated(old(self)@.prompts, state, event_id@),
                ..old(self)@
            }),
            sent_view(final(sent)@) == sent_view(old(sent)@) + prompts_sent(
                old(self)@.prompts,
                state,
                event_id@,
            ),
    {
        match &mut self.prompt_coordinator {
            Some(coordinator) => {
                coordinator.update_response_state(state, event_id, sent);
            },
            None => {
                assert(sent_view(sent@) =~= sent_view(old(sent)@) + Seq::empty());
            },
        }
    }

    /// Ends a response.
    fn finish_response(
        &mut self,
        response: Response,
        out: &mut Vec<Emission<ServiceOutputEvent>>,
        billing_scope: &str,
        event_id: String,
        sent: &mut Vec<ClientEvent>,
    ) -> (r: Result<(), Error>)
        ensures
            carried_out(
                response_done(old(self)@, response, billing_scope@, event_id@),
                final(self)@,
                old(out)@,
                final(out)@,
                old(sent)@,
                final(sent)@,
            ),
            r is Ok <==> response_done(old(self)@, response, billing_scope@, event_id@).result is Ok,
            r matches Err(e) ==> response_done(
                old(self)@,
                response,
                billing_scope@,
                event_id@,
            ).result->Err_0 == e@,
    {
        let ghost calls = call_reports(response.status, response.output@);
        let any_function_call = self.process_items(response.status, &response.output, out);
        self.transcription_state.clear_output_response_tracking(response.id.as_str());
        match &response.usage {
            Some(usage) => {
                if usage.input_audio_tokens < usage.cached_audio_tokens {
                    assert(sent_view(sent@) =~= sent_view(old(sent)@) + Seq::empty());
                    return Err(
                        Error::new("Internal error: less audio tokens than cached text tokens"),
                    );
                }
                if usage.input_text_tokens < usage.cached_text_tokens {
                    assert(sent_view(sent@) =~= sent_view(old(sent)@) + Seq::empty());
                    return Err(
                        Error::new("Internal error: less text tokens than cached text tokens"),
                    );
                }
                let records = usage_records(usage);
                let ghost before = emissions(out@);
                emit(
                    out,
                    Emission::BillingRecords {
                        request_id: None,
                        scope: Some(billing_scope.to_owned()),
                        records,
                        schedule: BillingSchedule::Now,
                    },
                );
                assert(emissions(out@) =~= emissions(old(out)@) + (calls + usage_bill(
                    response.usage,
                    billing_scope@,
                )));
            },
            None => {
                assert(emissions(out@) =~= emissions(old(out)@) + (calls + usage_bill(
                    response.usage,
                    billing_scope@,
                )));
            },
        }
        let state = if any_function_call {
            ResponseState::ExpectingFunctionResult
        } else {
            ResponseState::Idle
        };
        self.update_response_state(state, event_id, sent);
        Ok(())
    }

    /// Handles an error that the server reports. A prompt that found the model busy is sent again
    /// later if prompts wait, and dropped otherwise; every other error ends the dialog.
    pub fn handle_server_error(&mut self, raw: &str, error: &ServerError) -> (r: Result<(), Error>)
        ensures
            final(self)@ == server_error(old(self)@, raw@, *error).client,
            r is Ok <==> server_error(old(self)@, raw@, *error).result is Ok,
            r matches Err(e) ==> server_error(old(self)@, raw@, *error).result->Err_0 == e@,
    {
        match &mut self.prompt_coordinator {
            Some(coordinator) => coordinator.handle_server_error(raw, error),
            None => {
                if is_active_response_error(error) {
                    Ok(())
                } else {
                    Err(Error::from_text(concat3(error.description.as_str(), ", raw: ", raw)))
                }
            },
        }
    }

    /// Handles one event from the server. `raw` is the text that it was read from, and `event_id`
    /// the id for a prompt that may be sent.
    #[verifier::rlimit(50)]
    pub fn handle_realtime_server_event(
        &mut self,
        raw: &str,
        event: ServerEvent,
        out: &mut Vec<Emission<ServiceOutputEvent>>,
        output_format: AudioFormat,
        billing_scope: &str,
        transcription: TranscriptionSettings,
        event_id: String,
        sent: &mut Vec<ClientEvent>,
    ) -> (r: Result<(), Error>)
        ensures
            ({
                let h = handled(
                    old(self)@,
                    raw@,
                    event,
                    output_format,
                    billing_scope@,
                    transcription,
                    event_id@,
                );
                &&& carried_out(h, final(self)@, old(out)@, final(out)@, old(sent)@, final(sent)@)
                &&& r is Ok <==> h.result is Ok
                &&& r matches Err(e) ==> h.result->Err_0 == e@
            }),
    {
        proof {
            assert(emissions(out@) + Seq::empty() =~= emissions(out@));
            assert(sent_view(sent@) + Seq::empty() =~= sent_view(sent@));
            assert forall|e: EmissionView<ServiceOutputView>| #[trigger]
                emissions(out@).push(e) == emissions(out@) + seq![e] by {
                assert(emissions(out@).push(e) =~= emissions(out@) + seq![e]);
            }
        }
        match event {
            ServerEvent::Error(error) => {
                return self.handle_server_error(raw, &error);
            },
            ServerEvent::ResponseOutputAudioDelta { delta } => {
                match decode_base64(delta.as_str()) {
                    Ok(decoded) => {
                        let samples = from_le_bytes(&decoded);
                        emit(
                            out,
                            Emission::Audio(AudioFrame { format: output_format, samples }),
                        );
                    },
                    Err(error) => {
                        return Err(error);
                    },
                }
            },
            ServerEvent::InputAudioBufferSpeechStarted => {
                emit(out, Emission::ClearAudio);
            },
            ServerEvent::ConversationItemInputAudioTranscriptionDelta {
                item_id,
                content_index,
                delta,
            } => {
                if transcription.input {
                    let text = self.transcription_state.apply_input_delta(
                        item_id,
                        content_index,
                        delta,
                    );
                    emit(
                        out,
                        Emission::Text { is_final: false, text, language: None, speaker: None },
                    );
                }
            },
            ServerEvent::ConversationItemInputAudioTranscriptionCompleted {
                item_id,
                content_index,
                transcript,
            } => {
                if transcription.input {
                    match self.transcription_state.complete_input_transcription(
                        item_id,
                        content_index,
                        transcript,
                    ) {
                        Some(text) => emit(
                            out,
                            Emission::Text { is_final: true, text, language: None, speaker: None },
                        ),
                        None => {},
                    }
                }
            },
            ServerEvent::ResponseOutputAudioTranscriptDelta {
                response_id,
                item_id,
                output_index,
                content_index,
                delta,
            } => {
                if transcription.output {
                    let text = self.transcription_state.apply_output_delta(
                        response_id,
                        item_id,
                        output_index,
                        content_index,
                        delta,
                    );
                    emit(
                        out,
                        Emission::Text {
                            is_final: false,
                            text,
                            language: None,
                            speaker: Some(Speaker::AiAgent),
                        },
                    );
                }
            },
            ServerEvent::ResponseOutputAudioTranscriptDone {
                response_id,
                item_id,
                output_index,
                content_index,
                transcript,
            } => {
                if transcription.output {
                    match self.transcription_state.complete_output_transcription(
                        response_id,
                        item_id,
                        output_index,
                        content_index,
                        transcript,
                    ) {
                        Some(text) => emit(
                            out,
                            Emission::Text {
                                is_final: true,
                                text,
                                language: None,
                                speaker: Some(Speaker::AiAgent),
                            },
                        ),
                        None => {},
                    }
                }
            },
            ServerEvent::ConversationItemDeleted { item_id } => {
                self.transcription_state.clear_item(item_id.as_str());
            },
            ServerEvent::ConversationItemTruncated { item_id, content_index } => {
                self.transcription_state.clear_content_index(item_id, content_index);
            },
            ServerEvent::ResponseCreated { object } => {
                if same_text(object.as_str(), "realtime.response") {
                    self.update_response_state(ResponseState::Responding, event_id, sent);
                }
            },
            ServerEvent::ResponseDone { response } => {
                if same_text(response.object.as_str(), "realtime.response") {
                    return self.finish_response(response, out, billing_scope, event_id, sent);
                }
            },
            ServerEvent::SessionUpdated { session } => {
                let tools = match session {
                    Session::Realtime { tools, .. } => tools,
                    Session::Transcription { .. } => None,
                };
                emit(
                    out,
                    Emission::ServiceEvent {
                        path: OutputPath::Control,
                        event: ServiceOutputEvent::SessionUpdated { tools },
                    },
                );
            },
            ServerEvent::SessionCreated { .. } => {},
            ServerEvent::Other => {},
        }
        Ok(())
    }
}

proof fn lemma_reports_are_events(status: Status, items: Seq<Item>)
    ensures
        forall|i: int|
            0 <= i < call_reports(status, items).len() ==> (#[trigger] call_reports(
                status,
                items,
            )[i]) is ServiceEvent,
    decreases items.len(),
{
    if items.len() > 0 {
        lemma_reports_are_events(status, items.drop_last());
    }
}

/// Without transcription no event of the server puts out text.
pub proof fn law_no_text_without_transcription(
    client: ClientState,
    raw: Seq<char>,
    event: ServerEvent,
    output_format: AudioFormat,
    billing_scope: Seq<char>,
    event_id: Seq<char>,
)
    ensures
        ({
            let off = TranscriptionSettings { input: false, output: false };
            let h = handled(client, raw, event, output_format, billing_scope, off, event_id);
            forall|i: int| 0 <= i < h.out.len() ==> !((#[trigger] h.out[i]) is Text)
        }),
{
    match event {
        ServerEvent::ResponseDone { response } => {
            lemma_reports_are_events(response.status, response.output@);
        },
        _ => {},
    }
}

/// Every input token is billed once: as a cached one or as one that is not.
pub proof fn law_input_tokens_are_billed_once(usage: Usage)
    requires
        usage_error(Some(usage)) is None,
    ensures
        token_records(usage)[0].value->Count_0 + token_records(usage)[2].value->Count_0
            == usage.input_audio_tokens,
        token_records(usage)[1].value->Count_0 + token_records(usage)[3].value->Count_0
            == usage.input_text_tokens,
{
}

/// An error of the server ends the dialog unless it says that the model is busy, and never makes
/// the client send or put out anything.
pub proof fn law_only_busy_errors_are_survived(
    client: ClientState,
    raw: Seq<char>,
    error: ServerError,
)
    ensures
        server_error(client, raw, error).result is Ok ==> is_busy_error(error),
        server_error(client, raw, error).out.len() == 0,
        server_error(client, raw, error).sent.len() == 0,
        client.prompts is None ==> server_error(client, raw, error).client == client,
{
}

} // verus!

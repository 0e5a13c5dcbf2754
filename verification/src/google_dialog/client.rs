//! The course of a dialog.

use vstd::prelude::*;

use serde_json::Value;

use crate::audio::le_bytes;
use crate::audio::samples_of;
use crate::audio::AudioFormat;
use crate::audio::AudioFrame;
use crate::audio::FrameView;
use crate::error::Error;
use crate::google_dialog::conversation_state::cancel_error;
use crate::google_dialog::conversation_state::register_error;
use crate::google_dialog::conversation_state::resolve_error;
use crate::google_dialog::conversation_state::resolved_name;
use crate::google_dialog::conversation_state::ConversationState;
use crate::google_dialog::conversation_state::OpenCall;
use crate::google_dialog::conversation_state::StateView;
use crate::google_dialog::model::scheduling_error;
use crate::google_dialog::model::validate_response_scheduling;
use crate::google_dialog::setup::first_repeated;
use crate::google_dialog::setup::session_config;
use crate::google_dialog::setup::setup_error;
use crate::google_dialog::setup::count_interim;
use crate::google_dialog::setup::count_text;
use crate::google_dialog::setup::SessionConfig;
use crate::google_dialog::setup::TextOutputs;
use crate::google_dialog::types::tools_view;
use crate::google_dialog::types::ClientContentRole;
use crate::google_dialog::types::FunctionResponseScheduling;
use crate::google_dialog::types::Params;
use crate::google_dialog::types::ServiceInputEvent;
use crate::google_dialog::types::ServiceOutputEvent;
use crate::google_dialog::types::ServiceOutputView;
use crate::input::Input;
use crate::json::is_json_object;
use crate::json::is_object_text;
use crate::json::is_plain_key;
use crate::json::json_text;
use crate::json::object_of;
use crate::modality::OutputModality;
use crate::openai_dialog::session::describe_format;
use crate::openai_dialog::session::format_text;
use crate::output::agent_text;
use crate::output::bill_now;
use crate::output::count_record;
use crate::output::emissions;
use crate::output::emit;
use crate::output::plain_text;
use crate::output::records_view;
use crate::output::BillingRecord;
use crate::output::BillingSchedule;
use crate::output::Emission;
use crate::output::EmissionView;
use crate::output::OutputPath;
use crate::output::RecordView;
use crate::output::Speaker;
use crate::text::opt_view;
use crate::text::concat2;
use crate::text::concat3;
use crate::text::eq_ignore_ascii_case;
use crate::text::same_but_for_case;

verus! {

/// The realtime dialog service.
#[derive(Debug, Clone, Copy, PartialEq, Eq, Structural)]
pub struct GoogleDialog;

/// The one format that audio comes out in.
pub open spec fn output_audio_format() -> AudioFormat {
    AudioFormat { channels: 1, sample_rate: 24000 }
}

impl GoogleDialog {
    /// Decides which texts a conversation puts out, and checks the format of its audio.
    pub fn conversation(
        &self,
        output_modalities: &Vec<OutputModality>,
        output_format: AudioFormat,
    ) -> (r: Result<TextOutputs, Error>)
        ensures
            r is Ok <==> first_repeated(output_modalities@) is None && output_format
                == output_audio_format(),
            r matches Ok(outputs) ==> outputs == (TextOutputs {
                text: count_text(output_modalities@) > 0,
                interim: count_interim(output_modalities@) > 0,
            }),
            r matches Err(e) ==> e@ == match first_repeated(output_modalities@) {
                Some(message) => seq![message],
                None => seq![
                    "Audio output has the wrong format "@ + format_text(output_format)
                        + ", expected: "@ + format_text(output_audio_format()),
                ],
            },
    {
        let outputs = match TextOutputs::from_modalities(output_modalities) {
            Ok(outputs) => outputs,
            Err(error) => return Err(error),
        };
        let expected = AudioFormat::new(1, 24000);
        if output_format != expected {
            let actual = describe_format(output_format);
            let wanted = describe_format(expected);
            let mut message = concat3(
                "Audio output has the wrong format ",
                actual.as_str(),
                ", expected: ",
            );
            message.append(wanted.as_str());
            return Err(Error::from_text(message));
        }
        Ok(outputs)
    }
}

/// A function call of the model.
pub struct ToolCall {
    pub id: String,
    pub name: String,
    pub args: Value,
}

/// How many tokens of one modality were counted.
pub struct ModalityTokenCount {
    pub modality: String,
    pub token_count: u32,
}

/// The tokens that were used.
pub struct UsageMetadata {
    pub thoughts_token_count: u32,
    pub prompt_tokens_details: Option<Vec<ModalityTokenCount>>,
    pub cache_tokens_details: Option<Vec<ModalityTokenCount>>,
    pub tool_use_prompt_tokens_details: Option<Vec<ModalityTokenCount>>,
    pub response_tokens_details: Option<Vec<ModalityTokenCount>>,
}

/// An event from the server.
pub enum ServerEvent {
    SetupComplete,
    ModelText(String),
    ModelAudio(Vec<u8>),
    GenerationComplete,
    TurnComplete,
    Interrupted,
    InputTranscription(String),
    OutputTranscription(String),
    ToolCall(Vec<ToolCall>),
    ToolCallCancellation(Vec<String>),
    SessionResumption,
    GoAway,
    Usage(UsageMetadata),
    Closed { reason: String },
    Error { message: String },
    /// Any other event.
    Other,
}

/// Something to send to the server.
pub enum Command {
    /// Audio in the bytes of 16 bit samples.
    Audio { bytes: Vec<u8>, sample_rate: u32 },
    /// Text that is taken as if the user had said it.
    Text { text: String },
    /// The same, on behalf of a participant who asked for it.
    Prompt { text: String },
    /// An entry to append to the conversation's history.
    ClientContent { role: ClientContentRole, text: String, turn_complete: bool },
    /// The result of a function call.
    ToolResponse {
        id: String,
        name: String,
        response: Value,
        scheduling: Option<FunctionResponseScheduling>,
    },
    /// No more audio follows.
    AudioStreamEnd,
}

/// Something to send to the server, as mathematical values.
pub enum CommandView {
    Audio { bytes: Seq<u8>, sample_rate: u32 },
    Text { text: Seq<char> },
    Prompt { text: Seq<char> },
    ClientContent { role: ClientContentRole, text: Seq<char>, turn_complete: bool },
    ToolResponse {
        id: Seq<char>,
        name: Seq<char>,
        response: Seq<char>,
        scheduling: Option<FunctionResponseScheduling>,
    },
    AudioStreamEnd,
}

impl View for Command {
    type V = CommandView;

    open spec fn view(&self) -> CommandView {
        match *self {
            Command::Audio { bytes, sample_rate } => CommandView::Audio {
                bytes: bytes@,
                sample_rate,
            },
            Command::Text { text } => CommandView::Text { text: text@ },
            Command::Prompt { text } => CommandView::Prompt { text: text@ },
            Command::ClientContent { role, text, turn_complete } => CommandView::ClientContent {
                role,
                text: text@,
                turn_complete,
            },
            Command::ToolResponse { id, name, response, scheduling } => CommandView::ToolResponse {
                id: id@,
                name: name@,
                response: json_text(response),
                scheduling,
            },
            Command::AudioStreamEnd => CommandView::AudioStreamEnd,
        }
    }
}

impl Command {
    /// What is reported if the command cannot be sent.
    pub fn failure_context(&self) -> (r: &'static str)
        ensures
            r@ == match self@ {
                CommandView::Audio { .. } => "Sending audio to Gemini Live"@,
                CommandView::Text { .. } => "Sending text to Gemini Live"@,
                CommandView::Prompt { .. } => "Sending prompt"@,
                CommandView::ClientContent { .. } => "Sending client content"@,
                CommandView::ToolResponse { .. } => "Sending tool response"@,
                CommandView::AudioStreamEnd => "Ending Gemini audio stream"@,
            },
    {
        match self {
            Command::Audio { .. } => "Sending audio to Gemini Live",
            Command::Text { .. } => "Sending text to Gemini Live",
            Command::Prompt { .. } => "Sending prompt",
            Command::ClientContent { .. } => "Sending client content",
            Command::ToolResponse { .. } => "Sending tool response",
            Command::AudioStreamEnd => "Ending Gemini audio stream",
        }
    }
}

/// How the loop of a dialog goes on.
#[derive(Debug, Clone, Copy, PartialEq, Eq, Structural)]
pub enum FlowControl {
    Continue,
    End,
}

/// The object that a result of a function is sent in: the result itself if it is an object, else an
/// object with the result as its member.
pub open spec fn response_object(output: Seq<char>) -> Seq<char> {
    if is_object_text(output) {
        output
    } else {
        "{\""@ + "result"@ + "\":"@ + output + "}"@
    }
}

/// Makes an object of the result of a function, as the server requires one.
pub fn normalize_function_response(output: Value) -> (r: Value)
    ensures
        json_text(r) == response_object(json_text(output)),
{
    if is_json_object(&output) {
        output
    } else {
        proof {
            reveal_strlit("result");
            assert(is_plain_key("result"@));
        }
        object_of("result", output)
    }
}

/// The tokens of one modality, which is told apart without regard to case.
pub open spec fn tokens_of(details: Seq<ModalityTokenCount>, modality: Seq<char>) -> nat
    decreases details.len(),
{
    if details.len() == 0 {
        0
    } else {
        tokens_of(details.drop_last(), modality) + if same_but_for_case(
            details.last().modality@,
            modality,
        ) {
            details.last().token_count as nat
        } else {
            0
        }
    }
}

/// The tokens of one modality; none if there are no details.
pub open spec fn counted(details: Option<Vec<ModalityTokenCount>>, modality: Seq<char>) -> nat {
    match details {
        Some(list) => tokens_of(list@, modality),
        None => 0,
    }
}

impl UsageMetadata {
    /// Whether the sums for one modality fit into 64 bits.
    pub open spec fn fits(self, modality: Seq<char>) -> bool {
        &&& counted(self.prompt_tokens_details, modality) <= u64::MAX
        &&& counted(self.cache_tokens_details, modality) + counted(
            self.tool_use_prompt_tokens_details,
            modality,
        ) <= u64::MAX
        &&& counted(self.response_tokens_details, modality) <= u64::MAX
    }

    /// Whether the sums for all modalities that are billed fit into 64 bits.
    pub open spec fn countable(self) -> bool {
        self.fits("AUDIO"@) && self.fits("TEXT"@)
    }
}

/// The first counts add up to no more than all of them.
proof fn lemma_part_of_tokens(details: Seq<ModalityTokenCount>, n: int, modality: Seq<char>)
    requires
        0 <= n <= details.len(),
    ensures
        tokens_of(details.take(n), modality) <= tokens_of(details, modality),
    decreases details.len() - n,
{
    if n < details.len() {
        lemma_part_of_tokens(details, n + 1, modality);
        assert(details.take(n + 1).drop_last() =~= details.take(n));
    } else {
        assert(details.take(n) =~= details);
    }
}

/// Adds up the tokens of one modality.
pub fn modality_count(details: &Option<Vec<ModalityTokenCount>>, modality: &str) -> (r: u64)
    requires
        counted(*details, modality@) <= u64::MAX,
    ensures
        r == counted(*details, modality@),
{
    let list = match details {
        Some(list) => list,
        None => return 0,
    };
    let mut total: u64 = 0;
    let mut i: usize = 0;
    while i < list.len()
        invariant
            i <= list@.len(),
            tokens_of(list@, modality@) <= u64::MAX,
            total == tokens_of(list@.take(i as int), modality@),
        decreases list@.len() - i,
    {
        proof {
            assert(list@.take(i + 1).drop_last() =~= list@.take(i as int));
            assert(list@.take(i + 1).last() == list@[i as int]);
            lemma_part_of_tokens(list@, i + 1, modality@);
        }
        if eq_ignore_ascii_case(list[i].modality.as_str(), modality) {
            total += list[i].token_count as u64;
        }
        i += 1;
    }
    assert(list@.take(i as int) =~= list@);
    total
}

/// The tokens of the prompt that are neither cached nor those of tools.
pub open spec fn plain_prompt_tokens(usage: UsageMetadata, modality: Seq<char>) -> int {
    counted(usage.prompt_tokens_details, modality) - counted(usage.cache_tokens_details, modality)
        - counted(usage.tool_use_prompt_tokens_details, modality)
}

/// What is wrong with the counts, if anything: fewer tokens in the whole prompt than in its parts.
pub open spec fn usage_error(usage: UsageMetadata) -> Option<Seq<char>> {
    if plain_prompt_tokens(usage, "AUDIO"@) < 0 {
        Some("Invalid Gemini usage: prompt audio tokens less than cached+tool audio tokens"@)
    } else if plain_prompt_tokens(usage, "TEXT"@) < 0 {
        Some("Invalid Gemini usage: prompt text tokens less than cached+tool text tokens"@)
    } else {
        None
    }
}

/// The billing records for the tokens that were used.
pub open spec fn usage_records(usage: UsageMetadata) -> Seq<RecordView> {
    seq![
        count_record("tokens:input:audio"@, plain_prompt_tokens(usage, "AUDIO"@) as u64),
        count_record("tokens:input:text"@, plain_prompt_tokens(usage, "TEXT"@) as u64),
        count_record(
            "tokens:input:audio:cached"@,
            counted(usage.cache_tokens_details, "AUDIO"@) as u64,
        ),
        count_record(
            "tokens:input:text:cached"@,
            counted(usage.cache_tokens_details, "TEXT"@) as u64,
        ),
        count_record(
            "tokens:input:audio:tool"@,
            counted(usage.tool_use_prompt_tokens_details, "AUDIO"@) as u64,
        ),
        count_record(
            "tokens:input:text:tool"@,
            counted(usage.tool_use_prompt_tokens_details, "TEXT"@) as u64,
        ),
        count_record(
            "tokens:output:audio"@,
            counted(usage.response_tokens_details, "AUDIO"@) as u64,
        ),
        count_record(
            "tokens:output:text"@,
            counted(usage.response_tokens_details, "TEXT"@) as u64,
        ),
        count_record("tokens:thoughts"@, usage.thoughts_token_count as u64),
    ]
}

/// Puts out the bill for the tokens that were used.
pub fn bill_usage(
    out: &mut Vec<Emission<ServiceOutputEvent>>,
    billing_scope: &str,
    usage: &UsageMetadata,
) -> (r: Result<(), Error>)
    requires
        usage.countable(),
    ensures
        r is Ok <==> usage_error(*usage) is None,
        r is Ok ==> emissions(final(out)@) == emissions(old(out)@).push(
            bill_now(None, Some(billing_scope@), usage_records(*usage)),
        ),
        r matches Err(e) ==> final(out)@ == old(out)@ && e@ == seq![usage_error(*usage)->0],
{
    let prompt_audio_total: u64 = modality_count(&usage.prompt_tokens_details, "AUDIO");
    let prompt_text_total: u64 = modality_count(&usage.prompt_tokens_details, "TEXT");
    let cached_audio: u64 = modality_count(&usage.cache_tokens_details, "AUDIO");
    let cached_text: u64 = modality_count(&usage.cache_tokens_details, "TEXT");
    let tool_audio: u64 = modality_count(&usage.tool_use_prompt_tokens_details, "AUDIO");
    let tool_text: u64 = modality_count(&usage.tool_use_prompt_tokens_details, "TEXT");
    let response_audio: u64 = modality_count(&usage.response_tokens_details, "AUDIO");
    let response_text: u64 = modality_count(&usage.response_tokens_details, "TEXT");
    if prompt_audio_total < cached_audio + tool_audio {
        return Err(
            Error::new(
                "Invalid Gemini usage: prompt audio tokens less than cached+tool audio tokens",
            ),
        );
    }
    if prompt_text_total < cached_text + tool_text {
        return Err(
            Error::new(
                "Invalid Gemini usage: prompt text tokens less than cached+tool text tokens",
            ),
        );
    }
    let prompt_audio: u64 = prompt_audio_total - (cached_audio + tool_audio);
    let prompt_text: u64 = prompt_text_total - (cached_text + tool_text);
    let mut records: Vec<BillingRecord> = Vec::new();
    records.push(BillingRecord::count("tokens:input:audio", prompt_audio));
    records.push(BillingRecord::count("tokens:input:text", prompt_text));
    records.push(BillingRecord::count("tokens:input:audio:cached", cached_audio));
    records.push(BillingRecord::count("tokens:input:text:cached", cached_text));
    records.push(BillingRecord::count("tokens:input:audio:tool", tool_audio));
    records.push(BillingRecord::count("tokens:input:text:tool", tool_text));
    records.push(BillingRecord::count("tokens:output:audio", response_audio));
    records.push(BillingRecord::count("tokens:output:text", response_text));
    records.push(BillingRecord::count("tokens:thoughts", usage.thoughts_token_count as u64));
    assert(records_view(records@) =~= usage_records(*usage));
    emit(
        out,
        Emission::BillingRecords {
            request_id: None,
            scope: Some(billing_scope.to_owned()),
            records,
            schedule: BillingSchedule::Now,
        },
    );
    Ok(())
}

/// What comes of an event of the server.
pub struct Handled {
    pub state: StateView,
    pub out: Seq<EmissionView<ServiceOutputView>>,
    pub result: Result<FlowControl, Seq<char>>,
}

/// An event that changes nothing.
pub open spec fn ignored(state: StateView) -> Handled {
    Handled { state, out: Seq::empty(), result: Ok(FlowControl::Continue) }
}

/// An event that puts something out.
pub open spec fn puts_out(state: StateView, e: EmissionView<ServiceOutputView>) -> Handled {
    Handled { out: seq![e], ..ignored(state) }
}

/// The report of a function call. It travels with the audio, so that audio sent before it is
/// played before the function is executed.
pub open spec fn call_report(call: ToolCall) -> EmissionView<ServiceOutputView> {
    EmissionView::ServiceEvent {
        path: OutputPath::Media,
        event: ServiceOutputView::FunctionCall {
            call_id: call.id@,
            name: call.name@,
            arguments: json_text(call.args),
        },
    }
}

/// The report of a cancellation, which must not overtake the call.
pub open spec fn cancel_report(call_id: Seq<char>) -> EmissionView<ServiceOutputView> {
    EmissionView::ServiceEvent {
        path: OutputPath::Media,
        event: ServiceOutputView::ToolCallCancellation { call_id },
    }
}

/// Function calls are reported and noted one after the other, up to the first whose id is in use.
pub open spec fn calls_made(state: StateView, calls: Seq<ToolCall>) -> Handled
    decreases calls.len(),
{
    if calls.len() == 0 {
        ignored(state)
    } else {
        let before = calls_made(state, calls.drop_last());
        let call = calls.last();
        if before.result is Err {
            before
        } else {
            let out = before.out.push(call_report(call));
            match register_error(before.state.calls, call.id@) {
                Some(message) => Handled { out, result: Err(message), ..before },
                None => Handled {
                    state: StateView {
                        calls: before.state.calls.insert(
                            call.id@,
                            OpenCall::Pending { name: call.name@ },
                        ),
                        ..before.state
                    },
                    out,
                    ..before
                },
            }
        }
    }
}

/// Cancellations are reported and noted one after the other, up to the first that is in error.
pub open spec fn calls_canceled(state: StateView, ids: Seq<String>) -> Handled
    decreases ids.len(),
{
    if ids.len() == 0 {
        ignored(state)
    } else {
        let before = calls_canceled(state, ids.drop_last());
        let id = ids.last()@;
        if before.result is Err {
            before
        } else {
            let out = before.out.push(cancel_report(id));
            match cancel_error(before.state.calls, id) {
                Some(message) => Handled { out, result: Err(message), ..before },
                None => Handled {
                    state: StateView {
                        calls: before.state.calls.insert(id, OpenCall::Canceled),
                        ..before.state
                    },
                    out,
                    ..before
                },
            }
        }
    }
}

/// At the end of a turn the transcript is put out, if that is asked for and there is any, and the
/// next one starts from nothing.
pub open spec fn transcript_ended(
    params: Params,
    text_outputs: TextOutputs,
    state: StateView,
) -> Handled {
    let after = StateView { transcript: Seq::empty(), ..state };
    if params.output_audio_transcription && text_outputs.text && state.transcript.len() > 0 {
        puts_out(after, agent_text(true, state.transcript))
    } else {
        ignored(after)
    }
}

/// What comes of an event of the server.
pub open spec fn event_handled(
    params: Params,
    event: ServerEvent,
    output_format: AudioFormat,
    text_outputs: TextOutputs,
    billing_scope: Seq<char>,
    state: StateView,
) -> Handled {
    match event {
        ServerEvent::ModelAudio(bytes) => puts_out(
            state,
            EmissionView::Audio(
                FrameView { format: output_format, samples: samples_of(bytes@) },
            ),
        ),
        ServerEvent::TurnComplete => {
            let ended = transcript_ended(params, text_outputs, state);
            Handled {
                out: ended.out.push(EmissionView::RequestCompleted { request_id: None }),
                ..ended
            }
        },
        ServerEvent::Interrupted => puts_out(state, EmissionView::ClearAudio),
        ServerEvent::InputTranscription(text) => if params.input_audio_transcription
            && text_outputs.text {
            puts_out(state, plain_text(true, text@))
        } else {
            ignored(state)
        },
        ServerEvent::OutputTranscription(text) => {
            let after = StateView { transcript: state.transcript + text@, ..state };
            if !params.output_audio_transcription {
                ignored(state)
            } else if text_outputs.interim {
                puts_out(after, agent_text(false, after.transcript))
            } else {
                ignored(after)
            }
        },
        ServerEvent::ToolCall(calls) => calls_made(state, calls@),
        ServerEvent::ToolCallCancellation(ids) => calls_canceled(state, ids@),
        ServerEvent::Usage(usage) => match usage_error(usage) {
            Some(message) => Handled { result: Err(message), ..ignored(state) },
            None => puts_out(state, bill_now(None, Some(billing_scope), usage_records(usage))),
        },
        ServerEvent::Closed { .. } => Handled { result: Ok(FlowControl::End), ..ignored(state) },
        ServerEvent::Error { message } => Handled {
            result: Err("Gemini Live error: "@ + message@),
            ..ignored(state)
        },
        _ => ignored(state),
    }
}

/// What is to be sent for an input, and the state after it.
pub struct InputHandled {
    pub state: StateView,
    pub command: Result<Option<CommandView>, Seq<char>>,
}

/// What comes of the result of a function call. A canceled call needs no result.
pub open spec fn result_handled(
    params: Params,
    call_id: Seq<char>,
    output: Seq<char>,
    scheduling: Option<FunctionResponseScheduling>,
    state: StateView,
) -> InputHandled {
    let after = StateView { calls: state.calls.remove(call_id), ..state };
    let command = match resolve_error(state.calls, call_id) {
        Some(message) => Err(message),
        None => match resolved_name(state.calls, call_id) {
            None => Ok(None),
            Some(name) => match scheduling_error(
                params.model@,
                tools_view(params.tools@),
                name,
                scheduling,
            ) {
                Some(message) => Err(message),
                None => Ok(
                    Some(
                        CommandView::ToolResponse {
                            id: call_id,
                            name,
                            response: response_object(output),
                            scheduling,
                        },
                    ),
                ),
            },
        },
    };
    InputHandled { state: after, command }
}

/// What comes of an input.
pub open spec fn input_handled(
    params: Params,
    input: Input<Result<ServiceInputEvent, String>>,
    state: StateView,
) -> InputHandled {
    match input {
        Input::Audio { frame } => InputHandled {
            state,
            command: Ok(
                Some(
                    CommandView::Audio {
                        bytes: le_bytes(frame@.samples),
                        sample_rate: frame.format.sample_rate,
                    },
                ),
            ),
        },
        Input::Text { text, .. } => InputHandled {
            state,
            command: Ok(Some(CommandView::Text { text: text@ })),
        },
        Input::ServiceEvent { value } => match value {
            Err(cause) => InputHandled { state, command: Err(cause@) },
            Ok(ServiceInputEvent::FunctionCallResult { call_id, output, scheduling }) =>
                result_handled(params, call_id@, json_text(output), scheduling, state),
            Ok(ServiceInputEvent::ClientContent { role, text, turn_complete }) => InputHandled {
                state,
                command: Ok(Some(CommandView::ClientContent { role, text: text@, turn_complete })),
            },
            Ok(ServiceInputEvent::Prompt { text }) => InputHandled {
                state,
                command: Ok(Some(CommandView::Prompt { text: text@ })),
            },
        },
    }
}

/// The view of a command that may be absent.
pub open spec fn command_view(command: Option<Command>) -> Option<CommandView> {
    match command {
        Some(c) => Some(c@),
        None => None,
    }
}

/// Something that happens in the course of a dialog.
pub enum DialogEvent {
    /// An input of the conversation, with the service's own events read; `None` at the end.
    Input(Option<Input<Result<ServiceInputEvent, String>>>),
    /// An event of the server; `None` at the end of the stream.
    Server(Option<ServerEvent>),
}

/// How a dialog goes on: what to send, and whether to go on.
pub struct Step {
    pub command: Option<Command>,
    pub flow: FlowControl,
}

/// Whether the lists in an event are short enough, and audio has one channel.
pub open spec fn acceptable(event: DialogEvent) -> bool {
    match event {
        DialogEvent::Input(Some(Input::Audio { frame })) => frame.format.channels == 1,
        DialogEvent::Server(Some(ServerEvent::Usage(usage))) => usage.countable(),
        _ => true,
    }
}

/// The client of a dialog.
pub struct Client {
    pub params: Params,
}

impl Client {
    /// A client for the parameters.
    pub fn new(params: Params) -> (r: Client)
        ensures
            r.params == params,
    {
        Client { params }
    }

    /// What is needed to connect.
    pub fn connect_config(&self, text_outputs: TextOutputs) -> (r: Result<SessionConfig, Error>)
        ensures
            r is Ok <==> setup_error(self.params, text_outputs) is None,
            r matches Ok(config) ==> config.setup@ == crate::google_dialog::setup::setup_for(
                self.params,
            ) && config.endpoint@ == crate::google_dialog::setup::addressed_endpoint(self.params)
                && opt_view(config.api_key) == opt_view(self.params.api_key),
            r matches Err(e) ==> e@ == seq![setup_error(self.params, text_outputs)->0],
    {
        session_config(&self.params, text_outputs)
    }

    /// Processes one input and returns what is to be sent for it.
    pub fn process_input(
        &self,
        input: Input<Result<ServiceInputEvent, String>>,
        state: &mut ConversationState,
    ) -> (r: Result<Option<Command>, Error>)
        requires
            input matches Input::Audio { frame } ==> frame.format.channels == 1,
        ensures
            ({
                let h = input_handled(self.params, input, old(state)@);
                &&& final(state)@ == h.state
                &&& r is Ok <==> h.command is Ok
                &&& r matches Ok(command) ==> command_view(command) == h.command->Ok_0
                &&& r matches Err(e) ==> e@ == seq![h.command->Err_0]
            }),
            input matches Input::Audio { frame } ==> r is Ok && r->Ok_0 is Some && r->Ok_0->0 is Audio
                && r->Ok_0->0->bytes@ == le_bytes(frame.samples@) && r->Ok_0->0->sample_rate
                == frame.format.sample_rate,
            input matches Input::Text { text, .. } ==> r is Ok && r->Ok_0 is Some
                && r->Ok_0->0 is Text && r->Ok_0->0->Text_text@ == text@,
            input matches Input::ServiceEvent { value: Ok(ServiceInputEvent::Prompt { text }) }
                ==> r is Ok && r->Ok_0 is Some && r->Ok_0->0 is Prompt && r->Ok_0->0->Prompt_text@
                == text@,
    {
        match input {
            Input::Audio { frame } => Ok(
                Some(
                    Command::Audio {
                        bytes: frame.to_le_bytes(),
                        sample_rate: frame.format.sample_rate,
                    },
                ),
            ),
            Input::Text { text, .. } => Ok(Some(Command::Text { text })),
            Input::ServiceEvent { value } => match value {
                Err(cause) => Err(Error::from_text(cause)),
                Ok(ServiceInputEvent::FunctionCallResult { call_id, output, scheduling }) => {
                    let name = match state.tool_calls.resolve(call_id.as_str()) {
                        Ok(Some(name)) => name,
                        Ok(None) => return Ok(None),
                        Err(error) => return Err(error),
                    };
                    match validate_response_scheduling(&self.params, name.as_str(), scheduling) {
                        Ok(()) => {},
                        Err(error) => return Err(error),
                    }
                    Ok(
                        Some(
                            Command::ToolResponse {
                                id: call_id,
                                name,
                                response: normalize_function_response(output),
                                scheduling,
                            },
                        ),
                    )
                },
                Ok(ServiceInputEvent::ClientContent { role, text, turn_complete }) => Ok(
                    Some(Command::ClientContent { role, text, turn_complete }),
                ),
                Ok(ServiceInputEvent::Prompt { text }) => Ok(Some(Command::Prompt { text })),
            },
        }
    }

    /// Ends the transcript of the model's turn.
    pub fn finalize_output_transcription(
        &self,
        text_outputs: TextOutputs,
        out: &mut Vec<Emission<ServiceOutputEvent>>,
        state: &mut ConversationState,
    )
        ensures
            final(state)@ == transcript_ended(self.params, text_outputs, old(state)@).state,
            emissions(final(out)@) == emissions(old(out)@) + transcript_ended(
                self.params,
                text_outputs,
                old(state)@,
            ).out,
    {
        let mut buffer = String::new();
        core::mem::swap(&mut buffer, &mut state.output_transcription_buffer);
        assert(state.output_transcription_buffer@ =~= Seq::empty());
        assert(emissions(out@) + Seq::empty() =~= emissions(out@));
        if self.params.output_audio_transcription && text_outputs.text
            && !buffer.as_str().is_empty() {
            emit(
                out,
                Emission::Text {
                    is_final: true,
                    text: buffer,
                    language: None,
                    speaker: Some(Speaker::AiAgent),
                },
            );
            assert(emissions(out@) =~= emissions(old(out)@) + transcript_ended(
                self.params,
                text_outputs,
                old(state)@,
            ).out);
        }
    }

    fn process_calls(
        calls: Vec<ToolCall>,
        out: &mut Vec<Emission<ServiceOutputEvent>>,
        state: &mut ConversationState,
    ) -> (r: Result<(), Error>)
        ensures
            ({
                let h = calls_made(old(state)@, calls@);
                &&& final(state)@ == h.state
                &&& emissions(final(out)@) == emissions(old(out)@) + h.out
                &&& r is Ok <==> h.result is Ok
                &&& r is Ok ==> h.result->Ok_0 == FlowControl::Continue
                &&& r matches Err(e) ==> e@ == seq![h.result->Err_0]
            }),
    {
        let ghost all = calls@;
        assert(emissions(out@) + Seq::empty() =~= emissions(out@));
        for call in iter: calls
            invariant
                iter.seq() == all,
                state@ == calls_made(old(state)@, all.take(iter.index() as int)).state,
                emissions(out@) == emissions(old(out)@) + calls_made(
                    old(state)@,
                    all.take(iter.index() as int),
                ).out,
                calls_made(old(state)@, all.take(iter.index() as int)).result == Ok::<
                    FlowControl,
                    Seq<char>,
                >(FlowControl::Continue),
        {
            let ghost i = iter.index() as int;
            let ghost before = calls_made(old(state)@, all.take(i));
            proof {
                assert(all.take(i + 1).drop_last() =~= all.take(i));
                assert(all.take(i + 1).last() == call);
                lemma_calls_stop(old(state)@, all, i + 1);
            }
            emit(
                out,
                Emission::ServiceEvent {
                    path: OutputPath::Media,
                    event: ServiceOutputEvent::FunctionCall {
                        call_id: call.id.clone(),
                        name: call.name.clone(),
                        arguments: call.args,
                    },
                },
            );
            assert(emissions(out@) =~= emissions(old(out)@) + before.out.push(call_report(call)));
            match state.tool_calls.register(call.id, call.name) {
                Ok(()) => {},
                Err(error) => return Err(error),
            }
        }
        assert(all.take(all.len() as int) =~= all);
        Ok(())
    }

    fn process_cancellations(
        ids: Vec<String>,
        out: &mut Vec<Emission<ServiceOutputEvent>>,
        state: &mut ConversationState,
    ) -> (r: Result<(), Error>)
        ensures
            ({
                let h = calls_canceled(old(state)@, ids@);
                &&& final(state)@ == h.state
                &&& emissions(final(out)@) == emissions(old(out)@) + h.out
                &&& r is Ok <==> h.result is Ok
                &&& r is Ok ==> h.result->Ok_0 == FlowControl::Continue
                &&& r matches Err(e) ==> e@ == seq![h.result->Err_0]
            }),
    {
        let ghost all = ids@;
        assert(emissions(out@) + Seq::empty() =~= emissions(out@));
        for id in iter: ids
            invariant
                iter.seq() == all,
                state@ == calls_canceled(old(state)@, all.take(iter.index() as int)).state,
                emissions(out@) == emissions(old(out)@) + calls_canceled(
                    old(state)@,
                    all.take(iter.index() as int),
                ).out,
                calls_canceled(old(state)@, all.take(iter.index() as int)).result == Ok::<
                    FlowControl,
                    Seq<char>,
                >(FlowControl::Continue),
        {
            let ghost i = iter.index() as int;
            let ghost before = calls_canceled(old(state)@, all.take(i));
            proof {
                assert(all.take(i + 1).drop_last() =~= all.take(i));
                assert(all.take(i + 1).last() == id);
                lemma_cancellations_stop(old(state)@, all, i + 1);
            }
            emit(
                out,
                Emission::ServiceEvent {
                    path: OutputPath::Media,
                    event: ServiceOutputEvent::ToolCallCancellation { call_id: id.clone() },
                },
            );
            assert(emissions(out@) =~= emissions(old(out)@) + before.out.push(cancel_report(id@)));
            match state.tool_calls.cancel(id) {
                Ok(()) => {},
                Err(error) => return Err(error),
            }
        }
        assert(all.take(all.len() as int) =~= all);
        Ok(())
    }

    /// Processes one event of the server.
    pub fn process_event(
        &self,
        event: ServerEvent,
        output_format: AudioFormat,
        text_outputs: TextOutputs,
        out: &mut Vec<Emission<ServiceOutputEvent>>,
        billing_scope: &str,
        state: &mut ConversationState,
    ) -> (r: Result<FlowControl, Error>)
        requires
            event matches ServerEvent::Usage(usage) ==> usage.countable(),
        ensures
            ({
                let h = event_handled(
                    self.params,
                    event,
                    output_format,
                    text_outputs,
                    billing_scope@,
                    old(state)@,
                );
                &&& final(state)@ == h.state
                &&& emissions(final(out)@) == emissions(old(out)@) + h.out
                &&& r is Ok <==> h.result is Ok
                &&& r matches Ok(flow) ==> h.result->Ok_0 == flow
                &&& r matches Err(e) ==> e@ == seq![h.result->Err_0]
            }),
    {
        proof {
            assert(emissions(out@) + Seq::empty() =~= emissions(out@));
            assert forall|e: EmissionView<ServiceOutputView>| #[trigger]
                emissions(out@).push(e) == emissions(out@) + seq![e] by {
                assert(emissions(out@).push(e) =~= emissions(out@) + seq![e]);
            }
        }
        match event {
            ServerEvent::SetupComplete => {},
            ServerEvent::ModelText(_) => {},
            ServerEvent::ModelAudio(bytes) => {
                emit(out, Emission::Audio(AudioFrame::from_le_bytes(output_format, &bytes)));
            },
            ServerEvent::GenerationComplete => {},
            ServerEvent::TurnComplete => {
                self.finalize_output_transcription(text_outputs, out, state);
                let ghost before = emissions(out@);
                emit(out, Emission::RequestCompleted { request_id: None });
                assert(emissions(out@) =~= emissions(old(out)@) + transcript_ended(
                    self.params,
                    text_outputs,
                    old(state)@,
                ).out.push(EmissionView::RequestCompleted { request_id: None }));
            },
            ServerEvent::Interrupted => {
                emit(out, Emission::ClearAudio);
            },
            ServerEvent::InputTranscription(text) => {
                if self.params.input_audio_transcription && text_outputs.text {
                    emit(
                        out,
                        Emission::Text { is_final: true, text, language: None, speaker: None },
                    );
                }
            },
            ServerEvent::OutputTranscription(text) => {
                if self.params.output_audio_transcription {
                    state.output_transcription_buffer.append(text.as_str());
                    if text_outputs.interim {
                        emit(
                            out,
                            Emission::Text {
                                is_final: false,
                                text: state.output_transcription_buffer.clone(),
                                language: None,
                                speaker: Some(Speaker::AiAgent),
                            },
                        );
                    }
                }
            },
            ServerEvent::ToolCall(calls) => match Client::process_calls(calls, out, state) {
                Ok(()) => {},
                Err(error) => return Err(error),
            },
            ServerEvent::ToolCallCancellation(ids) => match Client::process_cancellations(
                ids,
                out,
                state,
            ) {
                Ok(()) => {},
                Err(error) => return Err(error),
            },
            ServerEvent::SessionResumption => {},
            ServerEvent::GoAway => {},
            ServerEvent::Other => {},
            ServerEvent::Usage(usage) => match bill_usage(out, billing_scope, &usage) {
                Ok(()) => {},
                Err(error) => return Err(error),
            },
            ServerEvent::Closed { .. } => return Ok(FlowControl::End),
            ServerEvent::Error { message } => {
                return Err(Error::from_text(concat2("Gemini Live error: ", message.as_str())));
            },
        }
        Ok(FlowControl::Continue)
    }

    /// One round of a dialog: something happened, and the client says what to send and whether to
    /// go on. When the input ends, the server is told, and the dialog ends.
    pub fn dialog(
        &self,
        event: DialogEvent,
        output_format: AudioFormat,
        text_outputs: TextOutputs,
        out: &mut Vec<Emission<ServiceOutputEvent>>,
        state: &mut ConversationState,
    ) -> (r: Result<Step, Error>)
        requires
            acceptable(event),
        ensures
            event matches DialogEvent::Input(Some(input)) ==> {
                let h = input_handled(self.params, input, old(state)@);
                &&& final(state)@ == h.state
                &&& final(out)@ == old(out)@
                &&& r is Ok <==> h.command is Ok
                &&& r matches Ok(step) ==> step.flow == FlowControl::Continue && command_view(
                    step.command,
                ) == h.command->Ok_0
                &&& r matches Err(e) ==> e@ == seq![h.command->Err_0]
            },
            event matches DialogEvent::Input(None) ==> {
                &&& *final(state) == *old(state)
                &&& final(out)@ == old(out)@
                &&& r matches Ok(step) && step.flow == FlowControl::End && command_view(
                    step.command,
                ) == Some(CommandView::AudioStreamEnd)
            },
            event matches DialogEvent::Server(Some(event)) ==> {
                let h = event_handled(
                    self.params,
                    event,
                    output_format,
                    text_outputs,
                    self.params.model@,
                    old(state)@,
                );
                &&& final(state)@ == h.state
                &&& emissions(final(out)@) == emissions(old(out)@) + h.out
                &&& r is Ok <==> h.result is Ok
                &&& r matches Ok(step) ==> h.result->Ok_0 == step.flow && step.command is None
                &&& r matches Err(e) ==> e@ == seq![h.result->Err_0]
            },
            event matches DialogEvent::Server(None) ==> {
                &&& *final(state) == *old(state)
                &&& final(out)@ == old(out)@
                &&& r matches Ok(step) && step.flow == FlowControl::End && step.command is None
            },
    {
        match event {
            DialogEvent::Input(Some(input)) => match self.process_input(input, state) {
                Ok(command) => Ok(Step { command, flow: FlowControl::Continue }),
                Err(error) => Err(error),
            },
            DialogEvent::Input(None) => Ok(
                Step { command: Some(Command::AudioStreamEnd), flow: FlowControl::End },
            ),
            DialogEvent::Server(Some(event)) => match self.process_event(
                event,
                output_format,
                text_outputs,
                out,
                self.params.model.as_str(),
                state,
            ) {
                Ok(flow) => Ok(Step { command: None, flow }),
                Err(error) => Err(error),
            },
            DialogEvent::Server(None) => Ok(Step { command: None, flow: FlowControl::End }),
        }
    }
}

proof fn lemma_calls_stop(state: StateView, calls: Seq<ToolCall>, n: int)
    requires
        0 <= n <= calls.len(),
    ensures
        calls_made(state, calls.take(n)).result is Err ==> calls_made(state, calls) == calls_made(
            state,
            calls.take(n),
        ),
    decreases calls.len() - n,
{
    if n < calls.len() {
        lemma_calls_stop(state, calls, n + 1);
        assert(calls.take(n + 1).drop_last() =~= calls.take(n));
    } else {
        assert(calls.take(n) =~= calls);
    }
}

proof fn lemma_cancellations_stop(state: StateView, ids: Seq<String>, n: int)
    requires
        0 <= n <= ids.len(),
    ensures
        calls_canceled(state, ids.take(n)).result is Err ==> calls_canceled(state, ids)
            == calls_canceled(state, ids.take(n)),
    decreases ids.len() - n,
{
    if n < ids.len() {
        lemma_cancellations_stop(state, ids, n + 1);
        assert(ids.take(n + 1).drop_last() =~= ids.take(n));
    } else {
        assert(ids.take(n) =~= ids);
    }
}

/// What comes of several events of the server, one after the other, up to the first that ends the
/// dialog.
pub open spec fn events_handled(
    params: Params,
    events: Seq<ServerEvent>,
    output_format: AudioFormat,
    text_outputs: TextOutputs,
    billing_scope: Seq<char>,
    state: StateView,
) -> Handled
    decreases events.len(),
{
    if events.len() == 0 {
        ignored(state)
    } else {
        let before = events_handled(
            params,
            events.drop_last(),
            output_format,
            text_outputs,
            billing_scope,
            state,
        );
        if before.result is Err || before.result->Ok_0 == FlowControl::End {
            before
        } else {
            let last = event_handled(
                params,
                events.last(),
                output_format,
                text_outputs,
                billing_scope,
                before.state,
            );
            Handled { out: before.out + last.out, ..last }
        }
    }
}

/// The pieces of a transcript, one after the other.
pub open spec fn pieces(events: Seq<ServerEvent>) -> Seq<char>
    decreases events.len(),
{
    if events.len() == 0 {
        Seq::empty()
    } else {
        pieces(events.drop_last()) + match events.last() {
            ServerEvent::OutputTranscription(text) => text@,
            _ => Seq::empty(),
        }
    }
}

/// Pieces of a transcript add up over a turn, also if the participant interrupts it, and the end of
/// the turn puts out the whole as final text.
pub proof fn law_turn_transcript(
    params: Params,
    events: Seq<ServerEvent>,
    output_format: AudioFormat,
    text_outputs: TextOutputs,
    billing_scope: Seq<char>,
    state: StateView,
)
    requires
        params.output_audio_transcription,
        forall|i: int|
            0 <= i < events.len() ==> (#[trigger] events[i]) is OutputTranscription || events[i]
                is ModelAudio || events[i] is Interrupted,
    ensures
        ({
            let h = events_handled(
                params,
                events,
                output_format,
                text_outputs,
                billing_scope,
                state,
            );
            let end = event_handled(
                params,
                ServerEvent::TurnComplete,
                output_format,
                text_outputs,
                billing_scope,
                h.state,
            );
            let whole = state.transcript + pieces(events);
            &&& h.result == Ok::<FlowControl, Seq<char>>(FlowControl::Continue)
            &&& h.state == (StateView { transcript: whole, ..state })
            &&& end.state.transcript.len() == 0
            &&& text_outputs.text && whole.len() > 0 ==> end.out == seq![
                agent_text::<ServiceOutputView>(true, whole),
                EmissionView::RequestCompleted { request_id: None },
            ]
        }),
    decreases events.len(),
{
    let whole = state.transcript + pieces(events);
    if events.len() > 0 {
        let before = events.drop_last();
        assert forall|i: int| 0 <= i < before.len() implies (#[trigger] before[i])
            is OutputTranscription || before[i] is ModelAudio || before[i] is Interrupted by {
            assert(before[i] == events[i]);
        }
        law_turn_transcript(
            params,
            before,
            output_format,
            text_outputs,
            billing_scope,
            state,
        );
        assert(events.last() == events[events.len() - 1]);
        match events.last() {
            ServerEvent::OutputTranscription(text) => {
                assert(state.transcript + pieces(before) + text@ =~= whole);
            },
            _ => {
                assert(state.transcript + pieces(before) =~= whole);
            },
        }
    } else {
        assert(whole =~= state.transcript);
    }
    if text_outputs.text && whole.len() > 0 {
        assert(seq![agent_text::<ServiceOutputView>(true, whole)].push(
            EmissionView::RequestCompleted { request_id: None },
        ) =~= seq![agent_text::<ServiceOutputView>(true, whole), EmissionView::RequestCompleted { request_id: None }]);
    }
}

proof fn lemma_reports_are_events(state: StateView, calls: Seq<ToolCall>, ids: Seq<String>)
    ensures
        forall|i: int|
            0 <= i < calls_made(state, calls).out.len() ==> (#[trigger] calls_made(
                state,
                calls,
            ).out[i]) is ServiceEvent,
        forall|i: int|
            0 <= i < calls_canceled(state, ids).out.len() ==> (#[trigger] calls_canceled(
                state,
                ids,
            ).out[i]) is ServiceEvent,
    decreases calls.len() + ids.len(),
{
    if calls.len() > 0 {
        lemma_reports_are_events(state, calls.drop_last(), ids);
    }
    if ids.len() > 0 {
        lemma_reports_are_events(state, calls, ids.drop_last());
    }
}

/// Text is put out only for what is asked to be transcribed.
pub proof fn law_no_text_without_transcription(
    params: Params,
    event: ServerEvent,
    output_format: AudioFormat,
    text_outputs: TextOutputs,
    billing_scope: Seq<char>,
    state: StateView,
)
    requires
        !params.input_audio_transcription,
        !params.output_audio_transcription,
    ensures
        ({
            let h = event_handled(
                params,
                event,
                output_format,
                text_outputs,
                billing_scope,
                state,
            );
            forall|i: int| 0 <= i < h.out.len() ==> !((#[trigger] h.out[i]) is Text)
        }),
{
    match event {
        ServerEvent::ToolCall(calls) => lemma_reports_are_events(state, calls@, Seq::empty()),
        ServerEvent::ToolCallCancellation(ids) => lemma_reports_are_events(
            state,
            Seq::empty(),
            ids@,
        ),
        _ => {},
    }
}

/// Every token of a prompt is billed once: as a cached one, as one of a tool, or as neither.
pub proof fn law_prompt_tokens_are_billed_once(usage: UsageMetadata)
    requires
        usage.countable(),
        usage_error(usage) is None,
    ensures
        ({
            let r = usage_records(usage);
            &&& r[0].value->Count_0 + r[2].value->Count_0 + r[4].value->Count_0 == counted(
                usage.prompt_tokens_details,
                "AUDIO"@,
            )
            &&& r[1].value->Count_0 + r[3].value->Count_0 + r[5].value->Count_0 == counted(
                usage.prompt_tokens_details,
                "TEXT"@,
            )
        }),
{
}

/// The result of a function is sent in an object in any case.
pub proof fn law_results_are_objects(output: Seq<char>)
    ensures
        is_object_text(response_object(output)),
{
    reveal_strlit("{\"");
    if !is_object_text(output) {
        assert(response_object(output)[0] == '{');
    }
}

} // verus!

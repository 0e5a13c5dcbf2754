//! Streaming synthesis, one context per request on one socket.
//!
//! The server closes a context on its own if no text comes in for a while, and drops what it had
//! buffered. So that pauses between the fragments of a request do not truncate it, the longest
//! documented time is asked for.

use vstd::prelude::*;

use crate::audio::samples_of;
use crate::audio::AudioFormat;
use crate::audio::AudioFrame;
use crate::audio::FrameView;
use crate::base64_codec::base64_bytes;
use crate::base64_codec::base64_error;
use crate::base64_codec::decode_base64;
use crate::base64_codec::is_base64;
use crate::elevenlabs::synthesis_state::request_id_changed;
use crate::elevenlabs::synthesis_state::Phase;
use crate::elevenlabs::synthesis_state::SynthesisState;
use crate::elevenlabs::synthesis_state::SynthesisView;
use crate::error::Error;
use crate::input::Input;
use crate::input::SocketMessage;
use crate::output::bill_now;
use crate::output::count_record;
use crate::output::emissions;
use crate::output::emit;
use crate::output::records_view;
use crate::output::BillingRecord;
use crate::output::BillingSchedule;
use crate::output::Emission;
use crate::output::EmissionView;
use crate::text::as_opt_str;
use crate::text::concat2;
use crate::text::concat3;
use crate::text::decimal;
use crate::text::decimal_text;
use crate::text::opt_str_view;
use crate::text::opt_view;
use crate::text::same_text;
use crate::text::texts;
use crate::text::trim_end;
use crate::text::trimmed_end;
use crate::urls::add_pairs;
use crate::urls::add_segments;
use crate::urls::pair_texts;
use crate::urls::pair_if;
use crate::urls::push_pair;
use crate::urls::push_pair_if;
use crate::urls::read_url;
use crate::urls::text_of;
use crate::urls::url_read;
use crate::urls::url_with_pairs;
use crate::urls::url_with_segments;

verus! {

/// The synthesis service.
#[derive(Debug, Clone, Copy, PartialEq, Eq, Structural)]
pub struct ElevenLabsSynthesize;

/// The parameters of the service.
pub struct Params {
    pub api_key: String,
    /// The id of the voice.
    pub voice: String,
    pub model: Option<String>,
    /// Another host to connect to, without a path.
    pub endpoint: Option<String>,
    /// An ISO 639-1 code of the language.
    pub language: Option<String>,
    /// Sent with the opening fragment of each request.
    pub voice_settings: Option<VoiceSettings>,
    /// Sent with the opening fragment of each request.
    pub generation_config: Option<GenerationConfig>,
    pub apply_text_normalization: Option<TextNormalization>,
    pub auto_mode: Option<bool>,
}

/// Whether numbers, dates and symbols are spelled out.
#[derive(Debug, Clone, Copy, PartialEq, Eq, Structural)]
pub enum TextNormalization {
    /// The server decides.
    Auto,
    /// Always.
    On,
    /// Never.
    Off,
}

/// The name of a normalization mode.
pub open spec fn normalization_name(mode: TextNormalization) -> Seq<char> {
    match mode {
        TextNormalization::Auto => "auto"@,
        TextNormalization::On => "on"@,
        TextNormalization::Off => "off"@,
    }
}

impl TextNormalization {
    /// The name of the mode.
    pub fn as_str(self) -> (r: &'static str)
        ensures
            r@ == normalization_name(self),
    {
        match self {
            TextNormalization::Auto => "auto",
            TextNormalization::On => "on",
            TextNormalization::Off => "off",
        }
    }
}

/// How the voice sounds. Numbers are the bits of 64 bit floating point numbers.
#[derive(Debug, Clone, Copy, PartialEq, Eq, Structural)]
pub struct VoiceSettings {
    pub stability_bits: Option<u64>,
    pub similarity_boost_bits: Option<u64>,
    pub style_bits: Option<u64>,
    pub use_speaker_boost: Option<bool>,
    pub speed_bits: Option<u64>,
}

/// How audio is generated.
pub struct GenerationConfig {
    /// How many characters have to be buffered before each of the first chunks of audio.
    pub chunk_length_schedule: Option<Vec<u32>>,
}

/// The schedule of a configuration that may be absent.
pub open spec fn schedule_view(config: Option<GenerationConfig>) -> Option<Option<Seq<u32>>> {
    match config {
        Some(GenerationConfig { chunk_length_schedule: Some(schedule) }) => Some(Some(schedule@)),
        Some(GenerationConfig { chunk_length_schedule: None }) => Some(None),
        None => None,
    }
}

/// A copy of a configuration that may be absent.
fn clone_config(config: &Option<GenerationConfig>) -> (r: Option<GenerationConfig>)
    ensures
        schedule_view(r) == schedule_view(*config),
{
    match config {
        Some(config) => Some(
            GenerationConfig {
                chunk_length_schedule: match &config.chunk_length_schedule {
                    Some(schedule) => {
                        let mut copy: Vec<u32> = Vec::new();
                        copy.extend_from_slice(schedule.as_slice());
                        assert(copy@ =~= schedule@);
                        Some(copy)
                    },
                    None => None,
                },
            },
        ),
        None => None,
    }
}

/// A message to the server.
pub enum OutboundMessage {
    /// Text to synthesize.
    Text {
        text: String,
        context_id: String,
        voice_settings: Option<VoiceSettings>,
        generation_config: Option<GenerationConfig>,
    },
    /// Generate audio for what is buffered.
    Flush { context_id: String },
    /// Close a context, so that the server reports when it is finished.
    CloseContext { context_id: String },
    /// Close the socket.
    CloseSocket,
}

/// A message to the server, as mathematical values.
pub enum OutboundView {
    Text {
        text: Seq<char>,
        context_id: Seq<char>,
        voice_settings: Option<VoiceSettings>,
        schedule: Option<Option<Seq<u32>>>,
    },
    Flush { context_id: Seq<char> },
    CloseContext { context_id: Seq<char> },
    CloseSocket,
}

impl View for OutboundMessage {
    type V = OutboundView;

    open spec fn view(&self) -> OutboundView {
        match *self {
            OutboundMessage::Text { text, context_id, voice_settings, generation_config } =>
                OutboundView::Text {
                    text: text@,
                    context_id: context_id@,
                    voice_settings,
                    schedule: schedule_view(generation_config),
                },
            OutboundMessage::Flush { context_id } => OutboundView::Flush {
                context_id: context_id@,
            },
            OutboundMessage::CloseContext { context_id } => OutboundView::CloseContext {
                context_id: context_id@,
            },
            OutboundMessage::CloseSocket => OutboundView::CloseSocket,
        }
    }
}

/// The views of a list of messages.
pub open spec fn outbound_view(sent: Seq<OutboundMessage>) -> Seq<OutboundView> {
    sent.map_values(|m: OutboundMessage| m@)
}

fn send(sent: &mut Vec<OutboundMessage>, message: OutboundMessage)
    ensures
        outbound_view(final(sent)@) == outbound_view(old(sent)@).push(message@),
{
    sent.push(message);
    assert(outbound_view(sent@) =~= outbound_view(old(sent)@).push(message@));
}

/// The message for a fragment. The text ends with a single space. Voice settings and configuration
/// go with the fragment that opens a context, and with no other.
pub open spec fn fragment_message(
    text: Seq<char>,
    context_id: Seq<char>,
    opens: bool,
    voice_settings: Option<VoiceSettings>,
    schedule: Option<Option<Seq<u32>>>,
) -> OutboundView {
    OutboundView::Text {
        text: trimmed_end(text) + " "@,
        context_id,
        voice_settings: if opens {
            voice_settings
        } else {
            None
        },
        schedule: if opens {
            schedule
        } else {
            None
        },
    }
}

/// The bill for a fragment: its characters.
pub open spec fn fragment_bill(request_id: Option<Seq<char>>, text: Seq<char>) -> EmissionView<()> {
    bill_now(request_id, None, seq![count_record("output:characters"@, text.len() as u64)])
}

/// The messages that end a request: what is buffered is generated first, or the end of the request
/// could be truncated.
pub open spec fn closing_messages(context_id: Seq<char>) -> Seq<OutboundView> {
    seq![OutboundView::Flush { context_id }, OutboundView::CloseContext { context_id }]
}

/// Streams a fragment: opens or continues the context, sends the text and bills it. Returns the id
/// of the context.
pub fn send_text_fragment(
    state: &mut SynthesisState,
    sent: &mut Vec<OutboundMessage>,
    out: &mut Vec<Emission<()>>,
    request_id: Option<String>,
    text: &str,
    voice_settings: Option<VoiceSettings>,
    generation_config: &Option<GenerationConfig>,
) -> (r: Result<String, Error>)
    requires
        old(state)@.accepts_input(),
        old(state)@.phase is Accepting ==> old(state).next_id < u64::MAX,
    ensures
        r is Err <==> old(state)@.changes_request(opt_view(request_id)),
        r matches Err(e) ==> e@ == seq![request_id_changed()] && *final(state) == *old(state)
            && final(sent)@ == old(sent)@ && final(out)@ == old(out)@,
        r matches Ok(id) ==> {
            let after = old(state)@.recorded(opt_view(request_id));
            &&& final(state)@ == after
            &&& after.live_id() == Some(id@)
            &&& outbound_view(final(sent)@) == outbound_view(old(sent)@).push(
                fragment_message(
                    text@,
                    id@,
                    old(state)@.phase is Accepting,
                    voice_settings,
                    schedule_view(*generation_config),
                ),
            )
            &&& emissions(final(out)@) == emissions(old(out)@).push(
                fragment_bill(after.billed_request(), text@),
            )
        },
{
    let opens = match &state.phase {
        Phase::Accepting => true,
        _ => false,
    };
    let context_id = match state.record_fragment(request_id) {
        Ok(id) => id,
        Err(error) => return Err(error),
    };
    let trimmed = trim_end(text);
    let message = OutboundMessage::Text {
        text: concat2(trimmed.as_str(), " "),
        context_id: context_id.clone(),
        voice_settings: if opens {
            voice_settings
        } else {
            None
        },
        generation_config: if opens {
            clone_config(generation_config)
        } else {
            None
        },
    };
    send(sent, message);
    let mut records: Vec<BillingRecord> = Vec::new();
    records.push(BillingRecord::count("output:characters", text.unicode_len() as u64));
    assert(records_view(records@) =~= seq![
        count_record("output:characters"@, text@.len() as u64),
    ]);
    emit(
        out,
        Emission::BillingRecords {
            request_id: state.active_request_id(),
            scope: None,
            records,
            schedule: BillingSchedule::Now,
        },
    );
    Ok(context_id)
}

/// Flushes and closes the context, and pauses the input.
pub fn finalize_context(
    state: &mut SynthesisState,
    sent: &mut Vec<OutboundMessage>,
    context_id: &str,
)
    ensures
        final(state)@ == old(state)@.finalized(),
        outbound_view(final(sent)@) == outbound_view(old(sent)@) + closing_messages(context_id@),
{
    send(sent, OutboundMessage::Flush { context_id: context_id.to_owned() });
    send(sent, OutboundMessage::CloseContext { context_id: context_id.to_owned() });
    assert(outbound_view(sent@) =~= outbound_view(old(sent)@) + closing_messages(context_id@));
    state.finalize();
}

/// The messages at the end of the input: the context of a request that is not complete is flushed,
/// then the socket is closed.
pub open spec fn end_messages(state: SynthesisView) -> Seq<OutboundView> {
    match state.interrupted() {
        Some(context) => seq![
            OutboundView::Flush { context_id: context.id },
            OutboundView::CloseSocket,
        ],
        None => seq![OutboundView::CloseSocket],
    }
}

/// Handles the end of the input.
pub fn handle_input_end(state: &mut SynthesisState, sent: &mut Vec<OutboundMessage>)
    ensures
        final(state)@ == old(state)@.input_closed(),
        outbound_view(final(sent)@) == outbound_view(old(sent)@) + end_messages(old(state)@),
{
    match state.close_input() {
        Some(context_id) => {
            send(sent, OutboundMessage::Flush { context_id });
        },
        None => {},
    }
    send(sent, OutboundMessage::CloseSocket);
    assert(outbound_view(sent@) =~= outbound_view(old(sent)@) + end_messages(old(state)@));
}

/// An event of the server.
pub struct ServerEvent {
    /// Audio, as base64 text.
    pub audio: Option<String>,
    pub is_final: Option<bool>,
    pub context_id: Option<String>,
    pub message: Option<String>,
    pub error: Option<String>,
}

/// What the caller has to do about a message of the server.
#[derive(Debug, Clone, Copy, PartialEq, Eq, Structural)]
pub enum ServerOutcome {
    /// Nothing.
    Continue,
    /// Complete the request: the active context is finished.
    Final,
}

/// What comes of a message of the server.
pub struct Received {
    pub out: Seq<EmissionView<()>>,
    pub result: Result<ServerOutcome, Seq<Seq<char>>>,
}

/// Whether an event is about another context than the active one.
pub open spec fn is_stale(event: ServerEvent, active_context_id: Option<Seq<char>>) -> bool {
    event.context_id is Some && opt_view(event.context_id) != active_context_id
}

/// Whether an event brings audio.
pub open spec fn has_audio(event: ServerEvent) -> bool {
    event.audio is Some && event.audio->0@.len() > 0
}

/// What comes of an event of the server.
pub open spec fn event_received(
    raw: Seq<char>,
    event: Result<ServerEvent, String>,
    output_format: AudioFormat,
    active_context_id: Option<Seq<char>>,
) -> Received {
    match event {
        Err(cause) => Received {
            out: Seq::empty(),
            result: Err(seq!["Parsing ElevenLabs TTS server event: "@ + raw, cause@]),
        },
        Ok(event) => {
            let outcome = if event.is_final == Some(true) {
                ServerOutcome::Final
            } else {
                ServerOutcome::Continue
            };
            if event.error is Some {
                Received {
                    out: Seq::empty(),
                    result: Err(seq!["ElevenLabs realtime TTS error: "@ + event.error->0@]),
                }
            } else if is_stale(event, active_context_id) {
                Received { out: Seq::empty(), result: Ok(ServerOutcome::Continue) }
            } else if !has_audio(event) {
                Received { out: Seq::empty(), result: Ok(outcome) }
            } else if is_base64(event.audio->0@) {
                Received {
                    out: seq![
                        EmissionView::Audio(
                            FrameView {
                                format: output_format,
                                samples: samples_of(base64_bytes(event.audio->0@)),
                            },
                        ),
                    ],
                    result: Ok(outcome),
                }
            } else {
                Received {
                    out: Seq::empty(),
                    result: Err(
                        seq!["Decoding ElevenLabs audio chunk"@, base64_error(event.audio->0@)],
                    ),
                }
            }
        },
    }
}

/// What comes of a message of the server. Messages without text are left to the socket.
pub open spec fn message_received(
    message: SocketMessage<ServerEvent>,
    output_format: AudioFormat,
    active_context_id: Option<Seq<char>>,
) -> Received {
    match message {
        SocketMessage::Text { raw, event } => event_received(
            raw@,
            event,
            output_format,
            active_context_id,
        ),
        _ => Received { out: Seq::empty(), result: Ok(ServerOutcome::Continue) },
    }
}

/// Processes an event of the server, which was read from `raw`.
pub fn process_server_json(
    raw: &str,
    event: Result<ServerEvent, String>,
    out: &mut Vec<Emission<()>>,
    output_format: AudioFormat,
    active_context_id: Option<&str>,
) -> (r: Result<ServerOutcome, Error>)
    ensures
        ({
            let h = event_received(raw@, event, output_format, opt_str_view(active_context_id));
            &&& emissions(final(out)@) == emissions(old(out)@) + h.out
            &&& r is Ok <==> h.result is Ok
            &&& r matches Ok(outcome) ==> h.result->Ok_0 == outcome
            &&& r matches Err(e) ==> h.result->Err_0 == e@
        }),
{
    assert(emissions(out@) + Seq::empty() =~= emissions(out@));
    let event = match event {
        Ok(event) => event,
        Err(cause) => {
            let outer = concat2("Parsing ElevenLabs TTS server event: ", raw);
            let error = Error::from_text(cause).context(outer.as_str());
            assert(error@ =~= seq![outer@, cause@]);
            return Err(error);
        },
    };
    match &event.error {
        Some(error) => {
            return Err(
                Error::from_text(concat2("ElevenLabs realtime TTS error: ", error.as_str())),
            );
        },
        None => {},
    }
    match &event.context_id {
        Some(context_id) => {
            let active = match active_context_id {
                Some(id) => same_text(id, context_id.as_str()),
                None => false,
            };
            if !active {
                return Ok(ServerOutcome::Continue);
            }
        },
        None => {},
    }
    match &event.audio {
        Some(audio) => {
            if !audio.as_str().is_empty() {
                match decode_base64(audio.as_str()) {
                    Ok(bytes) => {
                        emit(
                            out,
                            Emission::Audio(AudioFrame::from_le_bytes(output_format, &bytes)),
                        );
                        assert(emissions(out@) =~= emissions(old(out)@) + seq![
                            EmissionView::Audio(
                                FrameView {
                                    format: output_format,
                                    samples: samples_of(base64_bytes(audio@)),
                                },
                            ),
                        ]);
                    },
                    Err(error) => {
                        let error = error.context("Decoding ElevenLabs audio chunk");
                        assert(error@ =~= seq![
                            "Decoding ElevenLabs audio chunk"@,
                            base64_error(audio@),
                        ]);
                        return Err(error);
                    },
                }
            }
        },
        None => {},
    }
    match event.is_final {
        Some(true) => Ok(ServerOutcome::Final),
        _ => Ok(ServerOutcome::Continue),
    }
}

/// Processes a message of the server.
pub fn process_server_message(
    message: SocketMessage<ServerEvent>,
    out: &mut Vec<Emission<()>>,
    output_format: AudioFormat,
    active_context_id: Option<&str>,
) -> (r: Result<ServerOutcome, Error>)
    ensures
        ({
            let h = message_received(message, output_format, opt_str_view(active_context_id));
            &&& emissions(final(out)@) == emissions(old(out)@) + h.out
            &&& r is Ok <==> h.result is Ok
            &&& r matches Ok(outcome) ==> h.result->Ok_0 == outcome
            &&& r matches Err(e) ==> h.result->Err_0 == e@
        }),
{
    assert(emissions(out@) + Seq::empty() =~= emissions(out@));
    match message {
        SocketMessage::Text { raw, event } => process_server_json(
            raw.as_str(),
            event,
            out,
            output_format,
            active_context_id,
        ),
        _ => Ok(ServerOutcome::Continue),
    }
}

/// Something that happens in the course of a conversation.
pub enum SynthesisEvent {
    /// An input; `None` at the end.
    Input(Option<Input<()>>),
    /// A message of the server, or a failure of the socket; `None` when the socket is closed.
    Message(Option<Result<SocketMessage<ServerEvent>, String>>),
}

/// Whether the loop goes on.
#[derive(Debug, Clone, Copy, PartialEq, Eq, Structural)]
pub enum LoopControl {
    Continue,
    End,
}

/// What comes of something that happens.
pub struct Handled {
    pub state: SynthesisView,
    pub sent: Seq<OutboundView>,
    pub out: Seq<EmissionView<()>>,
    pub result: Result<LoopControl, Seq<Seq<char>>>,
}

/// Something that changes nothing.
pub open spec fn unchanged(state: SynthesisView) -> Handled {
    Handled { state, sent: Seq::empty(), out: Seq::empty(), result: Ok(LoopControl::Continue) }
}

/// What comes of a fragment. The last one of a request also ends it.
pub open spec fn fragment_handled(
    state: SynthesisView,
    request_id: Option<Seq<char>>,
    text: Seq<char>,
    is_final: bool,
    voice_settings: Option<VoiceSettings>,
    schedule: Option<Option<Seq<u32>>>,
) -> Handled {
    if state.changes_request(request_id) {
        Handled { result: Err(seq![request_id_changed()]), ..unchanged(state) }
    } else {
        let after = state.recorded(request_id);
        let id = after.live_id()->0;
        let message = fragment_message(
            text,
            id,
            state.phase is Accepting,
            voice_settings,
            schedule,
        );
        Handled {
            state: if is_final {
                after.finalized()
            } else {
                after
            },
            sent: if is_final {
                seq![message] + closing_messages(id)
            } else {
                seq![message]
            },
            out: seq![fragment_bill(after.billed_request(), text)],
            result: Ok(LoopControl::Continue),
        }
    }
}

/// What comes of a message of the server.
pub open spec fn message_handled(
    state: SynthesisView,
    message: SocketMessage<ServerEvent>,
    output_format: AudioFormat,
) -> Handled {
    let received = message_received(message, output_format, state.live_id());
    match received.result {
        Err(chain) => Handled { out: received.out, result: Err(chain), ..unchanged(state) },
        Ok(ServerOutcome::Continue) => Handled { out: received.out, ..unchanged(state) },
        Ok(ServerOutcome::Final) => Handled {
            out: received.out.push(
                EmissionView::RequestCompleted { request_id: state.completed_request() },
            ),
            ..unchanged(state.completed())
        },
    }
}

/// What comes of something that happens.
pub open spec fn handled(
    state: SynthesisView,
    event: SynthesisEvent,
    output_format: AudioFormat,
    voice_settings: Option<VoiceSettings>,
    schedule: Option<Option<Seq<u32>>>,
) -> Handled {
    match event {
        SynthesisEvent::Input(Some(Input::Text { request_id, text, is_final, .. })) =>
            fragment_handled(
                state,
                opt_view(request_id),
                text@,
                is_final,
                voice_settings,
                schedule,
            ),
        SynthesisEvent::Input(Some(_)) => Handled {
            result: Err(seq!["ElevenLabs synthesize received non-text input"@]),
            ..unchanged(state)
        },
        SynthesisEvent::Input(None) => Handled {
            sent: end_messages(state),
            ..unchanged(state.input_closed())
        },
        SynthesisEvent::Message(Some(Ok(message))) => message_handled(
            state,
            message,
            output_format,
        ),
        SynthesisEvent::Message(Some(Err(cause))) => Handled {
            result: Err(seq!["Error reading ElevenLabs websocket: "@ + cause@]),
            ..unchanged(state)
        },
        SynthesisEvent::Message(None) => Handled {
            result: if state.is_closing() {
                Ok(LoopControl::End)
            } else {
                Err(seq!["ElevenLabs websocket closed before synthesis completed"@])
            },
            ..unchanged(state)
        },
    }
}

/// One round of the loop of a conversation. Input may come only while it is accepted.
pub fn run_conversation_loop(
    state: &mut SynthesisState,
    event: SynthesisEvent,
    output_format: AudioFormat,
    voice_settings: Option<VoiceSettings>,
    generation_config: &Option<GenerationConfig>,
    sent: &mut Vec<OutboundMessage>,
    out: &mut Vec<Emission<()>>,
) -> (r: Result<LoopControl, Error>)
    requires
        event is Input ==> old(state)@.accepts_input(),
        event matches SynthesisEvent::Input(Some(Input::Text { .. })) && old(state)@.phase is Accepting
            ==> old(state).next_id < u64::MAX,
    ensures
        ({
            let h = handled(
                old(state)@,
                event,
                output_format,
                voice_settings,
                schedule_view(*generation_config),
            );
            &&& final(state)@ == h.state
            &&& outbound_view(final(sent)@) == outbound_view(old(sent)@) + h.sent
            &&& emissions(final(out)@) == emissions(old(out)@) + h.out
            &&& r is Ok <==> h.result is Ok
            &&& r matches Ok(control) ==> h.result->Ok_0 == control
            &&& r matches Err(e) ==> h.result->Err_0 == e@
        }),
{
    proof {
        assert(emissions(out@) + Seq::empty() =~= emissions(out@));
        assert(outbound_view(sent@) + Seq::empty() =~= outbound_view(sent@));
    }
    match event {
        SynthesisEvent::Input(Some(Input::Text { request_id, text, is_final, .. })) => {
            let context_id = match send_text_fragment(
                state,
                sent,
                out,
                request_id,
                text.as_str(),
                voice_settings,
                generation_config,
            ) {
                Ok(id) => id,
                Err(error) => return Err(error),
            };
            if is_final {
                finalize_context(state, sent, context_id.as_str());
            }
            proof {
                let h = handled(
                    old(state)@,
                    event,
                    output_format,
                    voice_settings,
                    schedule_view(*generation_config),
                );
                assert(outbound_view(sent@) =~= outbound_view(old(sent)@) + h.sent);
                assert(emissions(out@) =~= emissions(old(out)@) + h.out);
            }
            Ok(LoopControl::Continue)
        },
        SynthesisEvent::Input(Some(_)) => Err(
            Error::new("ElevenLabs synthesize received non-text input"),
        ),
        SynthesisEvent::Input(None) => {
            handle_input_end(state, sent);
            Ok(LoopControl::Continue)
        },
        SynthesisEvent::Message(Some(Ok(message))) => {
            let outcome = match process_server_message(
                message,
                out,
                output_format,
                state.active_context_id(),
            ) {
                Ok(outcome) => outcome,
                Err(error) => return Err(error),
            };
            match outcome {
                ServerOutcome::Final => {
                    let request_id = state.context_finalized();
                    let ghost before = emissions(out@);
                    emit(out, Emission::RequestCompleted { request_id });
                    assert(emissions(out@) =~= emissions(old(out)@) + message_handled(
                        old(state)@,
                        message,
                        output_format,
                    ).out);
                },
                ServerOutcome::Continue => {},
            }
            Ok(LoopControl::Continue)
        },
        SynthesisEvent::Message(Some(Err(cause))) => Err(
            Error::from_text(concat2("Error reading ElevenLabs websocket: ", cause.as_str())),
        ),
        SynthesisEvent::Message(None) => {
            if state.is_closing() {
                Ok(LoopControl::End)
            } else {
                Err(Error::new("ElevenLabs websocket closed before synthesis completed"))
            }
        },
    }
}

/// The name of the encoding for a format, if there is one.
pub open spec fn pcm_format(sample_rate: u32) -> Option<Seq<char>> {
    if sample_rate == 8_000 {
        Some("pcm_8000"@)
    } else if sample_rate == 16_000 {
        Some("pcm_16000"@)
    } else if sample_rate == 22_050 {
        Some("pcm_22050"@)
    } else if sample_rate == 24_000 {
        Some("pcm_24000"@)
    } else if sample_rate == 44_100 {
        Some("pcm_44100"@)
    } else {
        None
    }
}

/// What is wrong with a format, if anything.
pub open spec fn output_format_error(format: AudioFormat) -> Option<Seq<char>> {
    if format.channels != 1 {
        Some("ElevenLabs realtime TTS requires mono output audio"@)
    } else if pcm_format(format.sample_rate) is None {
        Some(
            "Unsupported output sample rate "@ + decimal(format.sample_rate as nat)
                + " for ElevenLabs realtime TTS. Supported sample rates: 8000, 16000, 22050, 24000, 44100 Hz"@,
        )
    } else {
        None
    }
}

/// The name of the encoding for a format: one channel, and one of five sample rates.
pub fn resolve_output_format(output_format: AudioFormat) -> (r: Result<&'static str, Error>)
    ensures
        r is Ok <==> output_format_error(output_format) is None,
        r matches Ok(name) ==> Some(name@) == pcm_format(output_format.sample_rate),
        r matches Err(e) ==> e@ == seq![output_format_error(output_format)->0],
{
    if output_format.channels != 1 {
        return Err(Error::new("ElevenLabs realtime TTS requires mono output audio"));
    }
    match output_format.sample_rate {
        8_000 => Ok("pcm_8000"),
        16_000 => Ok("pcm_16000"),
        22_050 => Ok("pcm_22050"),
        24_000 => Ok("pcm_24000"),
        44_100 => Ok("pcm_44100"),
        _ => {
            let rate = decimal_text(output_format.sample_rate as u64);
            Err(
                Error::from_text(
                    concat3(
                        "Unsupported output sample rate ",
                        rate.as_str(),
                        " for ElevenLabs realtime TTS. Supported sample rates: 8000, 16000, 22050, 24000, 44100 Hz",
                    ),
                ),
            )
        },
    }
}

/// The segments that are added to the path of the host.
pub open spec fn endpoint_segments(voice: Seq<char>) -> Seq<Seq<char>> {
    seq!["v1"@, "text-to-speech"@, voice, "multi-stream-input"@]
}

/// The value of an option, or a default.
pub open spec fn text_or(value: Option<Seq<char>>, default: Seq<char>) -> Seq<char> {
    match value {
        Some(text) => text,
        None => default,
    }
}

/// A truth value as text.
pub open spec fn bool_text(value: bool) -> Seq<char> {
    if value {
        "true"@
    } else {
        "false"@
    }
}

/// The query of the endpoint.
pub open spec fn endpoint_pairs(params: Params, output_format: Seq<char>) -> Seq<
    (Seq<char>, Seq<char>),
> {
    seq![
        ("model_id"@, text_or(opt_view(params.model), "eleven_flash_v2_5"@)),
        ("output_format"@, output_format),
        ("inactivity_timeout"@, decimal(180)),
    ] + pair_if("language_code"@, opt_view(params.language)) + pair_if(
        "apply_text_normalization"@,
        match params.apply_text_normalization {
            Some(mode) => Some(normalization_name(mode)),
            None => None,
        },
    ) + pair_if(
        "auto_mode"@,
        match params.auto_mode {
            Some(mode) => Some(bool_text(mode)),
            None => None,
        },
    )
}

/// The endpoint for the parameters, or why there is none.
pub open spec fn endpoint_for(params: Params, output_format: Seq<char>) -> Result<
    Seq<char>,
    Seq<Seq<char>>,
> {
    match url_read(text_or(opt_view(params.endpoint), "wss://api.elevenlabs.io"@)) {
        Err(cause) => Err(seq!["Invalid ElevenLabs realtime TTS host URL"@, cause]),
        Ok(host) => match url_with_segments(host, endpoint_segments(params.voice@)) {
            None => Err(seq!["ElevenLabs realtime TTS host cannot be a base URL"@]),
            Some(url) => Ok(url_with_pairs(url, endpoint_pairs(params, output_format))),
        },
    }
}

/// The segments that are added to the path of the host.
pub fn segments_for(voice: &str) -> (r: Vec<String>)
    ensures
        texts(r@) == endpoint_segments(voice@),
{
    let mut segments: Vec<String> = Vec::new();
    segments.push("v1".to_owned());
    segments.push("text-to-speech".to_owned());
    segments.push(voice.to_owned());
    segments.push("multi-stream-input".to_owned());
    assert(texts(segments@) =~= endpoint_segments(voice@));
    segments
}

/// The query of the endpoint.
pub fn pairs_for(params: &Params, output_format: &str) -> (r: Vec<(String, String)>)
    ensures
        pair_texts(r@) == endpoint_pairs(*params, output_format@),
{
    let mut pairs: Vec<(String, String)> = Vec::new();
    match &params.model {
        Some(model) => push_pair(&mut pairs, "model_id", model.as_str()),
        None => push_pair(&mut pairs, "model_id", "eleven_flash_v2_5"),
    }
    push_pair(&mut pairs, "output_format", output_format);
    let timeout = decimal_text(180);
    push_pair(&mut pairs, "inactivity_timeout", timeout.as_str());
    assert(pair_texts(pairs@) =~= seq![
        ("model_id"@, text_or(opt_view(params.model), "eleven_flash_v2_5"@)),
        ("output_format"@, output_format@),
        ("inactivity_timeout"@, decimal(180)),
    ]);
    push_pair_if(&mut pairs, "language_code", as_opt_str(&params.language));
    let normalization = match params.apply_text_normalization {
        Some(mode) => Some(mode.as_str()),
        None => None,
    };
    push_pair_if(&mut pairs, "apply_text_normalization", normalization);
    let auto_mode = match params.auto_mode {
        Some(true) => Some("true"),
        Some(false) => Some("false"),
        None => None,
    };
    push_pair_if(&mut pairs, "auto_mode", auto_mode);
    pairs
}

/// The endpoint for the parameters.
pub fn build_endpoint(params: &Params, output_format: &str) -> (r: Result<String, Error>)
    ensures
        r is Ok <==> endpoint_for(*params, output_format@) is Ok,
        r matches Ok(url) ==> endpoint_for(*params, output_format@)->Ok_0 == url@,
        r matches Err(e) ==> endpoint_for(*params, output_format@)->Err_0 == e@,
{
    let host = match &params.endpoint {
        Some(host) => host.as_str(),
        None => "wss://api.elevenlabs.io",
    };
    let mut url = match read_url(host) {
        Ok(url) => url,
        Err(cause) => {
            let error = Error::from_text(cause).context("Invalid ElevenLabs realtime TTS host URL");
            assert(error@ =~= seq!["Invalid ElevenLabs realtime TTS host URL"@, cause@]);
            return Err(error);
        },
    };
    let segments = segments_for(params.voice.as_str());
    if !add_segments(&mut url, &segments) {
        return Err(Error::new("ElevenLabs realtime TTS host cannot be a base URL"));
    }
    let pairs = pairs_for(params, output_format);
    add_pairs(&mut url, &pairs);
    Ok(text_of(&url))
}

impl ElevenLabsSynthesize {
    /// The endpoint that a conversation connects to.
    pub fn conversation(&self, params: &Params, output_format: AudioFormat) -> (r: Result<
        String,
        Error,
    >)
        ensures
            r is Ok <==> output_format_error(output_format) is None && endpoint_for(
                *params,
                pcm_format(output_format.sample_rate)->0,
            ) is Ok,
            r matches Ok(url) ==> endpoint_for(
                *params,
                pcm_format(output_format.sample_rate)->0,
            )->Ok_0 == url@,
            r matches Err(e) ==> e@ == match output_format_error(output_format) {
                Some(message) => seq![message],
                None => endpoint_for(*params, pcm_format(output_format.sample_rate)->0)->Err_0,
            },
    {
        match resolve_output_format(output_format) {
            Ok(name) => build_endpoint(params, name),
            Err(error) => Err(error),
        }
    }
}

/// Every fragment of a request goes to the same context, and the settings go with the first
/// fragment only.
pub proof fn law_settings_open_a_context(
    state: SynthesisView,
    request_id: Option<Seq<char>>,
    first: Seq<char>,
    next: Seq<char>,
    is_final: bool,
    voice_settings: Option<VoiceSettings>,
    schedule: Option<Option<Seq<u32>>>,
)
    requires
        state.phase is Accepting,
    ensures
        ({
            let a = fragment_handled(
                state,
                request_id,
                first,
                false,
                voice_settings,
                schedule,
            );
            let b = fragment_handled(
                a.state,
                request_id,
                next,
                is_final,
                voice_settings,
                schedule,
            );
            &&& a.result is Ok && b.result is Ok
            &&& a.sent[0]->Text_voice_settings == voice_settings
            &&& a.sent[0]->schedule == schedule
            &&& b.sent[0]->Text_voice_settings is None
            &&& b.sent[0]->schedule is None
            &&& b.sent[0]->Text_context_id == a.sent[0]->Text_context_id
        }),
{
}

} // verus!

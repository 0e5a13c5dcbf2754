//! The client's side of a transcription.

use vstd::prelude::*;

use serde_json::Value;

use crate::audio::duration_nanos;
use crate::audio::le_bytes;
use crate::audio::AudioFormat;
use crate::audio::AudioFrame;
use crate::base64_codec::base64_text;
use crate::base64_codec::encode_base64;
use crate::error::Error;
use crate::input::FlowControl;
use crate::input::FlowView;
use crate::input::Input;
use crate::input::SocketMessage;
use crate::json::clone_json;
use crate::json::json_read;
use crate::json::json_text;
use crate::json::opt_json_text;
use crate::json::read_json;
use crate::microsoft_voice_live::host::voice_live_url;
use crate::microsoft_voice_live::host::Host;
use crate::microsoft_voice_live::transcription::TranscriptionState;
use crate::openai_dialog::session::describe_format;
use crate::openai_dialog::session::format_text;
use crate::openai_dialog::transcription::so_far;
use crate::openai_dialog::transcription::unless_empty;
use crate::openai_dialog::transcription::whole_transcript;
use crate::openai_dialog::transcription::InputPart;
use crate::output::bill_now;
use crate::output::duration_record;
use crate::output::emissions;
use crate::output::emit;
use crate::output::emit_duration_bill;
use crate::output::Emission;
use crate::output::EmissionView;
use crate::output::OutputPath;
use crate::output::Speaker;
use crate::output::SpeakerView;
use crate::table::Table;
use crate::text::clone_opt;
use crate::text::concat2;
use crate::text::concat3;
use crate::text::opt_str_view;
use crate::text::opt_view;

verus! {

/// The transcription service.
#[derive(Debug, Clone, Copy, PartialEq, Eq, Structural)]
pub struct MicrosoftVoiceLiveTranscribe;

/// How sure the end of an utterance has to be.
#[derive(Debug, Clone, Copy, PartialEq, Eq, Structural)]
pub enum ThresholdLevel {
    Low,
    Medium,
    High,
}

/// How the end of a turn is detected. What is absent is left to the service. The thresholds are the
/// bits of 64 bit floating point numbers; they are for other services, and this one ignores them.
#[derive(Debug, Clone, Copy, PartialEq, Eq, Structural)]
pub struct TurnDetection {
    pub threshold_level: Option<ThresholdLevel>,
    pub timeout_ms: Option<u32>,
    pub threshold_bits: Option<u64>,
    pub eager_threshold_bits: Option<u64>,
}

/// The parameters of the service.
pub struct Params {
    pub api_key: String,
    /// A full `wss` URL, whose path is used as it is.
    pub endpoint: String,
    /// The realtime model of the session.
    pub model: String,
    pub api_version: Option<String>,
    /// The model that transcribes.
    pub transcription_model: String,
    /// The language to expect, as an ISO 639-1 code.
    pub language: Option<String>,
    /// How noise is reduced, as the service defines it.
    pub noise_reduction: Option<Value>,
    pub turn_detection: Option<TurnDetection>,
}

/// The model that transcribes if nothing is said about it.
pub fn default_transcription_model() -> (r: String)
    ensures
        r@ == "azure-speech"@,
{
    "azure-speech".to_owned()
}

impl MicrosoftVoiceLiveTranscribe {
    /// Where a conversation connects to.
    pub fn conversation(&self, params: &Params) -> (r: Result<Host, Error>)
        ensures
            ({
                let version = match opt_view(params.api_version) {
                    Some(version) => version,
                    None => "2026-06-01-preview"@,
                };
                let url = voice_live_url(params.endpoint@, params.model@, version);
                &&& r is Ok <==> url is Ok
                &&& r matches Ok(host) ==> url->Ok_0 == host.wss_url@ && host.api_key@
                    == params.api_key@
                &&& r matches Err(e) ==> url->Err_0 == e@
            }),
    {
        let version = match &params.api_version {
            Some(version) => version.as_str(),
            None => "2026-06-01-preview",
        };
        Host::new(
            params.endpoint.as_str(),
            params.api_key.as_str(),
            params.model.as_str(),
            version,
        )
    }
}

/// What the service reports. It all travels beside the audio.
pub enum ServiceOutputEvent {
    SessionUpdated { message: Value },
    SpeechStarted { audio_start_ms: u32 },
    SpeechStopped { audio_end_ms: u32 },
    SpeechCommitted { item_id: String },
    SpeechTimeout { audio_start_ms: u32, audio_end_ms: u32 },
    /// A piece of a transcript. Times are the bits of 64 bit floating point numbers.
    Segment { start_bits: u64, end_bits: u64, text: String, speaker: Option<String> },
}

/// What the service reports, as mathematical values.
pub enum ServiceOutputView {
    SessionUpdated { message: Seq<char> },
    SpeechStarted { audio_start_ms: u32 },
    SpeechStopped { audio_end_ms: u32 },
    SpeechCommitted { item_id: Seq<char> },
    SpeechTimeout { audio_start_ms: u32, audio_end_ms: u32 },
    Segment { start_bits: u64, end_bits: u64, text: Seq<char>, speaker: Option<Seq<char>> },
}

impl View for ServiceOutputEvent {
    type V = ServiceOutputView;

    open spec fn view(&self) -> ServiceOutputView {
        match *self {
            ServiceOutputEvent::SessionUpdated { message } => ServiceOutputView::SessionUpdated {
                message: json_text(message),
            },
            ServiceOutputEvent::SpeechStarted { audio_start_ms } =>
                ServiceOutputView::SpeechStarted { audio_start_ms },
            ServiceOutputEvent::SpeechStopped { audio_end_ms } =>
                ServiceOutputView::SpeechStopped { audio_end_ms },
            ServiceOutputEvent::SpeechCommitted { item_id } => ServiceOutputView::SpeechCommitted {
                item_id: item_id@,
            },
            ServiceOutputEvent::SpeechTimeout { audio_start_ms, audio_end_ms } =>
                ServiceOutputView::SpeechTimeout { audio_start_ms, audio_end_ms },
            ServiceOutputEvent::Segment { start_bits, end_bits, text, speaker } =>
                ServiceOutputView::Segment {
                    start_bits,
                    end_bits,
                    text: text@,
                    speaker: opt_view(speaker),
                },
        }
    }
}

/// An event of the server.
pub enum ServerEvent {
    SessionCreated,
    SessionUpdated,
    InputAudioBufferSpeechStarted { audio_start_ms: u32 },
    InputAudioBufferSpeechStopped { audio_end_ms: u32 },
    InputAudioBufferCommitted,
    InputAudioBufferTimeoutTriggered,
    ConversationItemInputAudioTranscriptionDelta {
        item_id: String,
        content_index: u32,
        delta: String,
    },
    ConversationItemInputAudioTranscriptionCompleted {
        item_id: String,
        content_index: u32,
        transcript: String,
    },
    ConversationItemInputAudioTranscriptionSegment { item_id: String, speaker: Option<String> },
    ConversationItemInputAudioTranscriptionFailed { message: String },
    Error { message: String },
    /// Any other event.
    Other,
}

/// An event of the server, with a description for an error message.
pub struct DescribedEvent {
    pub event: ServerEvent,
    pub description: String,
}

/// The settings of a session.
pub struct SessionSettings {
    pub noise_reduction: Option<Value>,
    pub transcription_language: Option<String>,
    pub transcription_model: String,
    pub turn_detection: TurnSettings,
}

/// The detectors of voice activity that the service has.
#[derive(Debug, Clone, Copy, PartialEq, Eq, Structural)]
pub enum Detector {
    /// Goes by the loudness.
    ServerVad,
    /// Goes by what is said.
    AzureSemanticVad,
    /// Goes by what is said, in any language.
    AzureSemanticVadMultilingual,
}

/// The models that tell the end of an utterance.
#[derive(Debug, Clone, Copy, PartialEq, Eq, Structural)]
pub enum EndOfUtteranceModel {
    SemanticDetection,
    SmartEndOfTurnDetection,
}

/// How the end of an utterance is detected. What is absent is left to the service.
#[derive(Debug, Clone, Copy, PartialEq, Eq, Structural)]
pub struct EndOfUtterance {
    pub model: EndOfUtteranceModel,
    pub threshold_level: Option<ThresholdLevel>,
    pub timeout_ms: Option<u32>,
}

/// How turns are detected in a session, and whether the model answers at the end of one. All other
/// settings of the detector are left to the service.
#[derive(Debug, Clone, Copy, PartialEq, Eq, Structural)]
pub struct TurnSettings {
    pub detector: Detector,
    pub end_of_utterance: EndOfUtterance,
    pub create_response: bool,
}

/// The settings of a session, as mathematical values.
pub struct SessionSettingsView {
    pub noise_reduction: Option<Seq<char>>,
    pub transcription_language: Option<Seq<char>>,
    pub transcription_model: Seq<char>,
    pub turn_detection: TurnSettings,
}

impl View for SessionSettings {
    type V = SessionSettingsView;

    open spec fn view(&self) -> SessionSettingsView {
        SessionSettingsView {
            noise_reduction: opt_json_text(self.noise_reduction),
            transcription_language: opt_view(self.transcription_language),
            transcription_model: self.transcription_model@,
            turn_detection: self.turn_detection,
        }
    }
}

/// An event to the server.
pub enum ClientEvent {
    SessionUpdate { session: SessionSettings },
    /// Audio, as base64 text.
    InputAudioBufferAppend { audio: String },
}

/// The settings for how turns are detected: from what is said, in any language, with the smart
/// model for their ends, as sure and as soon as configured. The model does not answer, since the
/// service transcribes only.
pub open spec fn turn_settings(configured: Option<TurnDetection>) -> TurnSettings {
    TurnSettings {
        detector: Detector::AzureSemanticVadMultilingual,
        end_of_utterance: EndOfUtterance {
            model: EndOfUtteranceModel::SmartEndOfTurnDetection,
            threshold_level: match configured {
                Some(detection) => detection.threshold_level,
                None => None,
            },
            timeout_ms: match configured {
                Some(detection) => detection.timeout_ms,
                None => None,
            },
        },
        create_response: false,
    }
}

/// The settings for how turns are detected.
pub fn transcription_turn_detection(configured: Option<TurnDetection>) -> (r: TurnSettings)
    ensures
        r == turn_settings(configured),
{
    let (threshold_level, timeout_ms) = match configured {
        Some(detection) => (detection.threshold_level, detection.timeout_ms),
        None => (None, None),
    };
    TurnSettings {
        detector: Detector::AzureSemanticVadMultilingual,
        end_of_utterance: EndOfUtterance {
            model: EndOfUtteranceModel::SmartEndOfTurnDetection,
            threshold_level,
            timeout_ms,
        },
        create_response: false,
    }
}

/// Configurations that differ in their thresholds only give the same settings.
pub proof fn law_thresholds_are_ignored(
    configured: TurnDetection,
    threshold_bits: Option<u64>,
    eager_threshold_bits: Option<u64>,
)
    ensures
        turn_settings(
            Some(TurnDetection { threshold_bits, eager_threshold_bits, ..configured }),
        ) == turn_settings(Some(configured)),
{
}

/// What is wrong with the first message of the server, if anything.
pub open spec fn first_message_error(
    message: Option<Result<SocketMessage<DescribedEvent>, String>>,
) -> Option<Seq<char>> {
    match message {
        None => Some("Failed to receive the initial message"@),
        Some(Err(cause)) => Some(cause@),
        Some(Ok(SocketMessage::Text { raw: _, event })) => match event {
            Err(cause) => Some(cause@),
            Ok(described) => match described.event {
                ServerEvent::SessionCreated => None,
                ServerEvent::Error { message } => Some(
                    "Failed to create the session: "@ + message@,
                ),
                _ => Some(
                    "Unexpected event in response to session creation: "@ + described.description@,
                ),
            },
        },
        Some(Ok(_)) => Some("Expected a text message for session creation"@),
    }
}

/// What comes of an event of the server.
pub struct Handled {
    pub client: ClientView,
    pub out: Seq<EmissionView<ServiceOutputView>>,
    pub result: Result<FlowView, Seq<Seq<char>>>,
}

/// The client's state in a transcription.
pub struct Client {
    pub transcription_state: TranscriptionState,
    /// The speaker that was reported last for an item. The whole transcript of the item is put
    /// out with it.
    pub segment_speakers: Table<String, String>,
}

/// The client's state, as mathematical values.
pub struct ClientView {
    pub transcripts: Map<InputPart, Seq<char>>,
    pub speakers: Map<Seq<char>, Seq<char>>,
}

impl View for Client {
    type V = ClientView;

    open spec fn view(&self) -> ClientView {
        ClientView { transcripts: self.transcription_state@, speakers: self.segment_speakers@ }
    }
}

/// An event that changes the client's state only.
pub open spec fn moves(client: ClientView) -> Handled {
    Handled { client, out: Seq::empty(), result: Ok(FlowView::Continue) }
}

/// An event that ends the transcription with an error.
pub open spec fn fails(client: ClientView, chain: Seq<Seq<char>>) -> Handled {
    Handled { result: Err(chain), ..moves(client) }
}

/// An event that is reported.
pub open spec fn reports(client: ClientView, event: ServiceOutputView) -> Handled {
    Handled {
        out: seq![EmissionView::ServiceEvent { path: OutputPath::Control, event }],
        ..moves(client)
    }
}

/// The speaker of an item, if one was reported.
pub open spec fn speaker_of(speakers: Map<Seq<char>, Seq<char>>, item: Seq<char>) -> Option<
    SpeakerView,
> {
    if speakers.contains_key(item) {
        Some(SpeakerView::Named(speakers[item]))
    } else {
        None
    }
}

/// What comes of an event of the server.
pub open spec fn event_handled(
    client: ClientView,
    event: ServerEvent,
    raw: Seq<char>,
    language: Option<Seq<char>>,
) -> Handled {
    match event {
        ServerEvent::SessionUpdated => match json_read(raw) {
            Ok(message) => reports(client, ServiceOutputView::SessionUpdated { message }),
            Err(cause) => fails(
                client,
                seq!["Failed to parse raw session.updated payload: `"@ + raw + "`"@, cause],
            ),
        },
        ServerEvent::InputAudioBufferSpeechStarted { audio_start_ms } => reports(
            client,
            ServiceOutputView::SpeechStarted { audio_start_ms },
        ),
        ServerEvent::InputAudioBufferSpeechStopped { audio_end_ms } => reports(
            client,
            ServiceOutputView::SpeechStopped { audio_end_ms },
        ),
        ServerEvent::ConversationItemInputAudioTranscriptionDelta {
            item_id,
            content_index,
            delta,
        } => {
            let part = InputPart { item: item_id@, content: content_index };
            let text = so_far(client.transcripts, part) + delta@;
            Handled {
                out: seq![EmissionView::Text { is_final: false, text, language, speaker: None }],
                ..moves(
                    ClientView { transcripts: client.transcripts.insert(part, text), ..client },
                )
            }
        },
        ServerEvent::ConversationItemInputAudioTranscriptionCompleted {
            item_id,
            content_index,
            transcript,
        } => {
            let part = InputPart { item: item_id@, content: content_index };
            let after = ClientView {
                transcripts: client.transcripts.remove(part),
                speakers: client.speakers.remove(item_id@),
            };
            match unless_empty(whole_transcript(client.transcripts, part, transcript@)) {
                Some(text) => Handled {
                    out: seq![
                        EmissionView::Text {
                            is_final: true,
                            text,
                            language,
                            speaker: speaker_of(client.speakers, item_id@),
                        },
                    ],
                    ..moves(after)
                },
                None => moves(after),
            }
        },
        ServerEvent::ConversationItemInputAudioTranscriptionSegment { item_id, speaker } => match
        speaker {
            Some(speaker) => moves(
                ClientView { speakers: client.speakers.insert(item_id@, speaker@), ..client },
            ),
            None => moves(client),
        },
        ServerEvent::ConversationItemInputAudioTranscriptionFailed { message } => fails(
            client,
            seq!["Input audio transcription failed: "@ + message@],
        ),
        ServerEvent::Error { message } => fails(client, seq!["Voice Live error: "@ + message@]),
        _ => moves(client),
    }
}

/// What comes of a message of the server.
pub open spec fn message_handled(
    client: ClientView,
    message: SocketMessage<ServerEvent>,
    language: Option<Seq<char>>,
) -> Handled {
    match message {
        SocketMessage::Text { raw, event } => match event {
            Ok(event) => event_handled(client, event, raw@, language),
            Err(cause) => fails(
                client,
                seq!["Server event decoding failed: `"@ + raw@ + "`"@, cause@],
            ),
        },
        SocketMessage::Ping(payload) => Handled {
            result: Ok(FlowView::PongAndContinue(payload@)),
            ..moves(client)
        },
        SocketMessage::Close => Handled { result: Ok(FlowView::End), ..moves(client) },
        SocketMessage::Other { description } => fails(
            client,
            seq!["Unhandled websocket message: "@ + description@],
        ),
    }
}

/// The format that audio has to come in.
pub open spec fn required_format() -> AudioFormat {
    AudioFormat { channels: 1, sample_rate: 24000 }
}

/// Something that happens in the course of a transcription.
pub enum TranscribeEvent {
    /// An input; `None` at the end.
    Input(Option<Input<()>>),
    /// A message of the server, or a failure of the socket; `None` at the end of the stream.
    Message(Option<Result<SocketMessage<ServerEvent>, String>>),
}

/// The audio that is sent for an input, as base64 text.
pub open spec fn audio_sent(event: TranscribeEvent) -> Option<Seq<char>> {
    match event {
        TranscribeEvent::Input(Some(Input::Audio { frame })) => Some(
            base64_text(le_bytes(frame@.samples)),
        ),
        _ => None,
    }
}

/// What comes of something that happens.
pub open spec fn handled(
    client: ClientView,
    event: TranscribeEvent,
    language: Option<Seq<char>>,
) -> Handled {
    match event {
        TranscribeEvent::Input(Some(Input::Audio { frame })) => Handled {
            out: seq![
                bill_now(
                    None,
                    None,
                    seq![
                        duration_record(
                            "input:audio"@,
                            duration_nanos(frame.format, frame@.samples.len()) as u128,
                        ),
                    ],
                ),
            ],
            ..moves(client)
        },
        TranscribeEvent::Input(Some(_)) => moves(client),
        TranscribeEvent::Input(None) => Handled { result: Ok(FlowView::End), ..moves(client) },
        TranscribeEvent::Message(Some(Ok(message))) => message_handled(client, message, language),
        TranscribeEvent::Message(Some(Err(cause))) => fails(client, seq![cause@]),
        TranscribeEvent::Message(None) => Handled { result: Ok(FlowView::End), ..moves(client) },
    }
}

/// What to do about something that happened: what to send, and whether to go on.
pub struct Step {
    pub event: Option<ClientEvent>,
    pub flow: FlowControl,
}

/// Whether the audio of an event has one channel and a sample rate.
pub open spec fn acceptable(event: TranscribeEvent) -> bool {
    match event {
        TranscribeEvent::Input(Some(Input::Audio { frame })) => frame.format.channels == 1
            && frame.format.sample_rate > 0,
        _ => true,
    }
}

/// The report of an updated session, given what was read from the message of the server.
pub fn session_updated(raw_message: &str, read: Result<Value, String>) -> (r: Result<
    ServiceOutputEvent,
    Error,
>)
    ensures
        r is Ok <==> read is Ok,
        r matches Ok(event) ==> event == (ServiceOutputEvent::SessionUpdated {
            message: read->Ok_0,
        }),
        r matches Err(e) ==> e@ == seq![
            "Failed to parse raw session.updated payload: `"@ + raw_message@ + "`"@,
            read->Err_0@,
        ],
{
    match read {
        Ok(message) => Ok(ServiceOutputEvent::SessionUpdated { message }),
        Err(cause) => {
            let outer = concat3("Failed to parse raw session.updated payload: `", raw_message, "`");
            let error = Error::from_text(cause).context(outer.as_str());
            assert(error@ =~= seq![outer@, cause@]);
            Err(error)
        },
    }
}

/// A copy of a borrowed text that may be absent.
fn owned_opt(text: Option<&str>) -> (r: Option<String>)
    ensures
        opt_view(r) == opt_str_view(text),
{
    match text {
        Some(text) => Some(text.to_owned()),
        None => None,
    }
}

impl Client {
    /// A client at the beginning of a transcription.
    pub fn new() -> (r: Client)
        ensures
            r@ == (ClientView { transcripts: Map::empty(), speakers: Map::empty() }),
    {
        Client { transcription_state: TranscriptionState::default(), segment_speakers: Table::new() }
    }

    /// Checks the first message of the server, which has to create a session.
    pub fn verify_session_created_event(
        message: Option<Result<SocketMessage<DescribedEvent>, String>>,
    ) -> (r: Result<(), Error>)
        ensures
            r is Ok <==> first_message_error(message) is None,
            r matches Err(e) ==> e@ == seq![first_message_error(message)->0],
    {
        match message {
            None => Err(Error::new("Failed to receive the initial message")),
            Some(Err(cause)) => Err(Error::from_text(cause)),
            Some(Ok(SocketMessage::Text { raw: _, event })) => match event {
                Err(cause) => Err(Error::from_text(cause)),
                Ok(described) => match described.event {
                    ServerEvent::SessionCreated => Ok(()),
                    ServerEvent::Error { message } => Err(
                        Error::from_text(
                            concat2("Failed to create the session: ", message.as_str()),
                        ),
                    ),
                    _ => Err(
                        Error::from_text(
                            concat2(
                                "Unexpected event in response to session creation: ",
                                described.description.as_str(),
                            ),
                        ),
                    ),
                },
            },
            Some(Ok(_)) => Err(Error::new("Expected a text message for session creation")),
        }
    }

    /// The update of the session that a transcription begins with.
    pub fn send_session_update(&self, params: &Params) -> (r: ClientEvent)
        ensures
            r matches ClientEvent::SessionUpdate { session } && session@ == (SessionSettingsView {
                noise_reduction: opt_json_text(params.noise_reduction),
                transcription_language: opt_view(params.language),
                transcription_model: params.transcription_model@,
                turn_detection: turn_settings(params.turn_detection),
            }),
    {
        let session = SessionSettings {
            noise_reduction: match &params.noise_reduction {
                Some(reduction) => Some(clone_json(reduction)),
                None => None,
            },
            transcription_language: clone_opt(&params.language),
            transcription_model: params.transcription_model.clone(),
            turn_detection: transcription_turn_detection(params.turn_detection),
        };
        ClientEvent::SessionUpdate { session }
    }

    /// Begins a transcription: checks the format and the server's first message, and returns the
    /// update of the session to send.
    pub fn begin(
        &self,
        input_format: AudioFormat,
        params: &Params,
        message: Option<Result<SocketMessage<DescribedEvent>, String>>,
    ) -> (r: Result<ClientEvent, Error>)
        ensures
            r is Ok <==> input_format == required_format() && first_message_error(message) is None,
            r matches Ok(event) ==> event is SessionUpdate && event->session@ == (
            SessionSettingsView {
                noise_reduction: opt_json_text(params.noise_reduction),
                transcription_language: opt_view(params.language),
                transcription_model: params.transcription_model@,
                turn_detection: turn_settings(params.turn_detection),
            }),
            r matches Err(e) ==> e@ == if input_format != required_format() {
                seq![
                    "Audio input has the wrong format "@ + format_text(input_format)
                        + ", expected: "@ + format_text(required_format()),
                ]
            } else {
                seq![first_message_error(message)->0]
            },
    {
        let expected = AudioFormat::new(1, 24000);
        if input_format != expected {
            let actual = describe_format(input_format);
            let wanted = describe_format(expected);
            let mut text = concat3(
                "Audio input has the wrong format ",
                actual.as_str(),
                ", expected: ",
            );
            text.append(wanted.as_str());
            return Err(Error::from_text(text));
        }
        match Client::verify_session_created_event(message) {
            Ok(()) => Ok(self.send_session_update(params)),
            Err(error) => Err(error),
        }
    }

    /// Handles an event of the server, which was read from `raw_message`.
    pub fn handle_server_event(
        &mut self,
        event: ServerEvent,
        raw_message: &str,
        out: &mut Vec<Emission<ServiceOutputEvent>>,
        language: Option<&str>,
    ) -> (r: Result<(), Error>)
        ensures
            ({
                let h = event_handled(old(self)@, event, raw_message@, opt_str_view(language));
                &&& final(self)@ == h.client
                &&& emissions(final(out)@) == emissions(old(out)@) + h.out
                &&& r is Ok <==> h.result is Ok
                &&& r is Ok ==> h.result->Ok_0 == FlowView::Continue
                &&& r matches Err(e) ==> h.result->Err_0 == e@
            }),
    {
        proof {
            assert(emissions(out@) + Seq::empty() =~= emissions(out@));
            assert forall|e: EmissionView<ServiceOutputView>| #[trigger]
                emissions(out@).push(e) == emissions(out@) + seq![e] by {
                assert(emissions(out@).push(e) =~= emissions(out@) + seq![e]);
            }
        }
        match event {
            ServerEvent::SessionUpdated => match session_updated(
                raw_message,
                read_json(raw_message),
            ) {
                Ok(event) => emit(
                    out,
                    Emission::ServiceEvent { path: OutputPath::Control, event },
                ),
                Err(error) => return Err(error),
            },
            ServerEvent::InputAudioBufferSpeechStarted { audio_start_ms } => {
                emit(
                    out,
                    Emission::ServiceEvent {
                        path: OutputPath::Control,
                        event: ServiceOutputEvent::SpeechStarted { audio_start_ms },
                    },
                );
            },
            ServerEvent::InputAudioBufferSpeechStopped { audio_end_ms } => {
                emit(
                    out,
                    Emission::ServiceEvent {
                        path: OutputPath::Control,
                        event: ServiceOutputEvent::SpeechStopped { audio_end_ms },
                    },
                );
            },
            ServerEvent::ConversationItemInputAudioTranscriptionDelta {
                item_id,
                content_index,
                delta,
            } => {
                let text = self.transcription_state.apply_input_delta(
                    item_id,
                    content_index,
                    delta,
                );
                emit(
                    out,
                    Emission::Text {
                        is_final: false,
                        text,
                        language: owned_opt(language),
                        speaker: None,
                    },
                );
            },
            ServerEvent::ConversationItemInputAudioTranscriptionCompleted {
                item_id,
                content_index,
                transcript,
            } => {
                let speaker = match self.segment_speakers.remove(&item_id) {
                    Some(name) => Some(Speaker::Named(name)),
                    None => None,
                };
                match self.transcription_state.complete_input_transcription(
                    item_id,
                    content_index,
                    transcript,
                ) {
                    Some(text) => emit(
                        out,
                        Emission::Text {
                            is_final: true,
                            text,
                            language: owned_opt(language),
                            speaker,
                        },
                    ),
                    None => {},
                }
            },
            ServerEvent::ConversationItemInputAudioTranscriptionSegment { item_id, speaker } => {
                match speaker {
                    Some(speaker) => {
                        let _ = self.segment_speakers.insert(item_id, speaker);
                    },
                    None => {},
                }
            },
            ServerEvent::ConversationItemInputAudioTranscriptionFailed { message } => {
                return Err(
                    Error::from_text(
                        concat2("Input audio transcription failed: ", message.as_str()),
                    ),
                );
            },
            ServerEvent::Error { message } => {
                return Err(Error::from_text(concat2("Voice Live error: ", message.as_str())));
            },
            _ => {},
        }
        Ok(())
    }

    /// Processes a message of the server.
    pub fn process_message(
        &mut self,
        message: SocketMessage<ServerEvent>,
        out: &mut Vec<Emission<ServiceOutputEvent>>,
        language: Option<&str>,
    ) -> (r: Result<FlowControl, Error>)
        ensures
            ({
                let h = message_handled(old(self)@, message, opt_str_view(language));
                &&& final(self)@ == h.client
                &&& emissions(final(out)@) == emissions(old(out)@) + h.out
                &&& r is Ok <==> h.result is Ok
                &&& r matches Ok(flow) ==> h.result->Ok_0 == flow@
                &&& r matches Err(e) ==> h.result->Err_0 == e@
            }),
    {
        assert(emissions(out@) + Seq::empty() =~= emissions(out@));
        match message {
            SocketMessage::Text { raw, event } => match event {
                Ok(event) => match self.handle_server_event(event, raw.as_str(), out, language) {
                    Ok(()) => Ok(FlowControl::Continue),
                    Err(error) => Err(error),
                },
                Err(cause) => {
                    let outer = concat3("Server event decoding failed: `", raw.as_str(), "`");
                    let error = Error::from_text(cause).context(outer.as_str());
                    assert(error@ =~= seq![outer@, cause@]);
                    Err(error)
                },
            },
            SocketMessage::Ping(payload) => Ok(FlowControl::PongAndContinue(payload)),
            SocketMessage::Close => Ok(FlowControl::End),
            SocketMessage::Other { description } => Err(
                Error::from_text(concat2("Unhandled websocket message: ", description.as_str())),
            ),
        }
    }

    /// The event for the audio of a frame.
    pub fn send_frame(&self, frame: &AudioFrame) -> (r: ClientEvent)
        requires
            frame.format.channels == 1,
        ensures
            r matches ClientEvent::InputAudioBufferAppend { audio } && audio@ == base64_text(
                le_bytes(frame@.samples),
            ),
    {
        let bytes = frame.to_le_bytes();
        ClientEvent::InputAudioBufferAppend { audio: encode_base64(&bytes) }
    }

    /// One round of a transcription: something happened, and the client says what to send and
    /// whether to go on. Audio is billed as it is sent.
    pub fn transcribe(
        &mut self,
        event: TranscribeEvent,
        language: Option<&str>,
        out: &mut Vec<Emission<ServiceOutputEvent>>,
    ) -> (r: Result<Step, Error>)
        requires
            acceptable(event),
        ensures
            ({
                let h = handled(old(self)@, event, opt_str_view(language));
                &&& final(self)@ == h.client
                &&& emissions(final(out)@) == emissions(old(out)@) + h.out
                &&& r is Ok <==> h.result is Ok
                &&& r matches Ok(step) ==> {
                    &&& h.result->Ok_0 == step.flow@
                    &&& step.event is Some <==> audio_sent(event) is Some
                    &&& step.event matches Some(e) ==> e is InputAudioBufferAppend && Some(e->audio@)
                        == audio_sent(event)
                }
                &&& r matches Err(e) ==> h.result->Err_0 == e@
            }),
    {
        assert(emissions(out@) + Seq::empty() =~= emissions(out@));
        match event {
            TranscribeEvent::Input(Some(Input::Audio { frame })) => {
                let duration: u128 = frame.duration();
                let sent = self.send_frame(&frame);
                emit_duration_bill(out, None, None, "input:audio", duration);
                assert(emissions(out@) =~= emissions(old(out)@) + handled(
                    old(self)@,
                    event,
                    opt_str_view(language),
                ).out);
                Ok(Step { event: Some(sent), flow: FlowControl::Continue })
            },
            TranscribeEvent::Input(Some(_)) => Ok(
                Step { event: None, flow: FlowControl::Continue },
            ),
            TranscribeEvent::Input(None) => Ok(Step { event: None, flow: FlowControl::End }),
            TranscribeEvent::Message(Some(Ok(message))) => match self.process_message(
                message,
                out,
                language,
            ) {
                Ok(flow) => Ok(Step { event: None, flow }),
                Err(error) => Err(error),
            },
            TranscribeEvent::Message(Some(Err(cause))) => Err(Error::from_text(cause)),
            TranscribeEvent::Message(None) => Ok(Step { event: None, flow: FlowControl::End }),
        }
    }
}

/// Whether an event completes the transcript of an item.
pub open spec fn completes(event: ServerEvent, item: Seq<char>) -> bool {
    event matches ServerEvent::ConversationItemInputAudioTranscriptionCompleted { item_id, .. }
        && item_id@ == item
}

/// The speaker that an event reports for an item, if it reports one.
pub open spec fn reported_speaker(event: ServerEvent, item: Seq<char>) -> Option<Seq<char>> {
    match event {
        ServerEvent::ConversationItemInputAudioTranscriptionSegment {
            item_id,
            speaker: Some(speaker),
        } => if item_id@ == item {
            Some(speaker@)
        } else {
            None
        },
        _ => None,
    }
}

/// The speaker that was reported last for an item; `before` if none was reported.
pub open spec fn last_speaker(
    before: Option<SpeakerView>,
    events: Seq<(ServerEvent, Seq<char>)>,
    item: Seq<char>,
) -> Option<SpeakerView>
    decreases events.len(),
{
    if events.len() == 0 {
        before
    } else {
        match reported_speaker(events.last().0, item) {
            Some(speaker) => Some(SpeakerView::Named(speaker)),
            None => last_speaker(before, events.drop_last(), item),
        }
    }
}

/// The client's state after some events, each with its raw text.
pub open spec fn after_events(
    client: ClientView,
    events: Seq<(ServerEvent, Seq<char>)>,
    language: Option<Seq<char>>,
) -> ClientView
    decreases events.len(),
{
    if events.len() == 0 {
        client
    } else {
        let (event, raw) = events.last();
        event_handled(
            after_events(client, events.drop_last(), language),
            event,
            raw,
            language,
        ).client
    }
}

proof fn lemma_last_speaker_is_kept(
    client: ClientView,
    events: Seq<(ServerEvent, Seq<char>)>,
    item: Seq<char>,
    language: Option<Seq<char>>,
)
    requires
        forall|i: int| 0 <= i < events.len() ==> !completes(#[trigger] events[i].0, item),
    ensures
        speaker_of(after_events(client, events, language).speakers, item) == last_speaker(
            speaker_of(client.speakers, item),
            events,
            item,
        ),
    decreases events.len(),
{
    if events.len() > 0 {
        let n = events.len() - 1;
        assert(!completes(events[n].0, item));
        assert forall|i: int| 0 <= i < n implies !completes(
            #[trigger] events.drop_last()[i].0,
            item,
        ) by {
            assert(!completes(events[i].0, item));
        }
        lemma_last_speaker_is_kept(client, events.drop_last(), item, language);
    }
}

/// The whole transcript of an item is put out with the speaker that was reported last for it,
/// whatever else happened before. After that the speaker is forgotten.
pub proof fn law_last_speaker_is_named(
    client: ClientView,
    events: Seq<(ServerEvent, Seq<char>)>,
    item_id: String,
    content_index: u32,
    transcript: String,
    raw: Seq<char>,
    language: Option<Seq<char>>,
)
    requires
        forall|i: int| 0 <= i < events.len() ==> !completes(#[trigger] events[i].0, item_id@),
        transcript@.len() > 0,
    ensures
        ({
            let h = event_handled(
                after_events(client, events, language),
                ServerEvent::ConversationItemInputAudioTranscriptionCompleted {
                    item_id,
                    content_index,
                    transcript,
                },
                raw,
                language,
            );
            &&& h.out == seq![
                EmissionView::<ServiceOutputView>::Text {
                    is_final: true,
                    text: transcript@,
                    language,
                    speaker: last_speaker(
                        speaker_of(client.speakers, item_id@),
                        events,
                        item_id@,
                    ),
                },
            ]
            &&& !h.client.speakers.contains_key(item_id@)
        }),
{
    lemma_last_speaker_is_kept(client, events, item_id@, language);
}

} // verus!

//! Realtime transcription.

use vstd::prelude::*;

use serde_json::Value;

use crate::audio::le_bytes;
use crate::audio::AudioFormat;
use crate::audio::AudioFrame;
use crate::audio::FrameView;
use crate::base64_codec::base64_text;
use crate::base64_codec::encode_base64;
use crate::elevenlabs::synthesize::bool_text;
use crate::elevenlabs::synthesize::text_or;
use crate::elevenlabs::synthesize::LoopControl;
use crate::error::Error;
use crate::input::Input;
use crate::input::SocketMessage;
use crate::json::json_string_member;
use crate::json::json_text;
use crate::json::string_member;
use crate::output::emissions;
use crate::output::emit;
use crate::output::plain_text;
use crate::output::Emission;
use crate::output::EmissionView;
use crate::text::as_opt_str;
use crate::text::concat2;
use crate::text::concat3;
use crate::text::decimal;
use crate::text::decimal_text;
use crate::text::ends_with;
use crate::text::opt_view;
use crate::text::same_text;
use crate::text::starts_with;
use crate::urls::add_pairs;
use crate::urls::pair_texts;
use crate::urls::pair_if;
use crate::urls::push_pair;
use crate::urls::push_pair_if;
use crate::urls::read_url;
use crate::urls::text_of;
use crate::urls::url_read;
use crate::urls::url_with_pairs;

verus! {

/// The transcription service.
#[derive(Debug, Clone, Copy, PartialEq, Eq, Structural)]
pub struct ElevenLabsTranscribe;

/// The parameters of the service.
pub struct Params {
    pub api_key: String,
    pub model: Option<String>,
    /// Another endpoint to connect to.
    pub host: Option<String>,
    /// The language to expect, as a BCP 47 tag.
    pub language: Option<String>,
    /// Whether the language is detected. Off if nothing is said about it.
    pub include_language_detection: Option<bool>,
    /// For how many seconds of silence to wait, in decimal notation.
    pub vad_silence_threshold_secs: Option<String>,
    /// How sensitive to voice activity to be, in decimal notation.
    pub vad_threshold: Option<String>,
    pub min_speech_duration_ms: Option<u32>,
    pub min_silence_duration_ms: Option<u32>,
    /// What was said before. Sent with the first audio only.
    pub previous_text: Option<String>,
}

/// The encoding of the audio.
#[derive(Debug, Clone, Copy, PartialEq, Eq, Structural)]
pub enum AudioEncoding {
    Pcm8000,
    Pcm16000,
    Pcm22050,
    Pcm24000,
    Pcm44100,
    Pcm48000,
}

/// The name of an encoding.
pub open spec fn encoding_name(encoding: AudioEncoding) -> Seq<char> {
    match encoding {
        AudioEncoding::Pcm8000 => "pcm_8000"@,
        AudioEncoding::Pcm16000 => "pcm_16000"@,
        AudioEncoding::Pcm22050 => "pcm_22050"@,
        AudioEncoding::Pcm24000 => "pcm_24000"@,
        AudioEncoding::Pcm44100 => "pcm_44100"@,
        AudioEncoding::Pcm48000 => "pcm_48000"@,
    }
}

impl AudioEncoding {
    /// The name of the encoding.
    pub fn as_str(self) -> (r: &'static str)
        ensures
            r@ == encoding_name(self),
    {
        match self {
            AudioEncoding::Pcm8000 => "pcm_8000",
            AudioEncoding::Pcm16000 => "pcm_16000",
            AudioEncoding::Pcm22050 => "pcm_22050",
            AudioEncoding::Pcm24000 => "pcm_24000",
            AudioEncoding::Pcm44100 => "pcm_44100",
            AudioEncoding::Pcm48000 => "pcm_48000",
        }
    }
}

/// The encoding for a sample rate, if there is one.
pub open spec fn encoding_for(sample_rate: u32) -> Option<AudioEncoding> {
    if sample_rate == 8_000 {
        Some(AudioEncoding::Pcm8000)
    } else if sample_rate == 16_000 {
        Some(AudioEncoding::Pcm16000)
    } else if sample_rate == 22_050 {
        Some(AudioEncoding::Pcm22050)
    } else if sample_rate == 24_000 {
        Some(AudioEncoding::Pcm24000)
    } else if sample_rate == 44_100 {
        Some(AudioEncoding::Pcm44100)
    } else if sample_rate == 48_000 {
        Some(AudioEncoding::Pcm48000)
    } else {
        None
    }
}

/// The message for a sample rate without an encoding.
pub open spec fn unsupported_rate(sample_rate: u32) -> Seq<char> {
    "Unsupported input sample rate "@ + decimal(sample_rate as nat)
        + " for ElevenLabs realtime. Supported sample rates: 8000, 16000, 22050, 24000, 44100, 48000 Hz"@
}

/// The encoding for a format, by its sample rate.
pub fn resolve_audio_encoding(input_format: AudioFormat) -> (r: Result<AudioEncoding, Error>)
    ensures
        r is Ok <==> encoding_for(input_format.sample_rate) is Some,
        r matches Ok(encoding) ==> Some(encoding) == encoding_for(input_format.sample_rate),
        r matches Err(e) ==> e@ == seq![unsupported_rate(input_format.sample_rate)],
{
    match input_format.sample_rate {
        8_000 => Ok(AudioEncoding::Pcm8000),
        16_000 => Ok(AudioEncoding::Pcm16000),
        22_050 => Ok(AudioEncoding::Pcm22050),
        24_000 => Ok(AudioEncoding::Pcm24000),
        44_100 => Ok(AudioEncoding::Pcm44100),
        48_000 => Ok(AudioEncoding::Pcm48000),
        _ => {
            let rate = decimal_text(input_format.sample_rate as u64);
            Err(
                Error::from_text(
                    concat3(
                        "Unsupported input sample rate ",
                        rate.as_str(),
                        " for ElevenLabs realtime. Supported sample rates: 8000, 16000, 22050, 24000, 44100, 48000 Hz",
                    ),
                ),
            )
        },
    }
}

/// A number as text, if it is there.
pub open spec fn number_text(value: Option<u32>) -> Option<Seq<char>> {
    match value {
        Some(n) => Some(decimal(n as nat)),
        None => None,
    }
}

/// Writes a number, if it is there.
fn describe_number(value: Option<u32>) -> (r: Option<String>)
    ensures
        opt_view(r) == number_text(value),
{
    match value {
        Some(n) => Some(decimal_text(n as u64)),
        None => None,
    }
}

/// The query of the endpoint.
pub open spec fn endpoint_pairs(
    params: Params,
    audio_encoding: AudioEncoding,
    include_language_detection: bool,
    language_code: Option<Seq<char>>,
) -> Seq<(Seq<char>, Seq<char>)> {
    seq![
        ("model_id"@, text_or(opt_view(params.model), "scribe_v2_realtime"@)),
        ("include_language_detection"@, bool_text(include_language_detection)),
        ("audio_format"@, encoding_name(audio_encoding)),
        ("commit_strategy"@, "vad"@),
    ] + pair_if("language_code"@, language_code) + pair_if(
        "vad_silence_threshold_secs"@,
        opt_view(params.vad_silence_threshold_secs),
    ) + pair_if("vad_threshold"@, opt_view(params.vad_threshold)) + pair_if(
        "min_speech_duration_ms"@,
        number_text(params.min_speech_duration_ms),
    ) + pair_if("min_silence_duration_ms"@, number_text(params.min_silence_duration_ms))
}

/// The endpoint for the parameters, or why there is none. `iso_language` is what the language tag
/// of the parameters means as an ISO 639-3 code, or why it means nothing.
pub open spec fn endpoint_for(
    params: Params,
    audio_encoding: AudioEncoding,
    include_language_detection: bool,
    iso_language: Result<Seq<char>, Seq<char>>,
) -> Result<Seq<char>, Seq<Seq<char>>> {
    match url_read(
        text_or(opt_view(params.host), "wss://api.elevenlabs.io/v1/speech-to-text/realtime"@),
    ) {
        Err(cause) => Err(seq!["Invalid ElevenLabs realtime host URL"@, cause]),
        Ok(host) => match (params.language, iso_language) {
            (Some(language), Err(cause)) => Err(
                seq!["Invalid ElevenLabs params.language '"@ + language@ + "': "@ + cause],
            ),
            (Some(_), Ok(code)) => Ok(
                url_with_pairs(
                    host,
                    endpoint_pairs(
                        params,
                        audio_encoding,
                        include_language_detection,
                        Some(code),
                    ),
                ),
            ),
            (None, _) => Ok(
                url_with_pairs(
                    host,
                    endpoint_pairs(params, audio_encoding, include_language_detection, None),
                ),
            ),
        },
    }
}

/// The view of a conversion of a language tag.
pub open spec fn language_view(language: Result<String, String>) -> Result<Seq<char>, Seq<char>> {
    match language {
        Ok(code) => Ok(code@),
        Err(cause) => Err(cause@),
    }
}

/// The query of the endpoint.
pub fn pairs_for(
    params: &Params,
    audio_encoding: AudioEncoding,
    include_language_detection: bool,
    language_code: &Option<String>,
) -> (r: Vec<(String, String)>)
    ensures
        pair_texts(r@) == endpoint_pairs(
            *params,
            audio_encoding,
            include_language_detection,
            opt_view(*language_code),
        ),
{
    let mut pairs: Vec<(String, String)> = Vec::new();
    match &params.model {
        Some(model) => push_pair(&mut pairs, "model_id", model.as_str()),
        None => push_pair(&mut pairs, "model_id", "scribe_v2_realtime"),
    }
    if include_language_detection {
        push_pair(&mut pairs, "include_language_detection", "true");
    } else {
        push_pair(&mut pairs, "include_language_detection", "false");
    }
    push_pair(&mut pairs, "audio_format", audio_encoding.as_str());
    push_pair(&mut pairs, "commit_strategy", "vad");
    assert(pair_texts(pairs@) =~= seq![
        ("model_id"@, text_or(opt_view(params.model), "scribe_v2_realtime"@)),
        ("include_language_detection"@, bool_text(include_language_detection)),
        ("audio_format"@, encoding_name(audio_encoding)),
        ("commit_strategy"@, "vad"@),
    ]);
    push_pair_if(&mut pairs, "language_code", as_opt_str(language_code));
    push_pair_if(
        &mut pairs,
        "vad_silence_threshold_secs",
        as_opt_str(&params.vad_silence_threshold_secs),
    );
    push_pair_if(&mut pairs, "vad_threshold", as_opt_str(&params.vad_threshold));
    let min_speech = describe_number(params.min_speech_duration_ms);
    push_pair_if(&mut pairs, "min_speech_duration_ms", as_opt_str(&min_speech));
    let min_silence = describe_number(params.min_silence_duration_ms);
    push_pair_if(&mut pairs, "min_silence_duration_ms", as_opt_str(&min_silence));
    pairs
}

/// The endpoint for the parameters. `iso_language` is what their language tag means as an ISO 639-3
/// code, or why it means nothing; it does not matter if they have none.
pub fn build_endpoint(
    params: &Params,
    audio_encoding: AudioEncoding,
    include_language_detection: bool,
    iso_language: Result<String, String>,
) -> (r: Result<String, Error>)
    ensures
        ({
            let endpoint = endpoint_for(
                *params,
                audio_encoding,
                include_language_detection,
                language_view(iso_language),
            );
            &&& r is Ok <==> endpoint is Ok
            &&& r matches Ok(url) ==> endpoint->Ok_0 == url@
            &&& r matches Err(e) ==> endpoint->Err_0 == e@
        }),
{
    let host = match &params.host {
        Some(host) => host.as_str(),
        None => "wss://api.elevenlabs.io/v1/speech-to-text/realtime",
    };
    let mut url = match read_url(host) {
        Ok(url) => url,
        Err(cause) => {
            let error = Error::from_text(cause).context("Invalid ElevenLabs realtime host URL");
            assert(error@ =~= seq!["Invalid ElevenLabs realtime host URL"@, cause@]);
            return Err(error);
        },
    };
    let language_code = match &params.language {
        Some(language) => match iso_language {
            Ok(code) => Some(code),
            Err(cause) => {
                let mut message = concat3(
                    "Invalid ElevenLabs params.language '",
                    language.as_str(),
                    "': ",
                );
                message.append(cause.as_str());
                return Err(Error::from_text(message));
            },
        },
        None => None,
    };
    let pairs = pairs_for(params, audio_encoding, include_language_detection, &language_code);
    add_pairs(&mut url, &pairs);
    Ok(text_of(&url))
}

/// What is needed to hold a conversation.
pub struct TranscribePlan {
    pub endpoint: String,
    pub config: ConversationLoopConfig,
}

/// What does not change in the course of a conversation.
#[derive(Debug, Clone, Copy, PartialEq, Eq, Structural)]
pub struct ConversationLoopConfig {
    pub input_format: AudioFormat,
    pub include_language_detection: bool,
}

/// Whether the language is detected: only if that is asked for.
pub open spec fn detects_language(params: Params) -> bool {
    params.include_language_detection == Some(true)
}

impl ElevenLabsTranscribe {
    /// Decides how a conversation is held.
    pub fn conversation(
        &self,
        params: &Params,
        input_format: AudioFormat,
        iso_language: Result<String, String>,
    ) -> (r: Result<TranscribePlan, Error>)
        ensures
            ({
                let endpoint = endpoint_for(
                    *params,
                    encoding_for(input_format.sample_rate)->0,
                    detects_language(*params),
                    language_view(iso_language),
                );
                &&& r is Ok <==> input_format.channels == 1 && encoding_for(
                    input_format.sample_rate,
                ) is Some && endpoint is Ok
                &&& r matches Ok(plan) ==> plan.endpoint@ == endpoint->Ok_0 && plan.config == (
                ConversationLoopConfig {
                    input_format,
                    include_language_detection: detects_language(*params),
                })
                &&& r matches Err(e) ==> e@ == if input_format.channels != 1 {
                    seq!["ElevenLabs realtime currently requires mono input audio"@]
                } else if encoding_for(input_format.sample_rate) is None {
                    seq![unsupported_rate(input_format.sample_rate)]
                } else {
                    endpoint->Err_0
                }
            }),
    {
        if input_format.channels != 1 {
            return Err(Error::new("ElevenLabs realtime currently requires mono input audio"));
        }
        let include_language_detection = match params.include_language_detection {
            Some(wanted) => wanted,
            None => false,
        };
        let encoding = match resolve_audio_encoding(input_format) {
            Ok(encoding) => encoding,
            Err(error) => return Err(error),
        };
        match build_endpoint(params, encoding, include_language_detection, iso_language) {
            Ok(endpoint) => Ok(
                TranscribePlan {
                    endpoint,
                    config: ConversationLoopConfig { input_format, include_language_detection },
                },
            ),
            Err(error) => Err(error),
        }
    }
}

/// A message to the writer of the socket.
pub enum OutboundMessage {
    /// Audio, as base64 text.
    InputAudioChunk {
        audio_base_64: String,
        commit: bool,
        sample_rate: u32,
        previous_text: Option<String>,
    },
    /// Close the socket for writing.
    Close,
}

/// A message to the writer, as mathematical values.
pub enum OutboundView {
    InputAudioChunk {
        audio: Seq<char>,
        commit: bool,
        sample_rate: u32,
        previous_text: Option<Seq<char>>,
    },
    Close,
}

impl View for OutboundMessage {
    type V = OutboundView;

    open spec fn view(&self) -> OutboundView {
        match *self {
            OutboundMessage::InputAudioChunk {
                audio_base_64,
                commit,
                sample_rate,
                previous_text,
            } => OutboundView::InputAudioChunk {
                audio: audio_base_64@,
                commit,
                sample_rate,
                previous_text: opt_view(previous_text),
            },
            OutboundMessage::Close => OutboundView::Close,
        }
    }
}

/// The view of a message that may be absent.
pub open spec fn message_view(message: Option<OutboundMessage>) -> Option<OutboundView> {
    match message {
        Some(m) => Some(m@),
        None => None,
    }
}

/// The message for a frame of audio.
pub open spec fn audio_message(
    frame: FrameView,
    commit: bool,
    previous_text: Option<Seq<char>>,
) -> OutboundView {
    OutboundView::InputAudioChunk {
        audio: base64_text(le_bytes(frame.samples)),
        commit,
        sample_rate: frame.format.sample_rate,
        previous_text,
    }
}

/// The message for a frame of audio.
pub fn build_audio_chunk_message(
    frame: &AudioFrame,
    commit: bool,
    previous_text: Option<String>,
) -> (r: OutboundMessage)
    ensures
        r@ == audio_message(frame@, commit, opt_view(previous_text)),
{
    let bytes = frame.to_le_bytes();
    OutboundMessage::InputAudioChunk {
        audio_base_64: encode_base64(&bytes),
        commit,
        sample_rate: frame.format.sample_rate,
        previous_text,
    }
}

/// A transcript with what was detected of its language.
pub struct TimestampedTranscript {
    pub text: String,
    /// The language as a BCP 47 tag, or why there is none for the code that was detected.
    pub language: Option<Result<String, String>>,
}

/// Why a request was refused.
pub struct InvalidRequest {
    pub message: Option<String>,
    pub error: Option<String>,
}

/// An event of the server, read in each way that one of its types may need.
pub struct RealtimeEnvelope {
    pub message_type: String,
    pub payload: Value,
    /// The text of a transcript, or why there is none.
    pub transcript: Result<String, String>,
    /// A transcript with its language, or why there is none.
    pub timestamped: Result<TimestampedTranscript, String>,
    /// Why a request was refused, or why that cannot be told.
    pub invalid_request: Result<InvalidRequest, String>,
}

/// What comes of an event of the server.
pub enum Received {
    /// Nothing.
    Nothing,
    /// Text.
    Text { is_final: bool, text: Seq<char>, language: Option<Seq<char>> },
    /// The end of the conversation.
    Failure(Seq<Seq<char>>),
}

/// Whether an event of the given type reports an error.
pub open spec fn is_error_type(message_type: Seq<char>) -> bool {
    message_type == "scribe_error"@ || ("scribe_"@.is_prefix_of(message_type)
        && "_error"@.is_suffix_of(message_type))
}

/// Whether an event of the given type reports an error.
pub fn is_scribe_error_type(message_type: &str) -> (r: bool)
    ensures
        r == is_error_type(message_type@),
{
    same_text(message_type, "scribe_error") || (starts_with(message_type, "scribe_") && ends_with(
        message_type,
        "_error",
    ))
}

/// The message in an event that reports an error.
pub open spec fn error_message(payload: Seq<char>) -> Option<Seq<char>> {
    match json_string_member(payload, "message"@) {
        Some(message) => Some(message),
        None => json_string_member(payload, "error"@),
    }
}

/// The message of an event that reports an error: its message comes before its error.
pub fn message_or_error(message: Option<String>, error: Option<String>) -> (r: Option<String>)
    ensures
        opt_view(r) == if message is Some {
            opt_view(message)
        } else {
            opt_view(error)
        },
{
    match message {
        Some(message) => Some(message),
        None => error,
    }
}

/// The message in an event that reports an error.
pub fn extract_error_message(payload: &Value) -> (r: Option<String>)
    ensures
        opt_view(r) == error_message(json_text(*payload)),
{
    message_or_error(string_member(payload, "message"), string_member(payload, "error"))
}

/// The error for an event of the given type that reports one.
pub fn scribe_error(message_type: &str, message: Option<String>) -> (r: Error)
    ensures
        r@ == seq![
            "ElevenLabs "@ + message_type@ + ": "@ + text_or(
                opt_view(message),
                "ElevenLabs realtime returned an unspecified error"@,
            ),
        ],
{
    let message = match message {
        Some(message) => message,
        None => "ElevenLabs realtime returned an unspecified error".to_owned(),
    };
    let mut text = concat3("ElevenLabs ", message_type, ": ");
    text.append(message.as_str());
    Error::from_text(text)
}

/// The first of two texts that is there, or a default.
pub open spec fn first_of(
    a: Option<Seq<char>>,
    b: Option<Seq<char>>,
    default: Seq<char>,
) -> Seq<char> {
    text_or(
        if a is Some {
            a
        } else {
            b
        },
        default,
    )
}

/// The language of a transcript, if it could be told.
pub open spec fn detected(language: Option<Result<String, String>>) -> Option<Seq<char>> {
    match language {
        Some(Ok(tag)) => Some(tag@),
        _ => None,
    }
}

/// A transcript without a language.
pub open spec fn transcript_received(is_final: bool, transcript: Result<String, String>) -> Received {
    match transcript {
        Ok(text) => Received::Text { is_final, text: text@, language: None },
        Err(cause) => Received::Failure(seq![cause@]),
    }
}

/// What comes of an event of the server. With language detection, committed transcripts come twice,
/// and the one without a language is dropped.
pub open spec fn envelope_received(
    envelope: RealtimeEnvelope,
    include_language_detection: bool,
) -> Received {
    let kind = envelope.message_type@;
    if kind == "session_started"@ {
        Received::Nothing
    } else if kind == "partial_transcript"@ {
        transcript_received(false, envelope.transcript)
    } else if kind == "committed_transcript"@ {
        if include_language_detection {
            Received::Nothing
        } else {
            transcript_received(true, envelope.transcript)
        }
    } else if kind == "committed_transcript_with_timestamps"@ {
        match envelope.timestamped {
            Ok(t) => Received::Text {
                is_final: true,
                text: t.text@,
                language: detected(t.language),
            },
            Err(cause) => Received::Failure(seq![cause@]),
        }
    } else if kind == "invalid_request"@ {
        match envelope.invalid_request {
            Ok(request) => Received::Failure(
                seq![
                    "ElevenLabs invalid_request: "@ + first_of(
                        opt_view(request.message),
                        opt_view(request.error),
                        "ElevenLabs realtime rejected the request"@,
                    ),
                ],
            ),
            Err(cause) => Received::Failure(seq![cause@]),
        }
    } else if is_error_type(kind) {
        Received::Failure(
            seq![
                "ElevenLabs "@ + kind + ": "@ + text_or(
                    error_message(json_text(envelope.payload)),
                    "ElevenLabs realtime returned an unspecified error"@,
                ),
            ],
        )
    } else {
        Received::Nothing
    }
}

/// What comes of a text of the server.
pub open spec fn json_received(
    raw: Seq<char>,
    envelope: Result<RealtimeEnvelope, String>,
    include_language_detection: bool,
) -> Received {
    match envelope {
        Ok(envelope) => envelope_received(envelope, include_language_detection),
        Err(cause) => Received::Failure(seq!["Parsing ElevenLabs server event: "@ + raw, cause@]),
    }
}

/// What comes of a message of the server.
pub open spec fn message_received(
    message: SocketMessage<RealtimeEnvelope>,
    include_language_detection: bool,
) -> Received {
    match message {
        SocketMessage::Text { raw, event } => json_received(
            raw@,
            event,
            include_language_detection,
        ),
        _ => Received::Nothing,
    }
}

/// What is put out for it.
pub open spec fn received_out(received: Received) -> Seq<EmissionView<()>> {
    match received {
        Received::Text { is_final, text, language } => seq![
            EmissionView::Text { is_final, text, language, speaker: None },
        ],
        _ => Seq::empty(),
    }
}

/// Whether a call brought about what the model says.
pub open spec fn carried_out(
    received: Received,
    before: Seq<Emission<()>>,
    after: Seq<Emission<()>>,
    r: Result<(), Error>,
) -> bool {
    &&& emissions(after) == emissions(before) + received_out(received)
    &&& r is Err <==> received is Failure
    &&& r matches Err(e) ==> received->Failure_0 == e@
}

fn put_text(
    out: &mut Vec<Emission<()>>,
    is_final: bool,
    text: String,
    language: Option<String>,
) -> (r: Result<(), Error>)
    ensures
        r is Ok,
        emissions(final(out)@) == emissions(old(out)@) + received_out(
            Received::Text { is_final, text: text@, language: opt_view(language) },
        ),
{
    emit(out, Emission::Text { is_final, text, language, speaker: None });
    assert(emissions(out@) =~= emissions(old(out)@) + received_out(
        Received::Text { is_final, text: text@, language: opt_view(language) },
    ));
    Ok(())
}

/// Processes an event of the server, which was read from `raw`.
pub fn process_server_json(
    raw: &str,
    envelope: Result<RealtimeEnvelope, String>,
    out: &mut Vec<Emission<()>>,
    include_language_detection: bool,
) -> (r: Result<(), Error>)
    ensures
        carried_out(
            json_received(raw@, envelope, include_language_detection),
            old(out)@,
            final(out)@,
            r,
        ),
{
    assert(emissions(out@) + Seq::empty() =~= emissions(out@));
    let envelope = match envelope {
        Ok(envelope) => envelope,
        Err(cause) => {
            let outer = concat2("Parsing ElevenLabs server event: ", raw);
            let error = Error::from_text(cause).context(outer.as_str());
            assert(error@ =~= seq![outer@, cause@]);
            return Err(error);
        },
    };
    let kind = envelope.message_type.as_str();
    if same_text(kind, "session_started") {
        Ok(())
    } else if same_text(kind, "partial_transcript") {
        match envelope.transcript {
            Ok(text) => put_text(out, false, text, None),
            Err(cause) => Err(Error::from_text(cause)),
        }
    } else if same_text(kind, "committed_transcript") {
        if include_language_detection {
            return Ok(());
        }
        match envelope.transcript {
            Ok(text) => put_text(out, true, text, None),
            Err(cause) => Err(Error::from_text(cause)),
        }
    } else if same_text(kind, "committed_transcript_with_timestamps") {
        match envelope.timestamped {
            Ok(transcript) => {
                let language = match transcript.language {
                    Some(Ok(tag)) => Some(tag),
                    _ => None,
                };
                put_text(out, true, transcript.text, language)
            },
            Err(cause) => Err(Error::from_text(cause)),
        }
    } else if same_text(kind, "invalid_request") {
        match envelope.invalid_request {
            Ok(request) => {
                let message = match request.message {
                    Some(message) => message,
                    None => match request.error {
                        Some(error) => error,
                        None => "ElevenLabs realtime rejected the request".to_owned(),
                    },
                };
                Err(Error::from_text(concat2("ElevenLabs invalid_request: ", message.as_str())))
            },
            Err(cause) => Err(Error::from_text(cause)),
        }
    } else if is_scribe_error_type(kind) {
        Err(scribe_error(kind, extract_error_message(&envelope.payload)))
    } else {
        Ok(())
    }
}

/// Processes a message of the server.
pub fn process_server_message(
    message: SocketMessage<RealtimeEnvelope>,
    out: &mut Vec<Emission<()>>,
    include_language_detection: bool,
) -> (r: Result<(), Error>)
    ensures
        carried_out(
            message_received(message, include_language_detection),
            old(out)@,
            final(out)@,
            r,
        ),
{
    assert(emissions(out@) + Seq::empty() =~= emissions(out@));
    match message {
        SocketMessage::Text { raw, event } => process_server_json(
            raw.as_str(),
            event,
            out,
            include_language_detection,
        ),
        _ => Ok(()),
    }
}

/// What changes in the course of a conversation.
pub struct LoopState {
    /// The input ended.
    pub input_closed: bool,
    /// The socket was closed for writing.
    pub outbound_closed: bool,
    /// What goes with the next audio.
    pub previous_text: Option<String>,
}

/// The state of the loop, as mathematical values.
pub struct LoopView {
    pub input_closed: bool,
    pub outbound_closed: bool,
    pub previous_text: Option<Seq<char>>,
}

impl View for LoopState {
    type V = LoopView;

    open spec fn view(&self) -> LoopView {
        LoopView {
            input_closed: self.input_closed,
            outbound_closed: self.outbound_closed,
            previous_text: opt_view(self.previous_text),
        }
    }
}

impl LoopState {
    /// The state at the beginning.
    pub fn new(previous_text: Option<String>) -> (r: LoopState)
        ensures
            r@ == (LoopView {
                input_closed: false,
                outbound_closed: false,
                previous_text: opt_view(previous_text),
            }),
    {
        LoopState { input_closed: false, outbound_closed: false, previous_text }
    }

    /// Closes the socket for writing, at the end of the conversation, unless it is closed.
    pub fn finish(&mut self) -> (r: Option<OutboundMessage>)
        ensures
            message_view(r) == if old(self)@.outbound_closed {
                None
            } else {
                Some(OutboundView::Close)
            },
            final(self)@ == (LoopView { outbound_closed: true, ..old(self)@ }),
    {
        if self.outbound_closed {
            None
        } else {
            self.outbound_closed = true;
            Some(OutboundMessage::Close)
        }
    }
}

/// Something that happens in the course of a conversation.
pub enum TranscribeEvent {
    /// An input; `None` at the end.
    Input(Option<Input<()>>),
    /// A message of the server, or a failure of the socket; `None` when the socket is closed.
    Message(Option<Result<SocketMessage<RealtimeEnvelope>, String>>),
}

/// What comes of something that happens.
pub struct Handled {
    pub state: LoopView,
    pub message: Option<OutboundView>,
    pub out: Seq<EmissionView<()>>,
    pub result: Result<LoopControl, Seq<Seq<char>>>,
}

/// What comes of something that happens.
pub open spec fn handled(
    state: LoopView,
    event: TranscribeEvent,
    config: ConversationLoopConfig,
) -> Handled {
    let same = Handled {
        state,
        message: None,
        out: Seq::empty(),
        result: Ok(LoopControl::Continue),
    };
    match event {
        TranscribeEvent::Input(Some(Input::Audio { frame })) => if frame.format
            != config.input_format {
            Handled {
                result: Err(seq!["Received mixed input audio formats in conversation"@]),
                ..same
            }
        } else {
            Handled {
                state: LoopView { previous_text: None, ..state },
                message: Some(audio_message(frame@, false, state.previous_text)),
                ..same
            }
        },
        TranscribeEvent::Input(Some(_)) => same,
        TranscribeEvent::Input(None) => Handled {
            state: LoopView { input_closed: true, outbound_closed: true, ..state },
            message: if state.outbound_closed {
                None
            } else {
                Some(OutboundView::Close)
            },
            ..same
        },
        TranscribeEvent::Message(Some(Ok(message))) => {
            let received = message_received(message, config.include_language_detection);
            Handled {
                out: received_out(received),
                result: match received {
                    Received::Failure(chain) => Err(chain),
                    _ => Ok(LoopControl::Continue),
                },
                ..same
            }
        },
        TranscribeEvent::Message(Some(Err(cause))) => Handled {
            result: Err(seq!["Error reading ElevenLabs websocket: "@ + cause@]),
            ..same
        },
        TranscribeEvent::Message(None) => Handled { result: Ok(LoopControl::End), ..same },
    }
}

/// What to do about something that happened: what to send, and whether to go on.
pub struct Step {
    pub message: Option<OutboundMessage>,
    pub control: LoopControl,
}

/// One round of the loop of a conversation. No input comes after its end.
pub fn run_conversation_loop(
    state: &mut LoopState,
    event: TranscribeEvent,
    config: ConversationLoopConfig,
    out: &mut Vec<Emission<()>>,
) -> (r: Result<Step, Error>)
    requires
        event is Input ==> !old(state).input_closed,
    ensures
        ({
            let h = handled(old(state)@, event, config);
            &&& final(state)@ == h.state
            &&& emissions(final(out)@) == emissions(old(out)@) + h.out
            &&& r is Ok <==> h.result is Ok
            &&& r matches Ok(step) ==> step.control == h.result->Ok_0 && message_view(step.message)
                == h.message
            &&& r matches Err(e) ==> h.result->Err_0 == e@
        }),
{
    assert(emissions(out@) + Seq::empty() =~= emissions(out@));
    match event {
        TranscribeEvent::Input(Some(Input::Audio { frame })) => {
            if frame.format != config.input_format {
                return Err(Error::new("Received mixed input audio formats in conversation"));
            }
            let mut previous_text: Option<String> = None;
            core::mem::swap(&mut previous_text, &mut state.previous_text);
            let message = build_audio_chunk_message(&frame, false, previous_text);
            Ok(Step { message: Some(message), control: LoopControl::Continue })
        },
        TranscribeEvent::Input(Some(_)) => Ok(
            Step { message: None, control: LoopControl::Continue },
        ),
        TranscribeEvent::Input(None) => {
            state.input_closed = true;
            let message = state.finish();
            Ok(Step { message, control: LoopControl::Continue })
        },
        TranscribeEvent::Message(Some(Ok(message))) => match process_server_message(
            message,
            out,
            config.include_language_detection,
        ) {
            Ok(()) => Ok(Step { message: None, control: LoopControl::Continue }),
            Err(error) => Err(error),
        },
        TranscribeEvent::Message(Some(Err(cause))) => Err(
            Error::from_text(concat2("Error reading ElevenLabs websocket: ", cause.as_str())),
        ),
        TranscribeEvent::Message(None) => Ok(Step { message: None, control: LoopControl::End }),
    }
}

/// The previous text goes with the first audio and with no other.
pub proof fn law_previous_text_goes_once(
    state: LoopView,
    config: ConversationLoopConfig,
    first: AudioFrame,
    second: AudioFrame,
)
    requires
        first.format == config.input_format,
        second.format == config.input_format,
    ensures
        ({
            let a = handled(
                state,
                TranscribeEvent::Input(Some(Input::Audio { frame: first })),
                config,
            );
            let b = handled(
                a.state,
                TranscribeEvent::Input(Some(Input::Audio { frame: second })),
                config,
            );
            &&& a.message == Some(audio_message(first@, false, state.previous_text))
            &&& b.message == Some(audio_message(second@, false, None))
        }),
{
}

/// Of the two committed transcripts that come with language detection, one is put out.
pub proof fn law_one_committed_transcript(
    plain: RealtimeEnvelope,
    timestamped: RealtimeEnvelope,
    text: String,
    transcript: TimestampedTranscript,
)
    requires
        plain.message_type@ == "committed_transcript"@,
        plain.transcript == Ok::<String, String>(text),
        timestamped.message_type@ == "committed_transcript_with_timestamps"@,
        timestamped.timestamped == Ok::<TimestampedTranscript, String>(transcript),
    ensures
        received_out(envelope_received(plain, true)).len() + received_out(
            envelope_received(timestamped, true),
        ).len() == 1,
        received_out(envelope_received(plain, false)) == seq![plain_text::<()>(true, text@)],
{
    reveal_strlit("session_started");
    reveal_strlit("partial_transcript");
    reveal_strlit("committed_transcript");
    reveal_strlit("committed_transcript_with_timestamps");
    assert("session_started"@.len() == 15);
    assert("partial_transcript"@.len() == 18);
    assert("committed_transcript"@.len() == 20);
    assert("committed_transcript_with_timestamps"@.len() == 36);
}

/// The socket is closed for writing once.
pub proof fn law_closed_once(state: LoopView, config: ConversationLoopConfig)
    ensures
        handled(state, TranscribeEvent::Input(None), config).state.outbound_closed,
        state.outbound_closed ==> handled(
            state,
            TranscribeEvent::Input(None),
            config,
        ).message is None,
{
}

} // verus!

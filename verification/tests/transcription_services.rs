use context_switch::aristech;
use context_switch::aristech::synthesize::{
    get_tls_options, import_output_audio_format as aristech_format, AristechSynthesize, Codec,
    Container, Voice,
};
use context_switch::aristech::transcribe::{
    ApiKeyAuth, AristechTranscribe, AuthConfig, SpeechChunk,
};
use context_switch::audio::{AudioFormat, AudioFrame};
use context_switch::deepgram_transcribe::{
    normalize_endpoint, select_model_and_language_hints, DeepgramTranscribe, Encoding, FluxResponse,
    ListenAction, ListenEvent, Model, Params as DeepgramParams, ServiceOutputEvent, TurnDetection,
    TurnEvent,
};
use context_switch::error::Error;
use context_switch::google_transcribe::class_tokens::{OOV_CLASS_DIGIT_SEQUENCE, YEAR};
use context_switch::google_transcribe::client::{AudioEncoding, TranscribeClient};
use context_switch::google_transcribe::params::{
    bearer, project_id, Config, Region, TranscribeParams,
};
use context_switch::google_transcribe::transcribe::{
    forward_audio_and_emit_billing, handle_stream_error, should_restart_for_stream_limit,
    transcribe_and_process_stream_session, Code, ConversationAction, ConversationEvent,
    GoogleTranscribe, RecognitionResult, RecognizeResponse, SessionExit, StreamError, StreamSession,
};
use context_switch::input::{FlowControl, Input, SocketMessage};
use context_switch::language::Languages;
use context_switch::microsoft_voice_live::client::{
    default_transcription_model, Client, ClientEvent, DescribedEvent, Detector,
    MicrosoftVoiceLiveTranscribe, Params as VoiceLiveParams, ServerEvent,
    ServiceOutputEvent as VoiceLiveEvent, ThresholdLevel, TranscribeEvent,
    TurnDetection as VoiceLiveTurnDetection,
};
use context_switch::microsoft_voice_live::host::build_voice_live_url;
use context_switch::microsoft_voice_live::transcription::TranscriptionState;
use context_switch::modality::OutputModality;
use context_switch::output::{BillingValue, Emission, OutputPath, Speaker};

const FORMAT: AudioFormat = AudioFormat { channels: 1, sample_rate: 24000 };

fn s(text: &str) -> String {
    text.to_string()
}

fn frame(samples: Vec<i16>) -> AudioFrame {
    AudioFrame { format: FORMAT, samples }
}

// Voice Live

#[test]
fn voice_live_urls() {
    assert_eq!(
        build_voice_live_url(" wss://h/voice-live/realtime?old=1#x ", "gpt 4", "v1").unwrap(),
        "wss://h/voice-live/realtime?api-version=v1&model=gpt+4#x"
    );
    assert_eq!(
        build_voice_live_url("https://h", "m", "v").unwrap_err().chain,
        vec!["Unsupported Voice Live endpoint URL scheme: https. Use wss://"]
    );
    assert_eq!(
        build_voice_live_url("h", "m", "v").unwrap_err().chain[0],
        "Invalid Voice Live endpoint URL: h"
    );
}

fn voice_live_params() -> VoiceLiveParams {
    VoiceLiveParams {
        api_key: s("key"),
        endpoint: s("wss://h/p"),
        model: s("m"),
        api_version: None,
        transcription_model: default_transcription_model(),
        language: Some(s("en")),
        noise_reduction: None,
        turn_detection: None,
    }
}

#[test]
fn voice_live_hosts() {
    let host = MicrosoftVoiceLiveTranscribe.conversation(&voice_live_params()).ok().unwrap();
    assert_eq!(host.wss_url, "wss://h/p?api-version=2026-06-01-preview&model=m");
    assert_eq!(host.api_key, "key");
}

#[test]
fn voice_live_sessions_begin() {
    let client = Client::new();
    let mut params = voice_live_params();
    params.turn_detection = Some(VoiceLiveTurnDetection {
        threshold_level: Some(ThresholdLevel::High),
        timeout_ms: Some(300),
        threshold_bits: None,
        eager_threshold_bits: None,
    });
    let message = |event, description: &str| {
        Some(Ok(SocketMessage::Text {
            raw: s(""),
            event: Ok(DescribedEvent { event, description: s(description) }),
        }))
    };
    let event = client.begin(FORMAT, &params, message(ServerEvent::SessionCreated, "")).ok().unwrap();
    let ClientEvent::SessionUpdate { session } = event else { panic!("expected an update") };
    assert_eq!(session.transcription_model, "azure-speech");
    let turns = session.turn_detection;
    assert_eq!(turns.detector, Detector::AzureSemanticVadMultilingual);
    assert_eq!(turns.end_of_utterance.threshold_level, Some(ThresholdLevel::High));
    assert_eq!(turns.end_of_utterance.timeout_ms, Some(300));
    assert!(!turns.create_response);
    let failure = |message| client.begin(FORMAT, &params, message).err().unwrap().chain;
    assert_eq!(failure(None), vec!["Failed to receive the initial message"]);
    assert_eq!(
        failure(Some(Ok(SocketMessage::Close))),
        vec!["Expected a text message for session creation"]
    );
    assert_eq!(
        failure(message(ServerEvent::Error { message: s("no") }, "")),
        vec!["Failed to create the session: no"]
    );
    assert_eq!(
        failure(message(ServerEvent::Other, "Rate(1)")),
        vec!["Unexpected event in response to session creation: Rate(1)"]
    );
    let error = client
        .begin(AudioFormat::new(1, 16000), &params, message(ServerEvent::SessionCreated, ""))
        .err()
        .unwrap();
    assert!(error.chain[0].starts_with("Audio input has the wrong format AudioFormat { channels: 1, sample_rate: 16000 }"));
}

#[test]
fn voice_live_names_the_last_speaker() {
    let mut client = Client::new();
    let mut out = Vec::new();
    let segment = |speaker: Option<&str>| ServerEvent::ConversationItemInputAudioTranscriptionSegment {
        item_id: s("i"),
        speaker: speaker.map(s),
    };
    for event in [
        ServerEvent::ConversationItemInputAudioTranscriptionDelta {
            item_id: s("i"),
            content_index: 0,
            delta: s("hi"),
        },
        segment(Some("a")),
        segment(Some("b")),
        segment(None),
        ServerEvent::ConversationItemInputAudioTranscriptionCompleted {
            item_id: s("i"),
            content_index: 0,
            transcript: s(""),
        },
        ServerEvent::ConversationItemInputAudioTranscriptionCompleted {
            item_id: s("i"),
            content_index: 0,
            transcript: s("again"),
        },
    ] {
        client.handle_server_event(event, "{}", &mut out, Some("en")).unwrap();
    }
    assert!(matches!(&out[0], Emission::Text { is_final: false, text, language: Some(l), speaker: None } if text == "hi" && l == "en"));
    assert!(matches!(&out[1], Emission::Text { is_final: true, text, speaker: Some(Speaker::Named(n)), .. } if text == "hi" && n == "b"));
    assert!(matches!(&out[2], Emission::Text { is_final: true, text, speaker: None, .. } if text == "again"));
}

#[test]
fn voice_live_reports() {
    let mut client = Client::new();
    let mut out = Vec::new();
    client.handle_server_event(ServerEvent::SessionUpdated, "{ \"a\": 1 }", &mut out, None).unwrap();
    assert!(matches!(&out[0], Emission::ServiceEvent { path: OutputPath::Control, event: VoiceLiveEvent::SessionUpdated { message } } if message.to_string() == "{\"a\":1}"));
    let error = client
        .handle_server_event(ServerEvent::SessionUpdated, "{", &mut out, None)
        .unwrap_err();
    assert_eq!(error.chain[0], "Failed to parse raw session.updated payload: `{`");
    let started = ServerEvent::InputAudioBufferSpeechStarted { audio_start_ms: 5 };
    client.handle_server_event(started, "{}", &mut out, None).unwrap();
    assert!(matches!(&out[1], Emission::ServiceEvent { event: VoiceLiveEvent::SpeechStarted { audio_start_ms: 5 }, .. }));
    let failed = ServerEvent::ConversationItemInputAudioTranscriptionFailed { message: s("m") };
    assert_eq!(
        client.handle_server_event(failed, "{}", &mut out, None).unwrap_err().chain,
        vec!["Input audio transcription failed: m"]
    );
    let failed = ServerEvent::Error { message: s("m") };
    assert_eq!(
        client.handle_server_event(failed, "{}", &mut out, None).unwrap_err().chain,
        vec!["Voice Live error: m"]
    );
}

#[test]
fn voice_live_rounds() {
    let mut client = Client::new();
    let mut out = Vec::new();
    let input = TranscribeEvent::Input(Some(Input::Audio { frame: frame(vec![1; 24]) }));
    let step = client.transcribe(input, None, &mut out).ok().unwrap();
    assert!(matches!(step.event, Some(ClientEvent::InputAudioBufferAppend { audio }) if audio.len() == 64));
    assert!(matches!(&out[0], Emission::BillingRecords { records, .. } if records[0].value == BillingValue::Duration(1_000_000)));
    let step = client.transcribe(TranscribeEvent::Input(None), None, &mut out).ok().unwrap();
    assert!(matches!(step.flow, FlowControl::End));
    let ping = TranscribeEvent::Message(Some(Ok(SocketMessage::Ping(vec![1]))));
    let step = client.transcribe(ping, None, &mut out).ok().unwrap();
    assert!(matches!(step.flow, FlowControl::PongAndContinue(p) if p == vec![1]));
    let other = TranscribeEvent::Message(Some(Ok(SocketMessage::Other { description: s("B") })));
    assert_eq!(
        client.transcribe(other, None, &mut out).err().unwrap().chain,
        vec!["Unhandled websocket message: B"]
    );
}

#[test]
fn voice_live_transcripts() {
    let mut state = TranscriptionState::default();
    assert_eq!(state.apply_input_delta(s("i"), 0, s("a")), "a");
    assert_eq!(state.apply_input_delta(s("i"), 0, s("b")), "ab");
    assert_eq!(state.complete_input_transcription(s("i"), 0, s("")), Some(s("ab")));
    assert_eq!(state.complete_input_transcription(s("i"), 0, s("")), None);
}

// Google

fn transcribe_params(language: &str, numerals: bool) -> TranscribeParams {
    TranscribeParams { model: s("latest_long"), language: s(language), diarization: false, numerals }
}

#[test]
fn google_regions() {
    let config = Config::from(Region::Eu);
    assert_eq!(config.endpoint, "https://eu-speech.googleapis.com");
    assert_eq!(config.location, "eu");
    assert_eq!(Config::from(Region::default()).location, "global");
    assert_eq!(Config::default().endpoint, "");
}

#[test]
fn google_credentials() {
    assert_eq!(project_id("p", "{\"project_id\":\"x\"}").unwrap(), "x");
    assert_eq!(
        project_id("p", "{}").unwrap_err().chain,
        vec!["project_id missing in GOOGLE_APPLICATION_CREDENTIALS JSON"]
    );
    assert_eq!(
        project_id("p", "{").unwrap_err().chain[0],
        "GOOGLE_APPLICATION_CREDENTIALS does not contain valid JSON: p"
    );
    assert_eq!(bearer("t"), "Bearer t");
}

#[test]
fn google_streams_begin() {
    let client = TranscribeClient::new(s("proj"), s("eu"));
    let start = transcribe_and_process_stream_session(
        &client,
        &transcribe_params("en-US, de-DE", true),
        true,
        AudioFormat::new(1, 16000),
    )
    .ok()
    .unwrap();
    assert_eq!(start.config.recognizer, "projects/proj/locations/eu/recognizers/_");
    assert_eq!(start.config.language_codes, vec!["en-US", "de-DE"]);
    assert_eq!(start.config.phrase, Some((s(OOV_CLASS_DIGIT_SEQUENCE), 20)));
    assert_eq!(start.config.max_alternatives, 1);
    assert_eq!(start.config.encoding, AudioEncoding::Linear16);
    assert_eq!(start.config.diarization, None);
    assert!(start.config.interim_results);
    assert!(start.session.include_detected_language);
    let start = transcribe_and_process_stream_session(
        &client,
        &transcribe_params("en-US", false),
        false,
        AudioFormat::new(1, 16000),
    )
    .ok()
    .unwrap();
    assert!(start.config.phrase.is_none());
    assert!(!start.session.include_detected_language);
    assert!(transcribe_and_process_stream_session(
        &client,
        &transcribe_params(",", false),
        false,
        AudioFormat::new(1, 16000)
    )
    .is_err());
    assert_eq!(YEAR, "$YEAR");
    let requests = TranscribeClient::audio_requests(&vec![1; 5000]);
    assert_eq!(requests.iter().map(|r| r.len()).collect::<Vec<usize>>(), vec![8192, 1808]);
}

fn result(is_final: bool, language: &str, transcripts: &[&str]) -> RecognitionResult {
    RecognitionResult {
        is_final,
        language_code: s(language),
        alternatives: transcripts.iter().map(|t| s(t)).collect(),
    }
}

fn response(results: Vec<RecognitionResult>) -> Option<Result<RecognizeResponse, StreamError>> {
    Some(Ok(RecognizeResponse { end_of_single_utterance: false, results }))
}

#[test]
fn google_texts() {
    let mut session = StreamSession::new("m", true);
    let mut out = Vec::new();
    let interim = vec![
        result(false, " ", &[" hello", "unused"]),
        result(false, "", &[]),
        result(false, "de-de ", &[" world "]),
    ];
    session.process_stream_session(response(interim), &mut out).unwrap();
    assert!(matches!(&out[0], Emission::Text { is_final: false, text, language: Some(l), .. } if text == "hello world" && l == "de-de"));
    session
        .process_stream_session(response(vec![result(true, "de-de", &[" "])]), &mut out)
        .unwrap();
    assert!(matches!(&out[1], Emission::Text { is_final: true, text, .. } if text.is_empty()));
    let exit = session.process_stream_session(None, &mut out).unwrap();
    assert_eq!(exit, Some(SessionExit::AudioInputEnded));
    assert_eq!(out.len(), 2);
}

#[test]
fn google_promotes_pending_texts() {
    let mut session = StreamSession::new("m", false);
    let mut out = Vec::new();
    session
        .process_stream_session(response(vec![result(false, "en", &["half"])]), &mut out)
        .unwrap();
    session.process_stream_session(response(vec![]), &mut out).unwrap();
    let end = RecognizeResponse { end_of_single_utterance: true, results: vec![] };
    session.process_stream_session(Some(Ok(end)), &mut out).unwrap();
    let error = StreamError::Status {
        code: Code::Cancelled,
        message: s("cancelled"),
        error: Error::new("status"),
    };
    let exit = session.process_stream_session(Some(Err(error)), &mut out).unwrap();
    assert_eq!(exit, Some(SessionExit::StoppedBySingleUtterance));
    assert!(matches!(&out[1], Emission::Text { is_final: true, text, language: None, .. } if text == "half"));
    assert_eq!(out.len(), 2);
}

#[test]
fn google_stream_errors() {
    let limit = "409 MAX duration of 5 minutes reached for stream.";
    assert!(should_restart_for_stream_limit(Code::Aborted, limit));
    assert!(!should_restart_for_stream_limit(Code::Cancelled, limit));
    assert!(!should_restart_for_stream_limit(Code::Aborted, "other"));
    let status = |code, message: &str| StreamError::Status {
        code,
        message: s(message),
        error: Error::new("status"),
    };
    assert_eq!(
        handle_stream_error("m", false, status(Code::Aborted, limit)).unwrap(),
        SessionExit::StoppedByTimeout
    );
    assert_eq!(
        handle_stream_error("m", false, status(Code::Cancelled, "x")).unwrap_err().chain,
        vec![
            "Google streaming_recognize stopped (model=m, grpc_code=Cancelled, grpc_message=x)",
            "status"
        ]
    );
    let other = StreamError::Other { error: Error::new("io") };
    assert_eq!(
        handle_stream_error("m", true, other).unwrap_err().chain,
        vec!["Google streaming_recognize stopped with a non-gRPC error", "io"]
    );
}

#[test]
fn google_conversations_go_on() {
    let google = GoogleTranscribe;
    let exit = |e| google.conversation(ConversationEvent::SessionExit(e));
    assert!(matches!(exit(SessionExit::AudioInputEnded), ConversationAction::End));
    assert!(matches!(exit(SessionExit::StoppedByTimeout), ConversationAction::Restart));
    assert!(matches!(exit(SessionExit::StoppedBySingleUtterance), ConversationAction::Restart));
    assert!(matches!(
        google.conversation(ConversationEvent::Input(None)),
        ConversationAction::CloseAudio
    ));
    assert!(GoogleTranscribe::interim_results(&vec![OutputModality::Text, OutputModality::InterimText]));
    assert!(!GoogleTranscribe::interim_results(&vec![OutputModality::Text]));
    let mut open = true;
    let mut out: Vec<Emission<()>> = Vec::new();
    forward_audio_and_emit_billing(&mut open, true, &mut out, &frame(vec![0; 24]));
    assert!(open && out.len() == 1);
    forward_audio_and_emit_billing(&mut open, false, &mut out, &frame(vec![0; 24]));
    assert!(!open && out.len() == 1);
}

// Deepgram

#[test]
fn deepgram_endpoints() {
    assert_eq!(normalize_endpoint("wss://api/v2/listen//").unwrap(), "wss://api/");
    assert_eq!(normalize_endpoint("wss://api/x/v1/listen").unwrap(), "wss://api/x/");
    assert_eq!(
        normalize_endpoint("wss://api/v3/listen").unwrap_err().chain,
        vec!["invalid endpoint: expected terminal /v1/listen or /v2/listen path (wss://api/v3/listen)"]
    );
    assert_eq!(
        normalize_endpoint("wss://api/").unwrap_err().chain,
        vec!["invalid endpoint: expected full listen path (for example wss://api.deepgram.com/v2/listen), got base URL (wss://api/)"]
    );
}

#[test]
fn deepgram_models() {
    let one = Languages::from_csv("en-US").unwrap();
    let choice = select_model_and_language_hints(&one, Ok(s("eng"))).ok().unwrap();
    assert_eq!(choice.model, Model::FluxGeneralEn);
    assert!(choice.language_hints.is_none());
    let choice = select_model_and_language_hints(&one, Ok(s("deu"))).ok().unwrap();
    assert_eq!(choice.model, Model::FluxGeneralMulti);
    assert_eq!(choice.language_hints, Some(vec![s("en-US")]));
    let two = Languages::from_csv("en-US,xx").unwrap();
    let choice = select_model_and_language_hints(&two, Err(Error::new("unused"))).ok().unwrap();
    assert_eq!(choice.language_hints, Some(vec![s("en-US"), s("xx")]));
    let error = select_model_and_language_hints(&one, Err(Error::new("bad"))).err().unwrap();
    assert_eq!(error.chain, vec!["language must be a valid BCP 47 tag", "bad"]);
}

#[test]
fn deepgram_plans() {
    let params = |language: &str| DeepgramParams {
        api_key: s("k"),
        endpoint: s("wss://api/v2/listen"),
        language: s(language),
        profanity_filter: true,
        keyterm: vec![],
        turn_detection: TurnDetection {
            threshold_bits: Some(0.7f64.to_bits()),
            timeout_ms: None,
            eager_threshold_bits: None,
        },
    };
    let plan = DeepgramTranscribe.plan(params("de"), FORMAT, Ok(s("deu"))).ok().unwrap();
    assert_eq!(plan.endpoint, "wss://api/");
    assert_eq!(plan.sample_rate, 24000);
    assert_eq!(plan.encoding, Encoding::Linear16);
    assert!(plan.profanity_filter && plan.keyterms.is_none());
    assert_eq!(plan.turn_detection.threshold_bits, Some(0.7f64.to_bits()));
    assert_eq!(
        DeepgramTranscribe.plan(params(" "), FORMAT, Ok(s("deu"))).err().unwrap().chain,
        vec!["language must contain at least one locale code"]
    );
}

#[test]
fn deepgram_rounds() {
    let mut open = true;
    let mut out = Vec::new();
    let mut round = |event| DeepgramTranscribe.conversation(&mut open, event, &mut out);
    let turn = |event, transcript: &str| {
        ListenEvent::Response(Some(Ok(FluxResponse::TurnInfo {
            event,
            transcript: s(transcript),
            languages: vec![s("de"), s("en")],
        })))
    };
    round(turn(TurnEvent::StartOfTurn, "")).ok().unwrap();
    round(turn(TurnEvent::Update, "")).ok().unwrap();
    round(turn(TurnEvent::Update, "hal")).ok().unwrap();
    round(turn(TurnEvent::EndOfTurn, "hallo")).ok().unwrap();
    round(turn(TurnEvent::Unknown, "x")).ok().unwrap();
    let audio = ListenEvent::Input(Some(Input::Audio { frame: frame(vec![1]) }));
    assert!(matches!(round(audio), Ok(ListenAction::SendAudio(bytes)) if bytes == vec![1, 0]));
    assert!(matches!(round(ListenEvent::Response(None)), Ok(ListenAction::End)));
    let fatal = FluxResponse::FatalError { code: s("c"), description: s("d") };
    assert_eq!(
        round(ListenEvent::Response(Some(Ok(fatal)))).err().unwrap().chain,
        vec!["Deepgram stream error (c): d"]
    );
    assert_eq!(
        round(ListenEvent::Response(Some(Ok(FluxResponse::ConfigureFailure)))).err().unwrap().chain,
        vec!["Deepgram rejected a Flux reconfiguration update"]
    );
    assert!(matches!(round(ListenEvent::Input(None)), Ok(ListenAction::CloseAudio)));
    assert!(!open);
    assert!(matches!(&out[0], Emission::ServiceEvent { path: OutputPath::Media, event: ServiceOutputEvent::StartOfTurn }));
    assert!(matches!(&out[1], Emission::Text { is_final: false, text, language: Some(l), .. } if text == "hal" && l == "de"));
    assert!(matches!(&out[2], Emission::Text { is_final: true, text, .. } if text == "hallo"));
    assert!(matches!(&out[3], Emission::BillingRecords { records, .. } if records[0].value == BillingValue::Duration(41_666)));
    assert_eq!(out.len(), 4);
}

// Aristech

#[test]
fn aristech_voices() {
    let mut params = aristech::synthesize::Params {
        endpoint: s("e"),
        voice: None,
        token: s("t"),
        secret: s("s"),
    };
    let voices = vec![
        Voice { voice_id: s("anne_de_DE"), samplerate: Some(22050) },
        Voice { voice_id: s("other"), samplerate: None },
    ];
    let plan = AristechSynthesize.plan(&params, AudioFormat::new(1, 8000), &voices).ok().unwrap();
    assert_eq!(plan.voice, "anne_de_DE");
    assert_eq!(plan.output_format, AudioFormat::new(1, 22050));
    params.voice = Some(s("other"));
    let plan = AristechSynthesize.plan(&params, AudioFormat::new(1, 8000), &voices).ok().unwrap();
    assert_eq!(plan.audio.samplerate, 0);
    params.voice = Some(s("none"));
    let error = AristechSynthesize.plan(&params, AudioFormat::new(1, 8000), &voices).err().unwrap();
    assert_eq!(error.chain, vec!["Voice none not available"]);
    let options = get_tls_options(s("t"), s("x"));
    assert_eq!((options.token.as_str(), options.secret.as_str()), ("t", "x"));
    assert!(options.ca_certificate.is_none());
    assert_eq!(aristech_format(AudioFormat::new(2, 8000)).container, Container::Raw);
    assert_eq!(aristech_format(AudioFormat::new(2, 8000)).codec, Codec::Pcm);
    assert_eq!(aristech_format(AudioFormat::new(2, 8000)).channels, 2);
}

#[test]
fn aristech_synthesis() {
    let input = Input::Text { request_id: Some(s("r")), text: s("hi"), text_type: None, is_final: true };
    let request = AristechSynthesize.conversation(Some(input)).ok().unwrap().unwrap();
    assert_eq!(request.text, "hi");
    assert!(AristechSynthesize.conversation(None).ok().unwrap().is_none());
    let audio = Input::Audio { frame: frame(vec![]) };
    assert_eq!(
        AristechSynthesize.conversation(Some(audio)).err().unwrap().chain,
        vec!["Unexpected input"]
    );
    let mut out = Vec::new();
    AristechSynthesize.process_chunk(FORMAT, &request.request_id, Some(vec![1, 0]), &mut out);
    AristechSynthesize.process_chunk(FORMAT, &request.request_id, None, &mut out);
    assert!(matches!(&out[0], Emission::Audio(f) if f.samples == vec![1]));
    assert!(matches!(&out[1], Emission::RequestCompleted { request_id: Some(id) } if id == "r"));
}

#[test]
fn aristech_transcription() {
    let params = aristech::transcribe::Params {
        auth_config: AuthConfig::ApiKey(ApiKeyAuth { api_key: s("k") }),
        language: s("en_GB"),
        model: None,
        prompt: Some(s("p")),
    };
    let spec =
        AristechTranscribe.initial_request(params.language, params.model, params.prompt, FORMAT);
    assert_eq!((spec.sample_rate_hertz, spec.model.as_str(), spec.prompt.as_str()), (24000, "", "p"));
    assert!(spec.partial_results && !spec.single_utterance);
    assert_eq!(spec.audio_encoding, aristech::transcribe::AudioEncoding::Unspecified);
    let mut out = Vec::new();
    let chunks = vec![
        SpeechChunk { end_of_utterance: false, alternatives: vec![s("a"), s("b")] },
        SpeechChunk { end_of_utterance: true, alternatives: vec![] },
        SpeechChunk { end_of_utterance: true, alternatives: vec![s("c")] },
    ];
    AristechTranscribe.conversation(&chunks, &mut out);
    assert!(matches!(&out[0], Emission::Text { is_final: false, text, .. } if text == "a"));
    assert!(matches!(&out[1], Emission::Text { is_final: true, text, .. } if text == "c"));
    assert_eq!(out.len(), 2);
    let sent = AristechTranscribe.send_audio(Some(Input::Audio { frame: frame(vec![1]) }));
    assert_eq!(sent, Some(vec![1, 0]));
    assert_eq!(AristechTranscribe.send_audio(None), None);
}

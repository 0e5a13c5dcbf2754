use context_switch::audio::{AudioFormat, AudioFrame};
use context_switch::elevenlabs::synthesis_state::{Phase, SynthesisState};
use context_switch::elevenlabs::synthesize;
use context_switch::elevenlabs::synthesize::{
    resolve_output_format, ElevenLabsSynthesize, GenerationConfig, LoopControl, OutboundMessage,
    SynthesisEvent, TextNormalization, VoiceSettings,
};
use context_switch::elevenlabs::transcribe;
use context_switch::elevenlabs::transcribe::{
    extract_error_message, is_scribe_error_type, resolve_audio_encoding, AudioEncoding,
    ConversationLoopConfig, ElevenLabsTranscribe, InvalidRequest, LoopState, RealtimeEnvelope,
    TimestampedTranscript, TranscribeEvent,
};
use context_switch::input::{Input, SocketMessage};
use context_switch::output::{BillingValue, Emission};
use serde_json::Value;

const FORMAT: AudioFormat = AudioFormat { channels: 1, sample_rate: 24000 };

fn s(text: &str) -> String {
    text.to_string()
}

fn fragment(request_id: Option<&str>, text: &str, is_final: bool) -> SynthesisEvent {
    SynthesisEvent::Input(Some(Input::Text {
        request_id: request_id.map(s),
        text: s(text),
        text_type: None,
        is_final,
    }))
}

fn settings() -> Option<VoiceSettings> {
    Some(VoiceSettings {
        stability_bits: Some(0.5f64.to_bits()),
        similarity_boost_bits: None,
        style_bits: None,
        use_speaker_boost: Some(true),
        speed_bits: None,
    })
}

fn server(event: synthesize::ServerEvent) -> SynthesisEvent {
    SynthesisEvent::Message(Some(Ok(SocketMessage::Text { raw: s("{}"), event: Ok(event) })))
}

fn event(context_id: Option<&str>, audio: Option<&str>, is_final: bool) -> synthesize::ServerEvent {
    synthesize::ServerEvent {
        audio: audio.map(s),
        is_final: Some(is_final),
        context_id: context_id.map(s),
        message: None,
        error: None,
    }
}

#[test]
fn requests_are_synthesized_one_at_a_time() {
    let mut state = SynthesisState::new();
    let (mut sent, mut out) = (Vec::new(), Vec::new());
    let config = Some(GenerationConfig { chunk_length_schedule: Some(vec![50, 60]) });
    let mut round = |state: &mut SynthesisState, event| {
        synthesize::run_conversation_loop(state, event, FORMAT, settings(), &config, &mut sent, &mut out)
            .unwrap()
    };
    round(&mut state, fragment(Some("r1"), "Hello  ", false));
    round(&mut state, fragment(None, "world", true));
    assert!(!state.accepts_input());
    assert_eq!(state.active_context_id(), Some("1"));
    round(&mut state, server(event(Some("1"), Some("AQA="), false)));
    round(&mut state, server(event(Some("0"), Some("AQA="), true)));
    round(&mut state, server(event(Some("1"), None, true)));
    assert!(state.accepts_input());
    round(&mut state, fragment(None, "next", false));
    assert_eq!(state.active_context_id(), Some("2"));

    // Settings go with the first fragment of a request, and with no other.
    assert!(matches!(&sent[0], OutboundMessage::Text { text, context_id, voice_settings: Some(_), generation_config: Some(c) }
        if text == "Hello " && context_id == "1" && c.chunk_length_schedule == Some(vec![50, 60])));
    assert!(matches!(&sent[1], OutboundMessage::Text { text, context_id, voice_settings: None, generation_config: None }
        if text == "world " && context_id == "1"));
    assert!(matches!(&sent[2], OutboundMessage::Flush { context_id } if context_id == "1"));
    assert!(matches!(&sent[3], OutboundMessage::CloseContext { context_id } if context_id == "1"));
    assert!(matches!(&sent[4], OutboundMessage::Text { voice_settings: Some(_), .. }));
    assert_eq!(sent.len(), 5);

    assert!(matches!(&out[0], Emission::BillingRecords { request_id: Some(id), records, .. }
        if id == "r1" && records[0].name == "output:characters" && records[0].value == BillingValue::Count(7)));
    assert!(matches!(&out[1], Emission::BillingRecords { request_id: Some(id), .. } if id == "r1"));
    assert!(matches!(&out[2], Emission::Audio(frame) if frame.samples == vec![1]));
    assert!(matches!(&out[3], Emission::RequestCompleted { request_id: Some(id) } if id == "r1"));
    assert!(matches!(&out[4], Emission::BillingRecords { request_id: None, .. }));
    assert_eq!(out.len(), 5);
}

#[test]
fn request_ids_must_not_change() {
    let mut state = SynthesisState::new();
    state.record_fragment(Some(s("a"))).unwrap();
    assert_eq!(state.record_fragment(None).unwrap(), "1");
    assert_eq!(state.record_fragment(Some(s("a"))).unwrap(), "1");
    assert_eq!(
        state.record_fragment(Some(s("b"))).unwrap_err().chain,
        vec!["ElevenLabs synthesize request id changed within a text sequence"]
    );
    assert_eq!(state.active_request_id(), Some(s("a")));
}

#[test]
fn interrupted_requests_are_completed() {
    let mut state = SynthesisState::new();
    let (mut sent, mut out) = (Vec::new(), Vec::new());
    let mut round = |event| {
        synthesize::run_conversation_loop(&mut state, event, FORMAT, None, &None, &mut sent, &mut out)
    };
    round(fragment(Some("r"), "half", false)).unwrap();
    assert_eq!(round(SynthesisEvent::Input(None)).unwrap(), LoopControl::Continue);
    round(server(event(None, None, true))).unwrap();
    assert_eq!(round(SynthesisEvent::Message(None)).unwrap(), LoopControl::End);
    assert!(matches!(&sent[1], OutboundMessage::Flush { context_id } if context_id == "1"));
    assert!(matches!(&sent[2], OutboundMessage::CloseSocket));
    assert!(matches!(&out[1], Emission::RequestCompleted { request_id: Some(id) } if id == "r"));
}

#[test]
fn stray_ends_change_nothing() {
    let mut state = SynthesisState::new();
    assert_eq!(state.context_finalized(), None);
    state.record_fragment(Some(s("a"))).unwrap();
    assert_eq!(state.context_finalized(), None);
    assert_eq!(state.active_context_id(), Some("1"));
    state.finalize();
    assert_eq!(state.context_finalized(), Some(s("a")));
    assert_eq!(state.close_input(), None);
    assert!(state.is_closing());
}

#[test]
fn ends_of_no_request_take_input_again() {
    let mut state = SynthesisState::new();
    state.finalize();
    assert!(matches!(state.phase, Phase::Accepting));
    state.record_fragment(Some(s("a"))).unwrap();
    state.finalize();
    assert!(!state.accepts_input());
    state.finalize();
    assert!(matches!(state.phase, Phase::Accepting));
    assert_eq!(state.close_input(), None);
    state.finalize();
    assert!(state.accepts_input());
    assert_eq!(state.record_fragment(None).unwrap(), "2");
}

#[test]
fn context_numbers_may_run_out_while_a_request_goes_on() {
    let mut state = SynthesisState { phase: Phase::Accepting, next_id: u64::MAX - 1 };
    assert_eq!(state.record_fragment(None).unwrap(), "18446744073709551615");
    assert_eq!(state.record_fragment(None).unwrap(), "18446744073709551615");
}

#[test]
fn synthesis_failures() {
    let mut state = SynthesisState::new();
    let (mut sent, mut out) = (Vec::new(), Vec::new());
    let mut failure = |event| {
        synthesize::run_conversation_loop(&mut state, event, FORMAT, None, &None, &mut sent, &mut out)
            .unwrap_err()
            .chain
    };
    let frame = AudioFrame { format: FORMAT, samples: vec![] };
    assert_eq!(
        failure(SynthesisEvent::Input(Some(Input::Audio { frame }))),
        vec!["ElevenLabs synthesize received non-text input"]
    );
    assert_eq!(
        failure(SynthesisEvent::Message(Some(Err(s("reset"))))),
        vec!["Error reading ElevenLabs websocket: reset"]
    );
    assert_eq!(
        failure(SynthesisEvent::Message(None)),
        vec!["ElevenLabs websocket closed before synthesis completed"]
    );
    let mut refused = event(Some("9"), None, false);
    refused.error = Some(s("voice"));
    assert_eq!(failure(server(refused)), vec!["ElevenLabs realtime TTS error: voice"]);
    assert_eq!(failure(server(event(None, Some("?"), false)))[0], "Decoding ElevenLabs audio chunk");
    let text = SocketMessage::Text { raw: s("{"), event: Err(s("eof")) };
    assert_eq!(
        failure(SynthesisEvent::Message(Some(Ok(text)))),
        vec!["Parsing ElevenLabs TTS server event: {", "eof"]
    );
}

#[test]
fn synthesis_formats() {
    assert_eq!(resolve_output_format(AudioFormat::new(1, 22050)).unwrap(), "pcm_22050");
    assert_eq!(
        resolve_output_format(AudioFormat::new(2, 22050)).unwrap_err().chain,
        vec!["ElevenLabs realtime TTS requires mono output audio"]
    );
    assert_eq!(
        resolve_output_format(AudioFormat::new(1, 48000)).unwrap_err().chain,
        vec!["Unsupported output sample rate 48000 for ElevenLabs realtime TTS. Supported sample rates: 8000, 16000, 22050, 24000, 44100 Hz"]
    );
}

#[test]
fn synthesis_endpoints() {
    let mut params = synthesize::Params {
        api_key: s("key"),
        voice: s("v/1"),
        model: None,
        endpoint: None,
        language: None,
        voice_settings: None,
        generation_config: None,
        apply_text_normalization: None,
        auto_mode: None,
    };
    assert_eq!(
        ElevenLabsSynthesize.conversation(&params, FORMAT).unwrap(),
        "wss://api.elevenlabs.io/v1/text-to-speech/v%2F1/multi-stream-input?model_id=eleven_flash_v2_5&output_format=pcm_24000&inactivity_timeout=180"
    );
    params.endpoint = Some(s("wss://h.example"));
    params.model = Some(s("m x"));
    params.language = Some(s("de"));
    params.apply_text_normalization = Some(TextNormalization::Off);
    params.auto_mode = Some(true);
    assert_eq!(
        ElevenLabsSynthesize.conversation(&params, FORMAT).unwrap(),
        "wss://h.example/v1/text-to-speech/v%2F1/multi-stream-input?model_id=m+x&output_format=pcm_24000&inactivity_timeout=180&language_code=de&apply_text_normalization=off&auto_mode=true"
    );
    params.endpoint = Some(s("mailto:a@b"));
    assert_eq!(
        ElevenLabsSynthesize.conversation(&params, FORMAT).unwrap_err().chain,
        vec!["ElevenLabs realtime TTS host cannot be a base URL"]
    );
    params.endpoint = Some(s("nowhere"));
    assert_eq!(
        ElevenLabsSynthesize.conversation(&params, FORMAT).unwrap_err().chain[0],
        "Invalid ElevenLabs realtime TTS host URL"
    );
}

fn transcribe_params() -> transcribe::Params {
    transcribe::Params {
        api_key: s("key"),
        model: None,
        host: None,
        language: None,
        include_language_detection: None,
        vad_silence_threshold_secs: None,
        vad_threshold: None,
        min_speech_duration_ms: None,
        min_silence_duration_ms: None,
        previous_text: None,
    }
}

#[test]
fn transcription_endpoints() {
    let mut params = transcribe_params();
    let plan = ElevenLabsTranscribe.conversation(&params, FORMAT, Err(s("unused"))).ok().unwrap();
    assert_eq!(
        plan.endpoint,
        "wss://api.elevenlabs.io/v1/speech-to-text/realtime?model_id=scribe_v2_realtime&include_language_detection=false&audio_format=pcm_24000&commit_strategy=vad"
    );
    assert_eq!(
        plan.config,
        ConversationLoopConfig { input_format: FORMAT, include_language_detection: false }
    );
    params.host = Some(s("wss://h/x"));
    params.language = Some(s("en-US"));
    params.include_language_detection = Some(true);
    params.vad_silence_threshold_secs = Some(s("1.5"));
    params.vad_threshold = Some(s("0.4"));
    params.min_speech_duration_ms = Some(100);
    params.min_silence_duration_ms = Some(200);
    let plan = ElevenLabsTranscribe.conversation(&params, FORMAT, Ok(s("eng"))).ok().unwrap();
    assert_eq!(
        plan.endpoint,
        "wss://h/x?model_id=scribe_v2_realtime&include_language_detection=true&audio_format=pcm_24000&commit_strategy=vad&language_code=eng&vad_silence_threshold_secs=1.5&vad_threshold=0.4&min_speech_duration_ms=100&min_silence_duration_ms=200"
    );
    let error = ElevenLabsTranscribe.conversation(&params, FORMAT, Err(s("bad tag"))).err().unwrap();
    assert_eq!(error.chain, vec!["Invalid ElevenLabs params.language 'en-US': bad tag"]);
    params.host = Some(s("h"));
    let error = ElevenLabsTranscribe.conversation(&params, FORMAT, Err(s("bad tag"))).err().unwrap();
    assert_eq!(error.chain[0], "Invalid ElevenLabs realtime host URL");
    let stereo = AudioFormat::new(2, 24000);
    let error = ElevenLabsTranscribe.conversation(&params, stereo, Ok(s("eng"))).err().unwrap();
    assert_eq!(error.chain, vec!["ElevenLabs realtime currently requires mono input audio"]);
}

#[test]
fn transcription_encodings() {
    assert_eq!(
        resolve_audio_encoding(AudioFormat::new(1, 48000)).unwrap(),
        AudioEncoding::Pcm48000
    );
    assert_eq!(AudioEncoding::Pcm44100.as_str(), "pcm_44100");
    assert_eq!(
        resolve_audio_encoding(AudioFormat::new(1, 11025)).unwrap_err().chain,
        vec!["Unsupported input sample rate 11025 for ElevenLabs realtime. Supported sample rates: 8000, 16000, 22050, 24000, 44100, 48000 Hz"]
    );
}

fn envelope(message_type: &str, payload: &str) -> RealtimeEnvelope {
    let payload: Value = serde_json::from_str(payload).unwrap();
    let text = payload.get("text").and_then(Value::as_str).map(s).ok_or(s("missing field `text`"));
    RealtimeEnvelope {
        message_type: s(message_type),
        transcript: text.clone(),
        timestamped: text.map(|text| TimestampedTranscript { text, language: Some(Ok(s("de-DE"))) }),
        invalid_request: Ok(InvalidRequest { message: None, error: Some(s("bad language")) }),
        payload,
    }
}

fn process(
    envelope: RealtimeEnvelope,
    detection: bool,
) -> Result<Vec<Emission<()>>, Vec<String>> {
    let mut out = Vec::new();
    let message = SocketMessage::Text { raw: s("{}"), event: Ok(envelope) };
    transcribe::process_server_message(message, &mut out, detection)
        .map(|()| out)
        .map_err(|e| e.chain)
}

#[test]
fn transcripts_of_the_server() {
    let payload = "{\"text\":\"hallo\"}";
    let out = process(envelope("partial_transcript", payload), true).unwrap();
    assert!(matches!(&out[0], Emission::Text { is_final: false, text, language: None, .. } if text == "hallo"));
    let out = process(envelope("committed_transcript", payload), false).unwrap();
    assert!(matches!(&out[0], Emission::Text { is_final: true, language: None, .. }));
    assert!(process(envelope("committed_transcript", payload), true).unwrap().is_empty());
    let out = process(envelope("committed_transcript_with_timestamps", payload), true).unwrap();
    assert!(matches!(&out[0], Emission::Text { is_final: true, language: Some(l), .. } if l == "de-DE"));
    let mut unknown = envelope("committed_transcript_with_timestamps", payload);
    unknown.timestamped =
        Ok(TimestampedTranscript { text: s("x"), language: Some(Err(s("no such code"))) });
    let out = process(unknown, true).unwrap();
    assert!(matches!(&out[0], Emission::Text { language: None, .. }));
    assert!(process(envelope("session_started", "{}"), false).unwrap().is_empty());
    assert!(process(envelope("something_else", "{}"), false).unwrap().is_empty());
}

#[test]
fn errors_of_the_server() {
    assert_eq!(
        process(envelope("partial_transcript", "{}"), false).unwrap_err(),
        vec!["missing field `text`"]
    );
    assert_eq!(
        process(envelope("invalid_request", "{}"), false).unwrap_err(),
        vec!["ElevenLabs invalid_request: bad language"]
    );
    assert_eq!(
        process(envelope("scribe_quota_error", "{\"error\":\"quota\"}"), false).unwrap_err(),
        vec!["ElevenLabs scribe_quota_error: quota"]
    );
    assert_eq!(
        process(envelope("scribe_error", "{\"message\":1}"), false).unwrap_err(),
        vec!["ElevenLabs scribe_error: ElevenLabs realtime returned an unspecified error"]
    );
    let payload: Value = serde_json::from_str("{\"message\":\"m\",\"error\":\"e\"}").unwrap();
    assert_eq!(extract_error_message(&payload), Some(s("m")));
    assert!(is_scribe_error_type("scribe_x_error"));
    assert!(!is_scribe_error_type("scribe_x"));
}

#[test]
fn audio_is_sent_with_the_previous_text_once() {
    let config = ConversationLoopConfig { input_format: FORMAT, include_language_detection: false };
    let mut state = LoopState::new(Some(s("before")));
    let mut out = Vec::new();
    let mut send = |samples: Vec<i16>, format| {
        let input = Some(Input::Audio { frame: AudioFrame { format, samples } });
        transcribe::run_conversation_loop(&mut state, TranscribeEvent::Input(input), config, &mut out)
    };
    let step = send(vec![1], FORMAT).ok().unwrap();
    assert!(matches!(step.message, Some(transcribe::OutboundMessage::InputAudioChunk { audio_base_64, commit: false, sample_rate: 24000, previous_text: Some(t) })
        if audio_base_64 == "AQA=" && t == "before"));
    let step = send(vec![1], FORMAT).ok().unwrap();
    assert!(matches!(step.message, Some(transcribe::OutboundMessage::InputAudioChunk { previous_text: None, .. })));
    assert_eq!(
        send(vec![1], AudioFormat::new(1, 8000)).err().unwrap().chain,
        vec!["Received mixed input audio formats in conversation"]
    );
    let end = TranscribeEvent::Input(None);
    let step = transcribe::run_conversation_loop(&mut state, end, config, &mut out).ok().unwrap();
    assert!(matches!(step.message, Some(transcribe::OutboundMessage::Close)));
    assert!(state.finish().is_none());
    let closed = TranscribeEvent::Message(None);
    let step = transcribe::run_conversation_loop(&mut state, closed, config, &mut out).ok().unwrap();
    assert_eq!(step.control, LoopControl::End);
}

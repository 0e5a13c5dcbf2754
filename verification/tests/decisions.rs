//! The functions that take what was read elsewhere.

use context_switch::audio::AudioFormat;
use context_switch::azure::host::{Address, Host};
use context_switch::elevenlabs::transcribe::{message_or_error, scribe_error};
use context_switch::google_dialog::client::Client as GoogleClient;
use context_switch::google_dialog::setup::{Endpoint, TextOutputs};
use context_switch::google_dialog::types::Params as GoogleParams;
use context_switch::google_transcribe::params::project_or_error;
use context_switch::microsoft_voice_live::client::{
    session_updated, transcription_turn_detection, Detector, EndOfUtterance, EndOfUtteranceModel,
    ServiceOutputEvent as VoiceLiveEvent, ThresholdLevel, TurnDetection, TurnSettings,
};
use context_switch::microsoft_voice_live::host::check_scheme;
use context_switch::openai_dialog::client::function_call;
use context_switch::openai_dialog::host::{protocol_of_url, Protocol};
use context_switch::openai_dialog::session::check_formats;
use context_switch::openai_dialog::types::{Item, ItemType, ServiceOutputEvent, Status};
use context_switch::playback::method::{
    method_for_url, supported_audio_type, AudioType, PlaybackMethod, RemoteUrl,
};
use context_switch::urls::UrlParts;
use serde_json::Value;

fn s(text: &str) -> String {
    text.to_string()
}

#[test]
fn projects_that_were_read() {
    assert_eq!(project_or_error("k.json", Ok(Some(s("p")))).unwrap(), "p");
    assert_eq!(
        project_or_error("k.json", Ok(None)).unwrap_err().chain,
        vec![s("project_id missing in GOOGLE_APPLICATION_CREDENTIALS JSON")]
    );
    assert_eq!(
        project_or_error("k.json", Err(s("eof"))).unwrap_err().chain,
        vec![
            s("GOOGLE_APPLICATION_CREDENTIALS does not contain valid JSON: k.json"),
            s("eof"),
        ]
    );
}

#[test]
fn function_calls_need_a_name_an_id_and_arguments() {
    let item = |name: Option<&str>| Item {
        id: None,
        item_type: Some(ItemType::FunctionCall),
        status: Some(Status::Completed),
        name: name.map(s),
        call_id: Some(s("c1")),
        arguments: None,
    };
    let read = || Some(Ok(Value::Bool(true)));
    assert!(function_call(Status::NotCompleted, &item(Some("f")), read()).is_none());
    assert!(function_call(Status::Completed, &item(None), read()).unwrap().is_none());
    assert!(function_call(Status::Completed, &item(Some("f")), Some(Err(s("eof"))))
        .unwrap()
        .is_none());
    match function_call(Status::Completed, &item(Some("f")), read()) {
        Some(Some(ServiceOutputEvent::FunctionCall { call_id, name, arguments })) => {
            assert_eq!((call_id, name), (s("c1"), s("f")));
            assert_eq!(arguments, Some(Value::Bool(true)));
        }
        _ => panic!(),
    }
}

#[test]
fn sessions_that_were_updated() {
    match session_updated("{}", Ok(Value::Null)).unwrap() {
        VoiceLiveEvent::SessionUpdated { message } => assert_eq!(message, Value::Null),
        _ => panic!(),
    }
    match session_updated("{", Err(s("eof"))) {
        Err(error) => assert_eq!(
            error.chain,
            vec![s("Failed to parse raw session.updated payload: `{`"), s("eof")]
        ),
        Ok(_) => panic!(),
    }
}

#[test]
fn voice_live_takes_secure_sockets_only() {
    assert!(check_scheme("wss").is_ok());
    assert_eq!(
        check_scheme("https").unwrap_err().chain,
        vec![s("Unsupported Voice Live endpoint URL scheme: https. Use wss://")]
    );
}

#[test]
fn configured_ends_of_utterances() {
    let configured = TurnDetection {
        threshold_level: Some(ThresholdLevel::Medium),
        timeout_ms: Some(700),
        threshold_bits: None,
        eager_threshold_bits: None,
    };
    let settings = transcription_turn_detection(Some(configured));
    assert_eq!(
        settings,
        TurnSettings {
            detector: Detector::AzureSemanticVadMultilingual,
            end_of_utterance: EndOfUtterance {
                model: EndOfUtteranceModel::SmartEndOfTurnDetection,
                threshold_level: Some(ThresholdLevel::Medium),
                timeout_ms: Some(700),
            },
            create_response: false,
        }
    );
    let with_threshold =
        TurnDetection { threshold_bits: Some(0.5f64.to_bits()), ..configured };
    assert_eq!(transcription_turn_detection(Some(with_threshold)), settings);
    let default = transcription_turn_detection(None);
    assert_eq!(default.detector, Detector::AzureSemanticVadMultilingual);
    assert_eq!(default.end_of_utterance.model, EndOfUtteranceModel::SmartEndOfTurnDetection);
    assert_eq!(default.end_of_utterance.threshold_level, None);
    assert_eq!(default.end_of_utterance.timeout_ms, None);
}

#[test]
fn scribe_errors() {
    assert_eq!(message_or_error(Some(s("m")), Some(s("e"))), Some(s("m")));
    assert_eq!(message_or_error(None, Some(s("e"))), Some(s("e")));
    assert_eq!(message_or_error(None, None), None);
    assert_eq!(
        scribe_error("quota_exceeded", Some(s("m"))).chain,
        vec![s("ElevenLabs quota_exceeded: m")]
    );
    assert_eq!(
        scribe_error("auth_error", None).chain,
        vec![s("ElevenLabs auth_error: ElevenLabs realtime returned an unspecified error")]
    );
}

#[test]
fn hosts_that_were_read() {
    let host = Host::from_read(Ok(s("wss://a/")), s("k")).unwrap();
    assert!(matches!(host.address, Address::Url(url) if url == "wss://a/"));
    assert_eq!(host.subscription_key, "k");
    match Host::from_read(Err(s("empty host")), s("k")) {
        Err(error) => assert_eq!(error.chain, vec![s("empty host")]),
        Ok(_) => panic!(),
    }
    let host = Host::from_subscription(s("eu"), s("k"));
    assert!(matches!(host.address, Address::Region(region) if region == "eu"));
}

#[test]
fn urls_that_were_read() {
    let url = |scheme: &str| RemoteUrl { url: s("u"), scheme: s(scheme), path: s("/p") };
    for scheme in ["http", "https"] {
        match method_for_url(Ok(url(scheme))) {
            Ok(PlaybackMethod::Remote { url, path }) => assert_eq!((url, path), (s("u"), s("/p"))),
            _ => panic!(),
        }
    }
    match method_for_url(Ok(url("ftp"))) {
        Err(error) => assert_eq!(
            error.chain,
            vec![s("Unsupported URI scheme in text/uri-list, expecting either `http://` or `https://`")]
        ),
        Ok(_) => panic!(),
    }
    match method_for_url(Err(s("relative"))) {
        Err(error) => assert_eq!(
            error.chain,
            vec![s("Failed to parse URI in text/uri-list"), s("relative")]
        ),
        Ok(_) => panic!(),
    }
}

#[test]
fn audio_types_of_guesses() {
    let kind = |mime, guessed: Option<&str>| supported_audio_type(mime, guessed.map(s));
    assert_eq!(kind(None, Some("audio/wav")).unwrap(), AudioType::Wav);
    assert_eq!(kind(Some("audio/mpeg"), Some("audio/wav")).unwrap(), AudioType::MP3);
    assert_eq!(
        kind(None, None).unwrap_err().chain,
        vec![s("Invalid audio url (should end in `.mp3` or `.wav`)")]
    );
    assert_eq!(
        kind(None, Some("audio/ogg")).unwrap_err().chain,
        vec![s("Invalid audio url, guessed or provided mime type: audio/ogg")]
    );
}

#[test]
fn protocols_of_urls() {
    let parts = |scheme: &str, host: &str, path: &str| UrlParts {
        scheme: s(scheme),
        host: Some(s(host)),
        path: s(path),
    };
    let openai = parts("wss", "api.openai.com", "/v1/realtime");
    assert_eq!(protocol_of_url(&openai), Some(Protocol::OpenAI));
    let azure = parts("wss", "x.openai.azure.com", "/openai/realtime");
    assert_eq!(protocol_of_url(&azure), Some(Protocol::Azure));
    let other = parts("wss", "api.openai.com", "/v1");
    assert_eq!(protocol_of_url(&other), None);
}

#[test]
fn dialogs_take_one_format() {
    let format = AudioFormat::new(1, 24000);
    let other = AudioFormat::new(2, 24000);
    assert!(check_formats(format, format).is_ok());
    assert_eq!(
        check_formats(format, other).unwrap_err().chain,
        vec![s(
            "Audio output has the wrong format AudioFormat { channels: 2, sample_rate: 24000 }, expected: AudioFormat { channels: 1, sample_rate: 24000 }"
        )]
    );
}

#[test]
fn gemini_keys_and_models_are_handed_on() {
    let mut params = GoogleParams::new("gemini-3.1-flash-live-preview");
    params.api_key = Some(s("k"));
    let client = GoogleClient::new(params);
    let config = client.connect_config(TextOutputs { text: false, interim: false }).unwrap_or_else(|_| panic!());
    assert_eq!(config.api_key, Some(s("k")));
    assert_eq!(config.setup.model, "models/gemini-3.1-flash-live-preview");
    assert!(matches!(config.endpoint, Endpoint::GeminiApi));
}

use context_switch::audio::{AudioFormat, AudioFrame};
use context_switch::input::{FlowControl, Input, SocketMessage};
use context_switch::openai_dialog::client::Client;
use context_switch::openai_dialog::dialog::{DialogEvent, OpenAIDialog};
use context_switch::openai_dialog::host::{
    infer_protocol_from_host, resolve_protocol, validate_protocol_host, Protocol,
};
use context_switch::openai_dialog::prompts::{PromptCoordinator, PromptRequest, ResponseState};
use context_switch::openai_dialog::session::verify_session_created_event;
use context_switch::openai_dialog::transcription::{TranscriptionSettings, TranscriptionState};
use context_switch::openai_dialog::types::{
    ClientEvent, Item, ItemType, OutputModality, Params, Response, ServerError, ServerEvent,
    ServiceInputEvent, ServiceOutputEvent, Session, SessionAudioFormat, Status, Usage,
};
use context_switch::output::{BillingSchedule, BillingValue, Emission, OutputPath, Speaker};
use serde_json::Value;

const FORMAT: AudioFormat = AudioFormat { channels: 1, sample_rate: 24000 };
const BOTH: TranscriptionSettings = TranscriptionSettings { input: true, output: true };

fn s(text: &str) -> String {
    text.to_string()
}

fn busy(event_id: Option<&str>) -> ServerError {
    ServerError {
        code: Some(s("conversation_already_has_active_response")),
        event_id: event_id.map(s),
        message: s("busy"),
        description: s("Error(busy)"),
    }
}

fn handle(
    client: &mut Client,
    event: ServerEvent,
    transcription: TranscriptionSettings,
    out: &mut Vec<Emission<ServiceOutputEvent>>,
    sent: &mut Vec<ClientEvent>,
) -> Result<(), Vec<String>> {
    client
        .handle_realtime_server_event(
            "{raw}",
            event,
            out,
            FORMAT,
            "gpt",
            transcription,
            s("event-1"),
            sent,
        )
        .map_err(|e| e.chain)
}

fn response(output: Vec<Item>, usage: Option<Usage>) -> ServerEvent {
    ServerEvent::ResponseDone {
        response: Response {
            id: s("resp"),
            object: s("realtime.response"),
            status: Status::Completed,
            output,
            usage,
        },
    }
}

fn call(arguments: Option<&str>) -> Item {
    Item {
        id: Some(s("item")),
        item_type: Some(ItemType::FunctionCall),
        status: Some(Status::Completed),
        name: Some(s("lookup")),
        call_id: Some(s("call-1")),
        arguments: arguments.map(s),
    }
}

#[test]
fn transcripts_grow_and_end() {
    let mut state = TranscriptionState::default();
    assert_eq!(state.apply_input_delta(s("i"), 0, s("Hel")), "Hel");
    assert_eq!(state.apply_input_delta(s("i"), 0, s("lo")), "Hello");
    assert_eq!(state.apply_input_delta(s("i"), 1, s("x")), "x");
    assert_eq!(state.complete_input_transcription(s("i"), 0, s("")), Some(s("Hello")));
    assert_eq!(state.complete_input_transcription(s("i"), 0, s("")), None);
    assert_eq!(state.complete_input_transcription(s("i"), 1, s("whole")), Some(s("whole")));
}

#[test]
fn output_transcripts_are_kept_apart() {
    let mut state = TranscriptionState::default();
    assert_eq!(state.apply_output_delta(s("r"), s("i"), 0, 0, s("a")), "a");
    assert_eq!(state.apply_output_delta(s("r"), s("i"), 1, 0, s("b")), "b");
    assert_eq!(state.apply_output_delta(s("r"), s("j"), 0, 0, s("c")), "c");
    state.clear_output_response_tracking("r");
    state.clear_content_index(s("i"), 0);
    assert_eq!(state.complete_output_transcription(s("r"), s("i"), 0, 0, s("")), None);
    assert_eq!(state.complete_output_transcription(s("r"), s("i"), 1, 0, s("")), None);
    assert_eq!(state.complete_output_transcription(s("r"), s("j"), 0, 0, s("")), Some(s("c")));
}

#[test]
fn cleared_items_are_forgotten() {
    let mut state = TranscriptionState::default();
    state.apply_input_delta(s("i"), 0, s("a"));
    state.apply_output_delta(s("r"), s("i"), 0, 3, s("b"));
    state.apply_input_delta(s("j"), 0, s("c"));
    state.clear_item("i");
    assert_eq!(state.complete_input_transcription(s("i"), 0, s("")), None);
    assert_eq!(state.complete_output_transcription(s("r"), s("i"), 0, 3, s("")), None);
    assert_eq!(state.complete_input_transcription(s("j"), 0, s("")), Some(s("c")));
}

#[test]
fn protocols_are_inferred() {
    assert_eq!(infer_protocol_from_host(None).unwrap(), Protocol::OpenAI);
    assert_eq!(
        infer_protocol_from_host(Some("wss://api.openai.com/v1/realtime")).unwrap(),
        Protocol::OpenAI
    );
    assert_eq!(
        infer_protocol_from_host(Some("wss://x.openai.azure.com/openai/realtime")).unwrap(),
        Protocol::Azure
    );
    let error = infer_protocol_from_host(Some("wss://api.openai.com/v2")).unwrap_err();
    assert!(error.chain[0].starts_with("Cannot infer protocol from host `wss://api.openai.com/v2`."));
    let error = infer_protocol_from_host(Some("nonsense")).unwrap_err();
    assert_eq!(error.chain[0], "Invalid host URL: nonsense");
    assert_eq!(error.chain.len(), 2);
}

#[test]
fn azure_needs_a_host() {
    assert!(validate_protocol_host(Protocol::Azure, Some("wss://h")).is_ok());
    assert!(validate_protocol_host(Protocol::OpenAI, None).is_ok());
    let error = resolve_protocol(Some(Protocol::Azure), None).unwrap_err();
    assert!(error.chain[0].starts_with("Protocol `azure` requires an Azure OpenAI `host` endpoint."));
    assert_eq!(
        resolve_protocol(Some(Protocol::OpenAI), Some("wss://anything")).unwrap(),
        Protocol::OpenAI
    );
}

#[test]
fn dialogs_are_planned() {
    let mut params = Params::new("key", "gpt");
    params.input_audio_transcription = true;
    let plan = OpenAIDialog.conversation(&params, FORMAT, FORMAT, true).ok().unwrap();
    assert_eq!(plan.host.endpoint, "wss://api.openai.com/v1/realtime");
    assert_eq!(plan.transcription, TranscriptionSettings { input: true, output: false });
    let plan = OpenAIDialog.conversation(&params, FORMAT, FORMAT, false).ok().unwrap();
    assert_eq!(plan.transcription, TranscriptionSettings { input: false, output: false });
    let error = OpenAIDialog
        .conversation(&params, FORMAT, AudioFormat::new(1, 16000), true)
        .err()
        .unwrap();
    assert_eq!(
        error.chain,
        vec!["Input and output audio formats must match for OpenAI dialog service"]
    );
}

#[test]
fn first_messages_are_checked() {
    let created = |session| {
        verify_session_created_event(Some(Ok(SocketMessage::Text {
            raw: s(""),
            event: Ok(ServerEvent::SessionCreated { session }),
        })))
    };
    let realtime = |input_format, output_format, output_modalities| Session::Realtime {
        input_format,
        output_format,
        output_modalities,
        tools: None,
    };
    assert!(created(realtime(None, None, None)).is_ok());
    assert!(created(realtime(Some(SessionAudioFormat::Pcm), None, Some(vec![]))).is_ok());
    let other = || Some(SessionAudioFormat::Other { description: s("Pcmu") });
    assert_eq!(
        created(realtime(other(), None, None)).unwrap_err().chain,
        vec!["Unexpected input audio format: Some(Pcmu), expected PCM"]
    );
    assert_eq!(
        created(realtime(None, other(), None)).unwrap_err().chain,
        vec!["Unexpected output audio format: Some(Pcmu), expected PCM"]
    );
    assert_eq!(
        created(realtime(None, None, Some(vec![OutputModality::Text, OutputModality::Text])))
            .unwrap_err()
            .chain,
        vec!["Expect audio output modality: [Text, Text]"]
    );
    assert!(created(realtime(None, None, Some(vec![OutputModality::Text, OutputModality::Audio])))
        .is_ok());
    assert_eq!(
        created(Session::Transcription { description: s("T") }).unwrap_err().chain,
        vec!["Unexpected non-realtime session: T"]
    );
}

#[test]
fn failed_first_messages() {
    assert_eq!(
        verify_session_created_event(None).unwrap_err().chain,
        vec!["Failed to receive the initial message received"]
    );
    assert_eq!(
        verify_session_created_event(Some(Err(s("io")))).unwrap_err().chain,
        vec!["io"]
    );
    assert_eq!(
        verify_session_created_event(Some(Ok(SocketMessage::Close))).unwrap_err().chain,
        vec!["Failed to receive the initial message"]
    );
    let text = |event| Some(Ok(SocketMessage::Text { raw: s(""), event }));
    assert_eq!(
        verify_session_created_event(text(Err(s("no json")))).unwrap_err().chain,
        vec!["no json"]
    );
    assert_eq!(
        verify_session_created_event(text(Ok(ServerEvent::Error(busy(None))))).unwrap_err().chain,
        vec!["Failed to create the session: busy"]
    );
    assert_eq!(
        verify_session_created_event(text(Ok(ServerEvent::Other))).unwrap_err().chain,
        vec!["Received an unexpected event in response to the session creation"]
    );
}

#[test]
fn dialogs_begin_with_an_update() {
    let client = Client::new(false);
    let created = || {
        Some(Ok(SocketMessage::Text {
            raw: s(""),
            event: Ok(ServerEvent::SessionCreated {
                session: Session::Realtime {
                    input_format: None,
                    output_format: None,
                    output_modalities: None,
                    tools: None,
                },
            }),
        }))
    };
    let off = TranscriptionSettings { input: false, output: false };
    let update = client
        .begin_dialog(FORMAT, FORMAT, Params::new("k", "m"), off, created())
        .ok()
        .unwrap();
    assert!(update.is_none());
    let mut params = Params::new("k", "m");
    params.voice = Some(s("alloy"));
    let update = client.begin_dialog(FORMAT, FORMAT, params, BOTH, created()).ok().unwrap();
    let Some(ClientEvent::SessionUpdate { session }) = update else {
        panic!("expected an update");
    };
    assert_eq!(session.voice, Some(s("alloy")));
    assert_eq!(session.speed_percent, Some(100));
    assert_eq!(session.input_transcription_model, Some(s("gpt-realtime-whisper")));
    assert!(session.tools.is_none() && session.instructions.is_none());
    let error = client
        .begin_dialog(AudioFormat::new(2, 8000), FORMAT, Params::new("k", "m"), off, created())
        .err()
        .unwrap();
    assert_eq!(
        error.chain,
        vec!["Audio input has the wrong format AudioFormat { channels: 2, sample_rate: 8000 }, expected: AudioFormat { channels: 1, sample_rate: 24000 }"]
    );
}

#[test]
fn audio_of_the_model_is_put_out() {
    let mut client = Client::new(false);
    let (mut out, mut sent) = (Vec::new(), Vec::new());
    let event = ServerEvent::ResponseOutputAudioDelta { delta: s("AQD//w==") };
    handle(&mut client, event, BOTH, &mut out, &mut sent).unwrap();
    let Emission::Audio(frame) = &out[0] else { panic!("expected audio") };
    assert_eq!(frame.samples, vec![1, -1]);
    assert_eq!(frame.format, FORMAT);
    let event = ServerEvent::ResponseOutputAudioDelta { delta: s("!") };
    assert_eq!(handle(&mut client, event, BOTH, &mut out, &mut sent).unwrap_err().len(), 1);
    handle(&mut client, ServerEvent::InputAudioBufferSpeechStarted, BOTH, &mut out, &mut sent)
        .unwrap();
    assert!(matches!(out[1], Emission::ClearAudio));
    assert!(sent.is_empty());
}

#[test]
fn transcripts_are_put_out() {
    let mut client = Client::new(false);
    let (mut out, mut sent) = (Vec::new(), Vec::new());
    let delta = |text: &str| ServerEvent::ResponseOutputAudioTranscriptDelta {
        response_id: s("r"),
        item_id: s("i"),
        output_index: 0,
        content_index: 0,
        delta: s(text),
    };
    handle(&mut client, delta("a"), BOTH, &mut out, &mut sent).unwrap();
    handle(&mut client, delta("b"), BOTH, &mut out, &mut sent).unwrap();
    let done = ServerEvent::ResponseOutputAudioTranscriptDone {
        response_id: s("r"),
        item_id: s("i"),
        output_index: 0,
        content_index: 0,
        transcript: s(""),
    };
    handle(&mut client, done, BOTH, &mut out, &mut sent).unwrap();
    assert!(matches!(&out[1], Emission::Text { is_final: false, text, speaker: Some(Speaker::AiAgent), .. } if text == "ab"));
    assert!(matches!(&out[2], Emission::Text { is_final: true, text, .. } if text == "ab"));
    let off = TranscriptionSettings { input: false, output: false };
    handle(&mut client, delta("c"), off, &mut out, &mut sent).unwrap();
    assert_eq!(out.len(), 3);
}

#[test]
fn function_calls_are_reported() {
    let mut client = Client::new(true);
    let (mut out, mut sent) = (Vec::new(), Vec::new());
    let mut unnamed = call(None);
    unnamed.name = None;
    let items = vec![call(Some("{ \"a\": 1 }")), call(Some("{broken")), unnamed, call(None)];
    handle(&mut client, response(items, None), BOTH, &mut out, &mut sent).unwrap();
    assert_eq!(out.len(), 2);
    let Emission::ServiceEvent {
        path: OutputPath::Media,
        event: ServiceOutputEvent::FunctionCall { call_id, name, arguments: Some(arguments) },
    } = &out[0]
    else {
        panic!("expected a function call");
    };
    assert_eq!((call_id.as_str(), name.as_str()), ("call-1", "lookup"));
    assert_eq!(arguments.to_string(), "{\"a\":1}");
    assert!(matches!(
        &out[1],
        Emission::ServiceEvent { event: ServiceOutputEvent::FunctionCall { arguments: None, .. }, .. }
    ));
    let prompts = client.prompt_coordinator.unwrap();
    assert_eq!(prompts.response_state, ResponseState::ExpectingFunctionResult);
}

#[test]
fn broken_calls_keep_their_transcripts() {
    let mut client = Client::new(false);
    let (mut out, mut sent) = (Vec::new(), Vec::new());
    client.transcription_state.apply_input_delta(s("item"), 0, s("kept"));
    handle(&mut client, response(vec![call(Some("{broken"))], None), BOTH, &mut out, &mut sent)
        .unwrap();
    assert_eq!(
        client.transcription_state.complete_input_transcription(s("item"), 0, s("")),
        Some(s("kept"))
    );
    client.transcription_state.apply_input_delta(s("item"), 0, s("dropped"));
    handle(&mut client, response(vec![call(None)], None), BOTH, &mut out, &mut sent).unwrap();
    assert_eq!(
        client.transcription_state.complete_input_transcription(s("item"), 0, s("")),
        None
    );
}

#[test]
fn responses_are_billed() {
    let mut client = Client::new(false);
    let (mut out, mut sent) = (Vec::new(), Vec::new());
    let usage = Usage {
        input_audio_tokens: 10,
        input_text_tokens: 7,
        cached_audio_tokens: 4,
        cached_text_tokens: 7,
        output_audio_tokens: 5,
        output_text_tokens: 6,
    };
    handle(&mut client, response(vec![], Some(usage)), BOTH, &mut out, &mut sent).unwrap();
    let Emission::BillingRecords { request_id: None, scope, records, schedule } = &out[0] else {
        panic!("expected a bill");
    };
    assert_eq!(scope.as_deref(), Some("gpt"));
    assert_eq!(*schedule, BillingSchedule::Now);
    let lines: Vec<(&str, BillingValue)> =
        records.iter().map(|r| (r.name.as_str(), r.value)).collect();
    assert_eq!(
        lines,
        vec![
            ("tokens:input:audio", BillingValue::Count(6)),
            ("tokens:input:text", BillingValue::Count(0)),
            ("tokens:input:audio:cached", BillingValue::Count(4)),
            ("tokens:input:text:cached", BillingValue::Count(7)),
            ("tokens:output:audio", BillingValue::Count(5)),
            ("tokens:output:text", BillingValue::Count(6)),
        ]
    );
}

#[test]
fn impossible_usage_is_refused() {
    let mut client = Client::new(false);
    let (mut out, mut sent) = (Vec::new(), Vec::new());
    let mut usage = Usage {
        input_audio_tokens: 1,
        input_text_tokens: 1,
        cached_audio_tokens: 2,
        cached_text_tokens: 2,
        output_audio_tokens: 0,
        output_text_tokens: 0,
    };
    let done = response(vec![call(None)], Some(usage));
    assert_eq!(
        handle(&mut client, done, BOTH, &mut out, &mut sent).unwrap_err(),
        vec!["Internal error: less audio tokens than cached text tokens"]
    );
    // The function call was reported before the error.
    assert_eq!(out.len(), 1);
    usage.cached_audio_tokens = 0;
    assert_eq!(
        handle(&mut client, response(vec![], Some(usage)), BOTH, &mut out, &mut sent).unwrap_err(),
        vec!["Internal error: less text tokens than cached text tokens"]
    );
}

#[test]
fn prompts_wait_for_the_model() {
    let mut prompts = PromptCoordinator::new();
    let mut sent = Vec::new();
    prompts.push_prompt(PromptRequest(s("one")), s("e1"), &mut sent);
    prompts.push_prompt(PromptRequest(s("two")), s("e2"), &mut sent);
    assert_eq!(sent.len(), 1);
    prompts.update_response_state(ResponseState::Responding, s("e3"), &mut sent);
    assert_eq!(sent.len(), 1);
    prompts.update_response_state(ResponseState::Idle, s("e4"), &mut sent);
    assert!(matches!(&sent[1], ClientEvent::PromptResponse { instructions, event_id: Some(id) } if instructions == "two" && id == "e4"));
}

#[test]
fn rejected_prompts_come_next() {
    let mut prompts = PromptCoordinator::new();
    let mut sent = Vec::new();
    prompts.push_prompt(PromptRequest(s("one")), s("e1"), &mut sent);
    prompts.push_prompt(PromptRequest(s("two")), s("e2"), &mut sent);
    let error = prompts.handle_server_error("raw", &busy(Some("other"))).unwrap_err();
    assert_eq!(error.chain, vec!["Error(busy), raw: raw"]);
    prompts.handle_server_error("raw", &busy(Some("e1"))).unwrap();
    assert!(prompts.inflight_prompt.is_none());
    prompts.flush_prompt(s("e5"), &mut sent);
    assert!(matches!(&sent[1], ClientEvent::PromptResponse { instructions, .. } if instructions == "one"));
}

#[test]
fn busy_errors_without_waiting_prompts() {
    let mut client = Client::new(false);
    assert!(client.handle_server_error("raw", &busy(None)).is_ok());
    let mut other = busy(None);
    other.code = Some(s("other"));
    assert_eq!(
        client.handle_server_error("raw", &other).unwrap_err().chain,
        vec!["Error(busy), raw: raw"]
    );
}

#[test]
fn inputs_are_sent() {
    let mut client = Client::new(false);
    let mut sent = Vec::new();
    let frame = AudioFrame { format: FORMAT, samples: vec![1, -1] };
    client.process_input(Input::Audio { frame }, s("e"), &mut sent).unwrap();
    assert!(matches!(&sent[0], ClientEvent::InputAudioBufferAppend { audio } if audio == "AQD//w=="));
    let output: Value = serde_json::from_str("{\"ok\": [true, null]}").unwrap();
    let result = ServiceInputEvent::FunctionCallResult { call_id: s("c"), output };
    client.process_input(Input::ServiceEvent { value: Ok(result) }, s("e"), &mut sent).unwrap();
    assert!(matches!(&sent[1], ClientEvent::FunctionCallOutput { call_id, output } if call_id == "c" && output == "{\"ok\":[true,null]}"));
    assert!(matches!(&sent[2], ClientEvent::ResponseCreate));
    let prompt = ServiceInputEvent::Prompt { text: s("say hi") };
    client.process_input(Input::ServiceEvent { value: Ok(prompt) }, s("e"), &mut sent).unwrap();
    assert!(matches!(&sent[3], ClientEvent::PromptResponse { instructions, event_id: None } if instructions == "say hi"));
    let error = client
        .process_input(Input::ServiceEvent { value: Err(s("unknown event")) }, s("e"), &mut sent)
        .unwrap_err();
    assert_eq!(error.chain, vec!["unknown event"]);
    assert_eq!(sent.len(), 4);
}

#[test]
fn delayed_prompts_have_ids_of_their_own() {
    let mut client = Client::new(true);
    let (mut out, mut sent) = (Vec::new(), Vec::new());
    for _ in 0..2 {
        let prompt = ServiceInputEvent::Prompt { text: s("hi") };
        let event = DialogEvent::Input(Some(Input::ServiceEvent { value: Ok(prompt) }));
        client.dialog(event, FORMAT, "gpt", BOTH, &mut out, &mut sent).unwrap();
        client.prompt_coordinator = Some(PromptCoordinator::new());
    }
    let ids: Vec<String> = sent
        .iter()
        .map(|e| match e {
            ClientEvent::PromptResponse { event_id: Some(id), .. } => id.clone(),
            _ => panic!("expected a prompt"),
        })
        .collect();
    assert_eq!(ids[0].len(), 36);
    assert_ne!(ids[0], ids[1]);
}

#[test]
fn dialogs_go_on_and_end() {
    let mut client = Client::new(false);
    let (mut out, mut sent) = (Vec::new(), Vec::new());
    let mut round = |event| client.dialog(event, FORMAT, "gpt", BOTH, &mut out, &mut sent);
    assert!(matches!(round(DialogEvent::Input(None)), Ok(FlowControl::End)));
    assert!(matches!(round(DialogEvent::Message(None)), Ok(FlowControl::End)));
    assert!(matches!(round(DialogEvent::Message(Some(Ok(SocketMessage::Close)))), Ok(FlowControl::End)));
    assert!(matches!(
        round(DialogEvent::Message(Some(Ok(SocketMessage::Ping(vec![7]))))),
        Ok(FlowControl::PongAndContinue(p)) if p == vec![7]
    ));
    assert_eq!(
        round(DialogEvent::Message(Some(Err(s("gone"))))).unwrap_err().chain,
        vec!["gone"]
    );
    assert_eq!(
        round(DialogEvent::Message(Some(Ok(SocketMessage::Other { description: s("Binary") }))))
            .unwrap_err()
            .chain,
        vec!["Unhandled: Binary"]
    );
    assert_eq!(
        round(DialogEvent::Message(Some(Ok(SocketMessage::Text {
            raw: s("{"),
            event: Err(s("eof"))
        }))))
        .unwrap_err()
        .chain,
        vec!["Deserialization failed: `{`", "eof"]
    );
}

#[test]
fn updated_sessions_are_reported() {
    let mut client = Client::new(false);
    let (mut out, mut sent) = (Vec::new(), Vec::new());
    let tool: Value = serde_json::from_str("{\"name\":\"t\"}").unwrap();
    let session = Session::Realtime {
        input_format: None,
        output_format: None,
        output_modalities: None,
        tools: Some(vec![tool]),
    };
    handle(&mut client, ServerEvent::SessionUpdated { session }, BOTH, &mut out, &mut sent).unwrap();
    assert!(matches!(
        &out[0],
        Emission::ServiceEvent { path: OutputPath::Control, event: ServiceOutputEvent::SessionUpdated { tools: Some(t) } } if t.len() == 1
    ));
}

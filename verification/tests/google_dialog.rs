use context_switch::audio::{AudioFormat, AudioFrame};
use context_switch::google_dialog::client::{
    modality_count, normalize_function_response, Client, Command, DialogEvent, FlowControl,
    GoogleDialog, ModalityTokenCount, ServerEvent, ToolCall, UsageMetadata,
};
use context_switch::google_dialog::conversation_state::{ConversationState, ToolCallTracker};
use context_switch::google_dialog::model::{
    function_behavior, model_config, tools_for_model, validate_response_scheduling,
    validate_thinking_level, FunctionPolicy,
};
use context_switch::google_dialog::setup::{
    connect_error_with_voice_context, model_resource_name, session_config, setup_config, Endpoint,
    Modality, TextOutputs,
};
use context_switch::google_dialog::types::{
    default_context_window_compression, deserialize_tools, parse_voice_value, voices,
    ClientContentRole, FunctionBehavior, FunctionDeclaration, FunctionResponseScheduling,
    OpenAiFunctionTool, Params, RawTool, ServiceInputEvent, ServiceOutputEvent, ThinkingLevel, Tool,
};
use context_switch::error::Error;
use context_switch::input::Input;
use context_switch::modality::OutputModality;
use context_switch::output::{BillingValue, Emission, OutputPath, Speaker};
use serde_json::Value;

const FORMAT: AudioFormat = AudioFormat { channels: 1, sample_rate: 24000 };
const BOTH: TextOutputs = TextOutputs { text: true, interim: true };

fn s(text: &str) -> String {
    text.to_string()
}

fn json(text: &str) -> Value {
    serde_json::from_str(text).unwrap()
}

fn declaration(name: &str, behavior: Option<FunctionBehavior>) -> FunctionDeclaration {
    FunctionDeclaration {
        name: s(name),
        description: s(""),
        parameters: json("{}"),
        scheduling: None,
        behavior,
    }
}

#[test]
fn register_then_resolve_returns_name() {
    let mut tracker = ToolCallTracker::default();

    tracker
        .register("id-1".to_string(), "lookup_weather".to_string())
        .expect("register should succeed");

    let resolved = tracker.resolve("id-1").expect("resolve should succeed");

    assert_eq!(resolved, Some("lookup_weather".to_string()));
}

#[test]
fn cancellation_then_resolve_returns_none() {
    let mut tracker = ToolCallTracker::default();

    tracker
        .register("id-2".to_string(), "lookup_weather".to_string())
        .expect("register should succeed");
    tracker
        .cancel("id-2".to_string())
        .expect("cancel should succeed");

    let resolved = tracker.resolve("id-2").expect("resolve should succeed");

    assert_eq!(resolved, None);
}

#[test]
fn duplicate_register_errors() {
    let mut tracker = ToolCallTracker::default();

    tracker
        .register("id-3".to_string(), "lookup_weather".to_string())
        .expect("first register should succeed");

    let error = tracker
        .register("id-3".to_string(), "lookup_weather".to_string())
        .expect_err("second register should fail")
        .message();

    assert!(
        error.contains("is already pending before register"),
        "unexpected error: {error}"
    );
}

#[test]
fn duplicate_cancellation_errors() {
    let mut tracker = ToolCallTracker::default();

    tracker
        .register("id-4".to_string(), "lookup_weather".to_string())
        .expect("register should succeed");
    tracker
        .cancel("id-4".to_string())
        .expect("first cancel should succeed");

    let error = tracker
        .cancel("id-4".to_string())
        .expect_err("second cancel should fail")
        .message();

    assert!(
        error.contains("was already canceled before cancellation"),
        "unexpected error: {error}"
    );
}

#[test]
fn unknown_calls_are_errors() {
    let mut tracker = ToolCallTracker::default();
    assert_eq!(
        tracker.cancel(s("x")).unwrap_err().chain,
        vec!["tool call `x` is not pending when cancellation arrives"]
    );
    assert_eq!(
        tracker.resolve("x").unwrap_err().chain,
        vec!["functionCallResult references unknown `callId`: `x`"]
    );
    tracker.register(s("x"), s("f")).unwrap();
    tracker.cancel(s("x")).unwrap();
    assert_eq!(
        tracker.register(s("x"), s("f")).unwrap_err().chain,
        vec!["tool call `x` was already canceled before register"]
    );
    tracker.resolve("x").unwrap();
    assert!(tracker.register(s("x"), s("f")).is_ok());
}

fn members(entry: &Value) -> Option<OpenAiFunctionTool> {
    let text = |key: &str| entry.get(key).and_then(Value::as_str).map(s);
    if text("type")? != "function" {
        return None;
    }
    Some(OpenAiFunctionTool {
        name: text("name")?,
        description: text("description")?,
        parameters: entry.get("parameters")?.clone(),
    })
}

fn raw(entry: Value) -> RawTool {
    let native = match serde_json::from_value::<gemini_live::types::Tool>(entry.clone()) {
        Ok(gemini_live::types::Tool::FunctionDeclarations(functions)) => {
            Some(Tool::FunctionDeclarations(
                functions
                    .into_iter()
                    .map(|function| FunctionDeclaration {
                        name: function.name,
                        description: function.description,
                        parameters: function.parameters,
                        scheduling: None,
                        behavior: None,
                    })
                    .collect(),
            ))
        }
        Ok(_) => Some(Tool::Hosted(entry.clone())),
        Err(_) => None,
    };
    RawTool { native, function: members(&entry), entry }
}

fn read_tools(params: &str) -> Vec<RawTool> {
    json(params)["tools"].as_array().unwrap().iter().map(|entry| raw(entry.clone())).collect()
}

#[test]
fn deserializes_gemini_native_function_declarations() {
    let tools = deserialize_tools(read_tools(
        r#"{
            "apiKey": "test-key",
            "model": "gemini-3.1-flash-live-preview",
            "tools": [
                {
                    "functionDeclarations": [
                        {
                            "name": "get_sessions",
                            "description": "List active sessions",
                            "parameters": {
                                "type": "object",
                                "properties": {},
                                "additionalProperties": false
                            }
                        }
                    ]
                }
            ]
        }"#,
    ))
    .ok()
    .expect("Gemini-native tools format should deserialize");

    assert_eq!(tools.len(), 1);
    let Tool::FunctionDeclarations(functions) = &tools[0] else {
        panic!("expected functionDeclarations tool");
    };
    assert_eq!(functions.len(), 1);
    assert_eq!(functions[0].name, "get_sessions");
}

#[test]
fn deserializes_openai_function_tools_into_function_declarations() {
    let tools = deserialize_tools(read_tools(
        r#"{
            "apiKey": "test-key",
            "model": "gemini-3.1-flash-live-preview",
            "tools": [
                {
                    "type": "function",
                    "name": "get_sessions",
                    "description": "List active sessions",
                    "parameters": {
                        "type": "object",
                        "properties": {},
                        "additionalProperties": false
                    }
                },
                {
                    "type": "function",
                    "name": "end_interaction",
                    "description": "End the current interaction",
                    "parameters": {
                        "type": "object",
                        "properties": {},
                        "additionalProperties": false
                    }
                }
            ]
        }"#,
    ))
    .ok()
    .expect("OpenAI-style function tools should deserialize");

    assert_eq!(tools.len(), 1);
    let Tool::FunctionDeclarations(functions) = &tools[0] else {
        panic!("expected functionDeclarations tool");
    };
    assert_eq!(functions.len(), 2);
    assert_eq!(functions[0].name, "get_sessions");
    assert_eq!(functions[1].name, "end_interaction");
}

#[test]
fn tools_keep_their_places() {
    let openai = |name: &str| RawTool {
        entry: Value::Null,
        native: None,
        function: Some(OpenAiFunctionTool {
            name: s(name),
            description: s(""),
            parameters: json("{}"),
        }),
    };
    let tools = deserialize_tools(vec![
        openai("a"),
        raw(json("{\"googleSearch\":{}}")),
        openai("b"),
    ])
    .ok()
    .unwrap();
    assert_eq!(tools.len(), 3);
    assert!(matches!(&tools[0], Tool::FunctionDeclarations(f) if f.len() == 1 && f[0].name == "a"));
    assert!(matches!(&tools[1], Tool::Hosted(v) if v.to_string() == "{\"googleSearch\":{}}"));
    assert!(matches!(&tools[2], Tool::FunctionDeclarations(f) if f[0].name == "b"));
    let error = deserialize_tools(vec![openai("a"), raw(json("42"))]).err().unwrap();
    assert_eq!(error.chain, vec!["Unsupported tools entry format: 42"]);
}

#[test]
fn the_form_of_the_host_comes_first() {
    let both = RawTool {
        entry: Value::Null,
        native: Some(Tool::Hosted(json("1"))),
        function: Some(OpenAiFunctionTool {
            name: s("f"),
            description: s(""),
            parameters: Value::Null,
        }),
    };
    let tools = deserialize_tools(vec![both]).ok().unwrap();
    assert_eq!(tools.len(), 1);
    assert!(matches!(&tools[0], Tool::Hosted(v) if v.to_string() == "1"));
}

#[test]
fn voices_are_found_in_any_case() {
    assert_eq!(parse_voice_value("zephyr").unwrap(), "Zephyr");
    assert_eq!(parse_voice_value("SULAFAT").unwrap(), "Sulafat");
    assert_eq!(voices().len(), 30);
    let error = parse_voice_value("Nobody").unwrap_err();
    assert!(error.chain[0].starts_with("Invalid Gemini voice `Nobody`. Available voices: Zephyr, Puck, "));
    assert!(error.chain[0].ends_with(", Sulafat"));
}

#[test]
fn thinking_levels_of_models() {
    let mut params = Params::new("gemini-3.8-live");
    assert!(params.context_window_compression && default_context_window_compression());
    assert!(validate_thinking_level(&params).is_ok());
    params.thinking_level = Some(ThinkingLevel::Low);
    assert_eq!(
        validate_thinking_level(&params).unwrap_err().chain,
        vec!["Model `gemini-3.8-live` does not support thinking_level `low`; omit thinking_level"]
    );
    params.model = s("gemini-3.8-live-extended-thinking");
    assert!(validate_thinking_level(&params).is_ok());
    params.thinking_level = Some(ThinkingLevel::Minimal);
    assert_eq!(
        validate_thinking_level(&params).unwrap_err().chain,
        vec!["Model `gemini-3.8-live-extended-thinking` does not support thinking_level `minimal`"]
    );
    params.model = s("gemini-3.1-flash-live-preview");
    assert!(validate_thinking_level(&params).is_ok());
    assert!(model_config("gemini-3.1-flash-live-preview").is_none());
    assert_eq!(
        model_config("gemini-3.8-live").unwrap().functions,
        FunctionPolicy::BlockingAndNonBlocking
    );
}

#[test]
fn functions_for_models() {
    let extended = "gemini-3.8-live-extended-thinking";
    let tools = vec![Tool::FunctionDeclarations(vec![declaration("f", None)])];
    let fitted = tools_for_model(extended, &tools).ok().unwrap();
    assert!(matches!(&fitted[0], Tool::FunctionDeclarations(d) if d[0].behavior == Some(FunctionBehavior::NonBlocking)));
    let kept = tools_for_model("gemini-3.8-live", &tools).ok().unwrap();
    assert!(matches!(&kept[0], Tool::FunctionDeclarations(d) if d[0].behavior.is_none()));
    let blocking =
        vec![Tool::FunctionDeclarations(vec![declaration("f", Some(FunctionBehavior::Blocking))])];
    assert_eq!(
        tools_for_model(extended, &blocking).err().unwrap().chain,
        vec!["Model `gemini-3.8-live-extended-thinking` requires non-blocking function declarations"]
    );
    let mut scheduled = declaration("f", None);
    scheduled.scheduling = Some(FunctionResponseScheduling::Silent);
    assert_eq!(
        tools_for_model(extended, &vec![Tool::FunctionDeclarations(vec![scheduled])])
            .err()
            .unwrap()
            .chain,
        vec!["Model `gemini-3.8-live-extended-thinking` does not support function declaration scheduling"]
    );
}

#[test]
fn scheduled_results() {
    let mut params = Params::new("gemini-3.8-live");
    params.tools = vec![
        Tool::FunctionDeclarations(vec![declaration("f", None)]),
        Tool::FunctionDeclarations(vec![declaration("f", Some(FunctionBehavior::NonBlocking))]),
    ];
    // A tool that does not say how the function behaves leaves that to the next one.
    assert_eq!(function_behavior(&params.tools, "f"), Some(FunctionBehavior::NonBlocking));
    let silent = Some(FunctionResponseScheduling::Silent);
    assert!(validate_response_scheduling(&params, "f", silent).is_ok());
    assert_eq!(
        validate_response_scheduling(&params, "g", silent).unwrap_err().chain,
        vec!["Function response scheduling is not valid for blocking function `g`"]
    );
    assert!(validate_response_scheduling(&params, "g", None).is_ok());
    params.model = s("gemini-3.8-live-extended-thinking");
    assert_eq!(
        validate_response_scheduling(&params, "f", silent).unwrap_err().chain,
        vec!["Model `gemini-3.8-live-extended-thinking` does not support function response scheduling"]
    );
}

#[test]
fn text_outputs_occur_once() {
    let audio = OutputModality::Audio { format: FORMAT };
    let outputs = GoogleDialog.conversation(&vec![audio, OutputModality::Text], FORMAT).unwrap();
    assert_eq!(outputs, TextOutputs { text: true, interim: false });
    let twice = vec![OutputModality::Text, OutputModality::InterimText, OutputModality::InterimText];
    assert_eq!(
        TextOutputs::from_modalities(&twice).unwrap_err().chain,
        vec!["Expecting at most one interim text output"]
    );
    assert_eq!(
        TextOutputs::from_modalities(&vec![OutputModality::Text, OutputModality::Text])
            .unwrap_err()
            .chain,
        vec!["Expecting at most one text output"]
    );
    assert_eq!(
        GoogleDialog.conversation(&vec![], AudioFormat::new(1, 16000)).unwrap_err().chain,
        vec!["Audio output has the wrong format AudioFormat { channels: 1, sample_rate: 16000 }, expected: AudioFormat { channels: 1, sample_rate: 24000 }"]
    );
}

#[test]
fn sessions_are_set_up() {
    let mut params = Params::new("gemini");
    params.api_key = Some(s("key"));
    let none = TextOutputs { text: false, interim: false };
    let config = session_config(&params, none).ok().unwrap();
    assert_eq!(config.setup.model, "models/gemini");
    assert!(config.setup.tools.is_none());
    assert!(config.setup.context_window_compression);
    assert!(matches!(config.endpoint, Endpoint::GeminiApi));
    assert_eq!(config.api_key, Some(s("key")));
    params.project = Some(s("p"));
    params.location = Some(s("eu"));
    let config = session_config(&params, none).ok().unwrap();
    assert_eq!(config.setup.model, "projects/p/locations/eu/publishers/google/models/gemini");
    assert!(matches!(config.endpoint, Endpoint::VertexAi { location } if location == "eu"));
    params.endpoint = Some(s("wss://proxy"));
    let config = session_config(&params, none).ok().unwrap();
    assert!(matches!(config.endpoint, Endpoint::Custom(url) if url == "wss://proxy"));
    params.input_audio_transcription = true;
    let setup = setup_config(&params, BOTH).ok().unwrap();
    assert_eq!(setup.response_modalities, vec![Modality::Audio]);
    assert!(setup.session_resumption);
    let error = setup_config(&params, none).err().unwrap();
    assert!(error.chain[0].starts_with("Google dialog requires text output modality when transcription is enabled:"));
    assert_eq!(model_resource_name("models/x"), "models/x");
}

#[test]
fn failed_connections_may_be_the_voice() {
    let mut params = Params::new("gemini");
    let base = || Error::new("refused");
    let plain = vec!["Connecting to Gemini Live", "refused"];
    assert_eq!(connect_error_with_voice_context(&params, true, base()).chain, plain);
    params.voice = Some(s("puck"));
    assert_eq!(connect_error_with_voice_context(&params, true, base()).chain, plain);
    params.voice = Some(s("Bob"));
    assert_eq!(connect_error_with_voice_context(&params, false, base()).chain, plain);
    let error = connect_error_with_voice_context(&params, true, base());
    assert_eq!(error.chain.len(), 3);
    assert!(error.chain[0].starts_with("Configured voice `Bob` is not a known Gemini prebuilt voice."));
}

#[test]
fn results_become_objects() {
    assert_eq!(normalize_function_response(json("{\"a\":1}")).to_string(), "{\"a\":1}");
    assert_eq!(normalize_function_response(json("[1]")).to_string(), "{\"result\":[1]}");
    assert_eq!(normalize_function_response(json("\"{\"")).to_string(), "{\"result\":\"{\"}");
}

#[test]
fn turns_are_transcribed() {
    let mut params = Params::new("gemini");
    params.output_audio_transcription = true;
    let client = Client::new(params);
    let mut state = ConversationState::new();
    let mut out = Vec::new();
    for event in [
        ServerEvent::OutputTranscription(s("Hel")),
        ServerEvent::Interrupted,
        ServerEvent::OutputTranscription(s("lo")),
        ServerEvent::TurnComplete,
        ServerEvent::TurnComplete,
    ] {
        client.process_event(event, FORMAT, BOTH, &mut out, "gemini", &mut state).unwrap();
    }
    assert!(matches!(&out[0], Emission::Text { is_final: false, text, .. } if text == "Hel"));
    assert!(matches!(&out[1], Emission::ClearAudio));
    assert!(matches!(&out[2], Emission::Text { is_final: false, text, .. } if text == "Hello"));
    assert!(matches!(&out[3], Emission::Text { is_final: true, text, speaker: Some(Speaker::AiAgent), .. } if text == "Hello"));
    assert!(matches!(&out[4], Emission::RequestCompleted { request_id: None }));
    assert!(matches!(&out[5], Emission::RequestCompleted { request_id: None }));
    assert_eq!(out.len(), 6);
}

#[test]
fn unwanted_transcripts_are_dropped() {
    let client = Client::new(Params::new("gemini"));
    let mut state = ConversationState::new();
    let mut out = Vec::new();
    for event in [
        ServerEvent::InputTranscription(s("a")),
        ServerEvent::OutputTranscription(s("b")),
        ServerEvent::ModelText(s("c")),
    ] {
        client.process_event(event, FORMAT, BOTH, &mut out, "gemini", &mut state).unwrap();
    }
    assert!(out.is_empty());
    assert_eq!(state.output_transcription_buffer, "");
}

#[test]
fn calls_are_reported_until_one_fails() {
    let client = Client::new(Params::new("gemini"));
    let mut state = ConversationState::new();
    let mut out = Vec::new();
    let tool_call = |id: &str| ToolCall { id: s(id), name: s("f"), args: json("{\"x\":1}") };
    let calls = ServerEvent::ToolCall(vec![tool_call("1"), tool_call("1"), tool_call("2")]);
    let error = client
        .process_event(calls, FORMAT, BOTH, &mut out, "gemini", &mut state)
        .unwrap_err();
    assert_eq!(error.chain, vec!["tool call `1` is already pending before register"]);
    assert_eq!(out.len(), 2);
    assert!(matches!(
        &out[0],
        Emission::ServiceEvent { path: OutputPath::Media, event: ServiceOutputEvent::FunctionCall { call_id, name, arguments } }
            if call_id == "1" && name == "f" && arguments.to_string() == "{\"x\":1}"
    ));
    let cancel = ServerEvent::ToolCallCancellation(vec![s("1")]);
    client.process_event(cancel, FORMAT, BOTH, &mut out, "gemini", &mut state).unwrap();
    assert!(matches!(
        &out[2],
        Emission::ServiceEvent { path: OutputPath::Media, event: ServiceOutputEvent::ToolCallCancellation { call_id } } if call_id == "1"
    ));
    assert_eq!(state.tool_calls.resolve("1").unwrap(), None);
}

#[test]
fn usage_is_billed() {
    let count = |modality: &str, token_count| ModalityTokenCount { modality: s(modality), token_count };
    let usage = |prompt| UsageMetadata {
        thoughts_token_count: 3,
        prompt_tokens_details: Some(vec![count("audio", prompt), count("AUDIO", 5), count("TEXT", 2)]),
        cache_tokens_details: Some(vec![count("Audio", 4)]),
        tool_use_prompt_tokens_details: Some(vec![count("AUDIO", 6)]),
        response_tokens_details: None,
    };
    let client = Client::new(Params::new("gemini"));
    let mut state = ConversationState::new();
    let mut out = Vec::new();
    client
        .process_event(ServerEvent::Usage(usage(10)), FORMAT, BOTH, &mut out, "gemini", &mut state)
        .unwrap();
    let Emission::BillingRecords { scope, records, .. } = &out[0] else { panic!("expected a bill") };
    assert_eq!(scope.as_deref(), Some("gemini"));
    let counts: Vec<BillingValue> = records.iter().map(|r| r.value).collect();
    let expected: Vec<BillingValue> =
        [5, 2, 4, 0, 6, 0, 0, 0, 3].into_iter().map(BillingValue::Count).collect();
    assert_eq!(counts, expected);
    let error = client
        .process_event(ServerEvent::Usage(usage(4)), FORMAT, BOTH, &mut out, "gemini", &mut state)
        .unwrap_err();
    assert_eq!(
        error.chain,
        vec!["Invalid Gemini usage: prompt audio tokens less than cached+tool audio tokens"]
    );
    let mut text = usage(10);
    text.cache_tokens_details = Some(vec![count("text", 3)]);
    let error = client
        .process_event(ServerEvent::Usage(text), FORMAT, BOTH, &mut out, "gemini", &mut state)
        .unwrap_err();
    assert_eq!(
        error.chain,
        vec!["Invalid Gemini usage: prompt text tokens less than cached+tool text tokens"]
    );
    assert_eq!(modality_count(&None, "AUDIO"), 0);
}

#[test]
fn dialog_rounds() {
    let client = Client::new(Params::new("gemini"));
    let mut state = ConversationState::new();
    let mut out = Vec::new();
    let frame = AudioFrame { format: AudioFormat::new(1, 16000), samples: vec![258] };
    let step = client
        .dialog(DialogEvent::Input(Some(Input::Audio { frame })), FORMAT, BOTH, &mut out, &mut state)
        .ok()
        .unwrap();
    assert!(matches!(step.command, Some(Command::Audio { bytes, sample_rate: 16000 }) if bytes == vec![2, 1]));
    let step = client
        .dialog(DialogEvent::Input(None), FORMAT, BOTH, &mut out, &mut state)
        .ok()
        .unwrap();
    assert_eq!(step.flow, FlowControl::End);
    assert_eq!(step.command.unwrap().failure_context(), "Ending Gemini audio stream");
    let closed = ServerEvent::Closed { reason: s("") };
    let step = client
        .dialog(DialogEvent::Server(Some(closed)), FORMAT, BOTH, &mut out, &mut state)
        .ok()
        .unwrap();
    assert_eq!(step.flow, FlowControl::End);
    let failed = ServerEvent::Error { message: s("quota") };
    let error = client
        .dialog(DialogEvent::Server(Some(failed)), FORMAT, BOTH, &mut out, &mut state)
        .err()
        .unwrap();
    assert_eq!(error.chain, vec!["Gemini Live error: quota"]);
    let audio = ServerEvent::ModelAudio(vec![255, 255, 9]);
    client.dialog(DialogEvent::Server(Some(audio)), FORMAT, BOTH, &mut out, &mut state).ok().unwrap();
    assert!(matches!(&out[0], Emission::Audio(frame) if frame.samples == vec![-1]));
}

#[test]
fn results_of_calls_are_sent() {
    let client = Client::new(Params::new("gemini"));
    let mut state = ConversationState::new();
    state.tool_calls.register(s("1"), s("f")).unwrap();
    state.tool_calls.register(s("2"), s("g")).unwrap();
    state.tool_calls.cancel(s("2")).unwrap();
    let mut send = |event| client.process_input(Input::ServiceEvent { value: Ok(event) }, &mut state);
    let result = |id: &str| ServiceInputEvent::FunctionCallResult {
        call_id: s(id),
        output: json("7"),
        scheduling: None,
    };
    assert!(matches!(
        send(result("1")).ok().unwrap(),
        Some(Command::ToolResponse { id, name, response, scheduling: None })
            if id == "1" && name == "f" && response.to_string() == "{\"result\":7}"
    ));
    assert!(send(result("2")).ok().unwrap().is_none());
    assert!(send(result("2")).is_err());
    let content = ServiceInputEvent::ClientContent {
        role: ClientContentRole::Model,
        text: s("hi"),
        turn_complete: true,
    };
    assert!(matches!(
        send(content).ok().unwrap(),
        Some(Command::ClientContent { role: ClientContentRole::Model, text, turn_complete: true }) if text == "hi"
    ));
    assert!(matches!(
        send(ServiceInputEvent::Prompt { text: s("say") }).ok().unwrap(),
        Some(Command::Prompt { text }) if text == "say"
    ));
}

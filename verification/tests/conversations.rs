use context_switch::api::{Api, ApiAction};
use context_switch::audio::{AudioFormat, AudioFrame};
use context_switch::audio_tracer::AudioTracer;
use context_switch::context_switch::{ContextSwitch, ProcessAction};
use context_switch::conversation::{
    output_to_server_event, post_failure_context, process_conversation, ConversationDriver,
    DriverAction, DriverEvent, Output, Phase,
};
use context_switch::conversation_controller::ConversationController;
use context_switch::error::Error;
use context_switch::input::Input;
use context_switch::modality::{InputModality, OutputModality};
use context_switch::output::{BillingRecord, OutputPath};
use context_switch::protocol::{ClientEvent, ConversationId, Samples, ServerEvent};
use context_switch::registry::{registry, service_params, Registry, ServiceKind};
use serde_json::Value;
use std::time::Duration;

const FORMAT: AudioFormat = AudioFormat { channels: 1, sample_rate: 16000 };

fn s(text: &str) -> String {
    text.to_string()
}

fn id(text: &str) -> ConversationId {
    s(text).into()
}

fn start(conversation: &str, service: &str, input_modality: InputModality) -> ClientEvent {
    ClientEvent::Start {
        id: id(conversation),
        service: s(service),
        params: Value::Null,
        input_modality,
        output_modalities: vec![OutputModality::Text],
        billing_id: None,
    }
}

fn text(conversation: &str) -> ClientEvent {
    ClientEvent::Text {
        id: id(conversation),
        content: s("hi"),
        content_type: None,
        billing_scope: None,
    }
}

fn driver(input_modality: InputModality) -> ConversationDriver {
    let registry = Registry::empty().add_service("test-service", 1u64);
    ConversationDriver::start(&registry, start("conv", "test-service", input_modality))
        .ok()
        .unwrap()
        .driver
}

#[test]
fn samples_are_exchanged_as_text() {
    let samples = Samples(vec![0, 1, -1, i16::MIN]);
    let text = samples.serialize();
    assert_eq!(text, "AAABAP//AIA=");
    assert_eq!(Samples::deserialize(&text).unwrap().0, samples.0);
    assert_eq!(
        Samples::deserialize("AAAA").unwrap_err().chain,
        vec!["Invalid byte length for i16 samples"]
    );
    assert_eq!(Samples::deserialize("A").unwrap_err().chain.len(), 1);
}

#[test]
fn events_belong_to_conversations() {
    assert_eq!(text("a").conversation_id().as_str(), "a");
    let mut event = ServerEvent::Error { id: id("a"), message: s("m") };
    assert_eq!(event.conversation_id().as_str(), "a");
    event.set_conversation_id(id("b"));
    assert_eq!(event.conversation_id().as_str(), "b");
    assert!(matches!(&event, ServerEvent::Error { message, .. } if message == "m"));
}

#[test]
fn events_travel_on_paths() {
    let path = |event: ServerEvent| event.output_path();
    assert_eq!(path(ServerEvent::Stopped { id: id("a") }), OutputPath::Control);
    assert_eq!(path(ServerEvent::Error { id: id("a"), message: s("") }), OutputPath::Control);
    assert_eq!(path(ServerEvent::Started { id: id("a"), modalities: vec![] }), OutputPath::Control);
    assert_eq!(path(ServerEvent::ClearAudio { id: id("a") }), OutputPath::Media);
    let service = |path| ServerEvent::Service { id: id("a"), path, value: Value::Null };
    assert_eq!(path(service(OutputPath::Control)), OutputPath::Control);
    assert_eq!(path(service(OutputPath::Media)), OutputPath::Media);
    let bill = ServerEvent::BillingRecords {
        id: id("a"),
        request_id: None,
        service: s("x"),
        scope: None,
        records: vec![BillingRecord::count("n", 1)],
    };
    assert_eq!(path(bill), OutputPath::Media);
}

#[test]
fn services_are_registered() {
    let all = registry();
    assert_eq!(*all.service("aristech-synthesize").unwrap(), ServiceKind::AristechSynthesize);
    assert_eq!(*all.service("azure-translate").unwrap(), ServiceKind::AzureTranslate);
    for kind in [
        ServiceKind::AzureTranscribe,
        ServiceKind::AzureSynthesize,
        ServiceKind::AzureTranslate,
        ServiceKind::OpenAIDialog,
        ServiceKind::AristechTranscribe,
        ServiceKind::AristechSynthesize,
    ] {
        assert_eq!(*all.service(kind.name()).unwrap(), kind);
    }
    assert_eq!(all.service("x").unwrap_err().chain, vec!["`x`: Unregistered service"]);
    let default: Registry<ServiceKind> = Registry::default();
    assert!(default.service("openai-dialog").is_ok());
    assert!(default.service("azure-translate").is_err());
}

#[test]
fn conversations_are_started_and_left() {
    let mut switch = ContextSwitch::new();
    assert_eq!(switch.shutdown_timeout(), Duration::from_secs(3));
    let error = switch.process(text("conv")).err().unwrap();
    assert_eq!(error.chain, vec!["Expected start event for a new conversation id"]);
    let mut first = start("conv", "azure-transcribe", InputModality::Text);
    if let ClientEvent::Start { billing_id, .. } = &mut first {
        *billing_id = Some(s("bill"));
    }
    let Ok(ProcessAction::Start { billing: Some(billing), .. }) = switch.process(first) else {
        panic!("expected a start");
    };
    assert_eq!((billing.billing_id.as_str(), billing.service.as_str()), ("bill", "azure-transcribe"));
    assert!(matches!(switch.process(text("conv")), Ok(ProcessAction::Forward { event: ClientEvent::Text { .. } })));
    let again = start("conv", "azure-transcribe", InputModality::Text);
    assert!(matches!(switch.process(again), Ok(ProcessAction::Forward { event: ClientEvent::Start { .. } })));
    assert!(matches!(switch.process(ClientEvent::Stop { id: id("conv") }), Ok(ProcessAction::Leave { .. })));
    assert!(switch.process(text("conv")).is_err());
    let again = start("conv", "azure-transcribe", InputModality::Text);
    assert!(matches!(switch.process(again), Ok(ProcessAction::Start { billing: None, .. })));
    let timeout = Duration::new(1, 7);
    assert_eq!(switch.with_shutdown_timeout(timeout).shutdown_timeout(), timeout);
}

#[test]
fn audio_finds_its_conversations() {
    let mut switch = ContextSwitch::new();
    let audio = InputModality::Audio { format: FORMAT };
    switch.process(start("a", "s", audio)).ok().unwrap();
    switch.process(start("b", "s", InputModality::Text)).ok().unwrap();
    switch.process(start("c", "s", audio)).ok().unwrap();
    let other = InputModality::Audio { format: AudioFormat::new(1, 8000) };
    switch.process(start("d", "s", other)).ok().unwrap();
    let frame = || AudioFrame { format: FORMAT, samples: vec![1, 2] };
    let event = switch.post_audio_frame(&id("a"), frame()).ok().unwrap();
    assert!(matches!(&event, ClientEvent::Audio { id, samples } if id.as_str() == "a" && samples.0 == vec![1, 2]));
    assert_eq!(
        switch.post_audio_frame(&id("b"), frame()).err().unwrap().chain,
        vec!["Conversation's input modality does not match format of the audio frame"]
    );
    assert_eq!(
        switch.post_audio_frame(&id("x"), frame()).err().unwrap().chain,
        vec!["Conversation does not exist"]
    );
    let events = switch.broadcast_audio(&frame());
    let mut ids: Vec<String> =
        events.iter().map(|e| e.conversation_id().as_str().to_string()).collect();
    ids.sort();
    assert_eq!(ids, vec!["a", "c"]);
}

#[test]
fn conversations_need_a_service() {
    let registry: Registry<u64> = Registry::empty();
    let error = ConversationDriver::start(&registry, start("conv", "gone", InputModality::Text))
        .err()
        .unwrap();
    assert_eq!(error.chain, vec!["`gone`: Unregistered service"]);
    let error = ConversationDriver::start(&registry, text("conv")).err().unwrap();
    assert_eq!(error.chain, vec!["Initial client event must be a Start event"]);
}

#[test]
fn never_ending_service_shut_downs_gracefully_in_response_to_stop() {
    let mut switch = ContextSwitch::new().with_shutdown_timeout(Duration::from_micros(1));
    assert_eq!(switch.shutdown_timeout(), Duration::from_micros(1));
    let Ok(ProcessAction::Start { event, .. }) =
        switch.process(start("conv", "test-service", InputModality::Text))
    else {
        panic!("expected a start");
    };
    let registry = Registry::empty().add_service("test-service", 1u64);
    let mut driver = ConversationDriver::start(&registry, event).ok().unwrap().driver;
    let started = Output::ServiceStarted { modalities: vec![] };
    let action = driver
        .process_conversation_protected(DriverEvent::Output(Some(started)))
        .ok()
        .unwrap();
    assert!(matches!(action, DriverAction::Emit(ServerEvent::Started { .. })));

    assert!(matches!(
        switch.process(ClientEvent::Stop { id: id("conv") }),
        Ok(ProcessAction::Leave { .. })
    ));
    let action = driver.process_conversation_protected(DriverEvent::Input(None)).ok().unwrap();
    assert!(matches!(action, DriverAction::CloseInput));
    assert_eq!(driver.phase, Phase::ShuttingDown);

    let action = driver.process_conversation_protected(DriverEvent::ShutdownTimeout).ok().unwrap();
    assert!(matches!(action, DriverAction::End(ServerEvent::Stopped { .. })));
    assert_eq!(driver.phase, Phase::Ended);
}

#[test]
fn params_deserialization_failure_is_emitted_as_conversation_error() {
    let conv = id("conv-deser-fail");
    let params: Result<u64, Error> = service_params(Err(Error::new("invalid type: null")));
    let mut driver = driver(InputModality::Text);
    let result = driver
        .process_conversation_protected(DriverEvent::ServiceEnded(params.map(|_| ())))
        .map(|_| ServerEvent::Stopped { id: conv.clone() });

    let event = process_conversation(&conv, result);
    let ServerEvent::Error { id, message } = event else {
        panic!("Expected ServerEvent::Error");
    };

    assert_eq!(id.as_str(), conv.as_str());
    assert!(message.contains("Conversation: `conv-deser-fail`"));
    assert!(message.contains("Failed to deserialize service params"));
    assert_eq!(
        message,
        "Conversation: `conv-deser-fail`: Failed to deserialize service params: invalid type: null"
    );
}

#[test]
fn inputs_are_handed_to_the_service() {
    let mut spoken = driver(InputModality::Audio { format: FORMAT });
    let audio = || ClientEvent::Audio { id: id("conv"), samples: Samples(vec![3]) };
    let action = spoken
        .process_conversation_protected(DriverEvent::Input(Some(audio())))
        .ok()
        .unwrap();
    let DriverAction::Post(input) = action else { panic!("expected an input") };
    assert!(matches!(&input, Input::Audio { frame } if frame.format == FORMAT && frame.samples == vec![3]));
    assert_eq!(post_failure_context(&input), "Sending input audio frame to conversation");
    let service = ClientEvent::Service { id: id("conv"), value: Value::Bool(true) };
    let action = spoken
        .process_conversation_protected(DriverEvent::Input(Some(service)))
        .ok()
        .unwrap();
    assert!(matches!(action, DriverAction::Post(Input::ServiceEvent { value: Value::Bool(true) })));
    let mut written = driver(InputModality::Text);
    let action = written
        .process_conversation_protected(DriverEvent::Input(Some(text("conv"))))
        .ok()
        .unwrap();
    assert!(matches!(action, DriverAction::Post(Input::Text { request_id: None, text, .. }) if text == "hi"));
    assert_eq!(
        written
            .process_conversation_protected(DriverEvent::Input(Some(audio())))
            .err()
            .unwrap()
            .chain,
        vec!["Received unexpected Audio"]
    );
    assert_eq!(written.phase, Phase::Ended);
}

#[test]
fn conversations_fail() {
    let failure = |modality, event| {
        driver(modality).process_conversation_protected(event).err().unwrap().chain
    };
    let audio = InputModality::Audio { format: FORMAT };
    assert_eq!(
        failure(audio, DriverEvent::Input(Some(text("conv")))),
        vec!["Received unexpected Text"]
    );
    assert_eq!(
        failure(audio, DriverEvent::Input(Some(start("conv", "s", audio)))),
        vec!["Received unexpected Start event"]
    );
    assert_eq!(
        failure(audio, DriverEvent::Input(Some(ClientEvent::Stop { id: id("conv") }))),
        vec!["Received unexpected Stop event"]
    );
    assert_eq!(
        failure(audio, DriverEvent::ServiceEnded(Ok(()))),
        vec!["Conversation ended prematurely"]
    );
    assert_eq!(
        failure(audio, DriverEvent::Output(None)),
        vec!["Service output channel closed."]
    );
    assert_eq!(failure(audio, DriverEvent::ServiceEnded(Err(Error::new("x")))), vec!["x"]);
    let mut left = driver(audio);
    left.process_conversation_protected(DriverEvent::Input(None)).ok().unwrap();
    let action = left.process_conversation_protected(DriverEvent::ServiceEnded(Ok(()))).ok().unwrap();
    assert!(matches!(action, DriverAction::End(ServerEvent::Stopped { .. })));
}

#[test]
fn outputs_become_events() {
    let conv = id("conv");
    let frame = AudioFrame { format: FORMAT, samples: vec![9] };
    assert!(matches!(output_to_server_event(&conv, Output::Audio { frame }),
        ServerEvent::Audio { id, samples } if id.as_str() == "conv" && samples.0 == vec![9]));
    assert!(matches!(output_to_server_event(&conv, Output::Text { is_final: true, text: s("t") }),
        ServerEvent::Text { is_final: true, content, .. } if content == "t"));
    assert!(matches!(output_to_server_event(&conv, Output::RequestCompleted { request_id: Some(s("r")) }),
        ServerEvent::RequestCompleted { request_id: Some(r), .. } if r == "r"));
    assert!(matches!(output_to_server_event(&conv, Output::ClearAudio), ServerEvent::ClearAudio { .. }));
    let bill = Output::BillingRecords {
        request_id: None,
        service: s("svc"),
        scope: Some(s("sc")),
        records: vec![],
    };
    assert!(matches!(output_to_server_event(&conv, bill),
        ServerEvent::BillingRecords { service, scope: Some(sc), .. } if service == "svc" && sc == "sc"));
}

#[test]
fn controlled_conversations() {
    let mut controller: ConversationController<u32> = ConversationController::default();
    let conv = id("c");
    assert_eq!(
        controller.started(&conv, Ok(1)).unwrap_err().chain,
        vec!["c: Conversation started, but currently not in state starting"]
    );
    controller.starting(&conv).unwrap();
    assert_eq!(
        controller.starting(&conv).unwrap_err().chain,
        vec!["c: Conversation already ongoing"]
    );
    assert_eq!(controller.started(&conv, Err(Error::new("no"))).unwrap_err().chain, vec!["no"]);
    assert_eq!(
        controller.stopping(&conv).unwrap_err().chain,
        vec!["ConverstationState is not active"]
    );
    controller.started(&conv, Ok(7)).unwrap();
    assert_eq!(
        controller.stopped(&conv, Ok(())).unwrap_err().chain,
        vec!["c: Conversation stopped, but currently not in state stopping"]
    );
    assert_eq!(controller.stopping(&conv).unwrap(), 7);
    assert_eq!(controller.stopped(&conv, Err(Error::new("late"))).unwrap_err().chain, vec!["late"]);
    assert_eq!(
        controller.stopping(&conv).unwrap_err().chain,
        vec!["c: Conversation does not exist, can't stop"]
    );
    assert!(controller.starting(&conv).is_ok());
}

#[test]
fn plain_front() {
    let mut api = Api::new();
    assert_eq!(*api.registry.service("openai-dialog").unwrap(), ServiceKind::OpenAIDialog);
    assert!(api.registry.service("azure-translate").is_err());
    assert!(matches!(api.process(text("a")), ApiAction::Start { .. }));
    assert!(matches!(api.process(text("a")), ApiAction::Forward { .. }));
    assert!(matches!(api.process(text("b")), ApiAction::Start { .. }));
    let event = Api::process_conversation(id("a"), Err(Error::new("root").context("outer")));
    assert!(matches!(event, ServerEvent::Error { message, .. } if message == "outer"));
}

#[test]
fn traced_audio() {
    let mut tracer = AudioTracer::new(s("a.wav"));
    assert_eq!(tracer.filename(), "a.wav");
    assert!(tracer.write_file().is_none());
    tracer.capture_frame(AudioFrame { format: FORMAT, samples: vec![1, 2] });
    tracer.capture_frame(AudioFrame { format: AudioFormat::new(2, 8000), samples: vec![3] });
    let recording = tracer.write_file().unwrap();
    assert_eq!(recording.format, FORMAT);
    assert_eq!(recording.samples, vec![1, 2, 3]);
}

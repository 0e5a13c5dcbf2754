//! Parameters, events of the service, and the messages of the realtime protocol.

use vstd::prelude::*;

use serde_json::Value;

use crate::json::opt_json_text;
use crate::json::opt_json_texts;
use crate::openai_dialog::host::Protocol;
use crate::text::opt_view;

verus! {

/// The parameters of a dialog.
pub struct Params {
    pub api_key: String,
    pub model: String,
    pub protocol: Option<Protocol>,
    pub endpoint: Option<String>,
    pub instructions: Option<String>,
    pub voice: Option<String>,
    pub input_audio_transcription: bool,
    pub output_audio_transcription: bool,
    pub tools: Vec<Value>,
    pub tool_choice: Option<Value>,
}

impl Params {
    /// Parameters with a key and a model, and nothing else set.
    pub fn new(api_key: &str, model: &str) -> (r: Params)
        ensures
            r.api_key@ == api_key@,
            r.model@ == model@,
            r.protocol is None && r.endpoint is None && r.instructions is None,
            r.voice is None && r.tool_choice is None && r.tools@.len() == 0,
            !r.input_audio_transcription && !r.output_audio_transcription,
    {
        Params {
            api_key: api_key.to_owned(),
            model: model.to_owned(),
            protocol: None,
            endpoint: None,
            instructions: None,
            voice: None,
            input_audio_transcription: false,
            output_audio_transcription: false,
            tools: Vec::new(),
            tool_choice: None,
        }
    }
}

/// What a participant can ask of the service.
pub enum ServiceInputEvent {
    /// The result of a function call.
    FunctionCallResult { call_id: String, output: Value },
    /// Instructions for a response of the model.
    Prompt { text: String },
    /// Changes to the session; what is absent stays.
    SessionUpdate {
        instructions: Option<String>,
        voice: Option<String>,
        tools: Option<Vec<Value>>,
        tool_choice: Option<Value>,
    },
}

/// What the service reports.
pub enum ServiceOutputEvent {
    /// The model calls a function. `arguments` are `None` if none were given, which is not the
    /// same as `null`.
    FunctionCall { call_id: String, name: String, arguments: Option<Value> },
    /// The session was updated.
    SessionUpdated { tools: Option<Vec<Value>> },
    /// The model's turn is complete.
    TurnComplete,
}

/// What the service reports, JSON values by their compact text.
pub enum ServiceOutputView {
    FunctionCall { call_id: Seq<char>, name: Seq<char>, arguments: Option<Seq<char>> },
    SessionUpdated { tools: Option<Seq<Seq<char>>> },
    TurnComplete,
}

impl View for ServiceOutputEvent {
    type V = ServiceOutputView;

    open spec fn view(&self) -> ServiceOutputView {
        match *self {
            ServiceOutputEvent::FunctionCall { call_id, name, arguments } =>
                ServiceOutputView::FunctionCall {
                    call_id: call_id@,
                    name: name@,
                    arguments: opt_json_text(arguments),
                },
            ServiceOutputEvent::SessionUpdated { tools } => ServiceOutputView::SessionUpdated {
                tools: opt_json_texts(tools),
            },
            ServiceOutputEvent::TurnComplete => ServiceOutputView::TurnComplete,
        }
    }
}

/// An error that the server reports.
pub struct ServerError {
    pub code: Option<String>,
    /// The client event that caused it.
    pub event_id: Option<String>,
    pub message: String,
    /// The whole error, described for an error message.
    pub description: String,
}

/// The encoding of audio in a session.
pub enum SessionAudioFormat {
    Pcm,
    /// Any other, described for an error message.
    Other { description: String },
}

/// A session as the server describes it.
pub enum Session {
    /// A dialog.
    Realtime {
        input_format: Option<SessionAudioFormat>,
        output_format: Option<SessionAudioFormat>,
        output_modalities: Option<Vec<OutputModality>>,
        tools: Option<Vec<Value>>,
    },
    /// Any other kind of session, described for an error message.
    Transcription { description: String },
}

/// What a session puts out.
#[derive(Debug, Clone, Copy, PartialEq, Eq, Structural)]
pub enum OutputModality {
    Text,
    Audio,
}

/// How far a response or an item of it has come.
#[derive(Debug, Clone, Copy, PartialEq, Eq, Structural)]
pub enum Status {
    Completed,
    NotCompleted,
}

/// The kind of an item of a response.
#[derive(Debug, Clone, Copy, PartialEq, Eq, Structural)]
pub enum ItemType {
    FunctionCall,
    Other,
}

/// One item of a response.
pub struct Item {
    pub id: Option<String>,
    pub item_type: Option<ItemType>,
    pub status: Option<Status>,
    pub name: Option<String>,
    pub call_id: Option<String>,
    pub arguments: Option<String>,
}

/// The tokens that a response took.
#[derive(Debug, Clone, Copy, PartialEq, Eq, Structural)]
pub struct Usage {
    pub input_audio_tokens: u32,
    pub input_text_tokens: u32,
    pub cached_audio_tokens: u32,
    pub cached_text_tokens: u32,
    pub output_audio_tokens: u32,
    pub output_text_tokens: u32,
}

/// A response of the model.
pub struct Response {
    pub id: String,
    pub object: String,
    pub status: Status,
    pub output: Vec<Item>,
    pub usage: Option<Usage>,
}

/// An event from the server.
pub enum ServerEvent {
    Error(ServerError),
    SessionCreated { session: Session },
    SessionUpdated { session: Session },
    ResponseOutputAudioDelta { delta: String },
    InputAudioBufferSpeechStarted,
    ConversationItemInputAudioTranscriptionDelta {
        item_id: String,
        content_index: u32,
        delta: String,
    },
    ConversationItemInputAudioTranscriptionCompleted {
        item_id: String,
        content_index: u32,
        transcript: String,
    },
    ResponseOutputAudioTranscriptDelta {
        response_id: String,
        item_id: String,
        output_index: u32,
        content_index: u32,
        delta: String,
    },
    ResponseOutputAudioTranscriptDone {
        response_id: String,
        item_id: String,
        output_index: u32,
        content_index: u32,
        transcript: String,
    },
    ConversationItemDeleted { item_id: String },
    ConversationItemTruncated { item_id: String, content_index: u32 },
    ResponseCreated { object: String },
    ResponseDone { response: Response },
    /// Any other event.
    Other,
}

/// The settings of a session that a client asks for; what is absent stays.
pub struct SessionSettings {
    pub instructions: Option<String>,
    pub input_transcription_model: Option<String>,
    pub voice: Option<String>,
    /// How fast the voice speaks, in percent of its usual speed.
    pub speed_percent: Option<u32>,
    pub tools: Option<Vec<Value>>,
    pub tool_choice: Option<Value>,
}

/// The speed that goes with a voice: the usual one.
pub open spec fn speed_of<V>(voice: Option<V>) -> Option<u32> {
    match voice {
        Some(_) => Some(100),
        None => None,
    }
}

/// The speed that goes with a voice: the usual one.
pub(crate) fn usual_speed(voice: &Option<String>) -> (r: Option<u32>)
    ensures
        r == speed_of(*voice),
{
    match voice {
        Some(_) => Some(100),
        None => None,
    }
}

/// The settings of a session, as mathematical values.
pub struct SessionSettingsView {
    pub instructions: Option<Seq<char>>,
    pub input_transcription_model: Option<Seq<char>>,
    pub voice: Option<Seq<char>>,
    pub speed_percent: Option<u32>,
    pub tools: Option<Seq<Seq<char>>>,
    pub tool_choice: Option<Seq<char>>,
}

impl View for SessionSettings {
    type V = SessionSettingsView;

    open spec fn view(&self) -> SessionSettingsView {
        SessionSettingsView {
            instructions: opt_view(self.instructions),
            input_transcription_model: opt_view(self.input_transcription_model),
            voice: opt_view(self.voice),
            speed_percent: self.speed_percent,
            tools: opt_json_texts(self.tools),
            tool_choice: opt_json_text(self.tool_choice),
        }
    }
}

/// An event to the server.
pub enum ClientEvent {
    /// Audio from the participant, as base64 text.
    InputAudioBufferAppend { audio: String },
    /// The output of a function call, as JSON text.
    FunctionCallOutput { call_id: String, output: String },
    /// Asks for a response.
    ResponseCreate,
    /// Asks for a response to nothing but the given instructions.
    PromptResponse { instructions: String, event_id: Option<String> },
    /// Changes the session.
    SessionUpdate { session: SessionSettings },
}

/// An event to the server, as mathematical values.
pub enum ClientEventView {
    InputAudioBufferAppend { audio: Seq<char> },
    FunctionCallOutput { call_id: Seq<char>, output: Seq<char> },
    ResponseCreate,
    PromptResponse { instructions: Seq<char>, event_id: Option<Seq<char>> },
    SessionUpdate { session: SessionSettingsView },
}

impl View for ClientEvent {
    type V = ClientEventView;

    open spec fn view(&self) -> ClientEventView {
        match *self {
            ClientEvent::InputAudioBufferAppend { audio } =>
                ClientEventView::InputAudioBufferAppend { audio: audio@ },
            ClientEvent::FunctionCallOutput { call_id, output } =>
                ClientEventView::FunctionCallOutput { call_id: call_id@, output: output@ },
            ClientEvent::ResponseCreate => ClientEventView::ResponseCreate,
            ClientEvent::PromptResponse { instructions, event_id } =>
                ClientEventView::PromptResponse {
                    instructions: instructions@,
                    event_id: opt_view(event_id),
                },
            ClientEvent::SessionUpdate { session } => ClientEventView::SessionUpdate {
                session: session@,
            },
        }
    }
}

/// The views of the events that were sent.
pub open spec fn sent_view(sent: Seq<ClientEvent>) -> Seq<ClientEventView> {
    sent.map_values(|e: ClientEvent| e@)
}

/// Adds an event to those that are sent.
pub(crate) fn send(sent: &mut Vec<ClientEvent>, event: ClientEvent)
    ensures
        sent_view(final(sent)@) == sent_view(old(sent)@).push(event@),
{
    sent.push(event);
    assert(sent_view(sent@) =~= sent_view(old(sent)@).push(event@));
}

} // verus!

//! The course of a dialog.

use vstd::prelude::*;

use uuid::Uuid;

use crate::audio::le_bytes;
use crate::audio::AudioFormat;
use crate::audio::AudioFrame;
use crate::audio::FrameView;
use crate::base64_codec::base64_text;
use crate::base64_codec::encode_base64;
use crate::error::Error;
use crate::input::FlowControl;
use crate::input::FlowView;
use crate::input::Input;
use crate::input::SocketMessage;
use crate::json::json_text;
use crate::json::write_json;
use crate::openai_dialog::client::carried_out;
use crate::openai_dialog::client::fails;
use crate::openai_dialog::client::flows;
use crate::openai_dialog::client::handled;
use crate::openai_dialog::client::moves;
use crate::openai_dialog::client::sends;
use crate::openai_dialog::client::Client;
use crate::openai_dialog::client::ClientState;
use crate::openai_dialog::client::Handled;
use crate::openai_dialog::host::resolve_protocol;
use crate::openai_dialog::host::resolved;
use crate::openai_dialog::host::Host;
use crate::openai_dialog::prompts::prompt_event;
use crate::openai_dialog::prompts::send_prompt_event;
use crate::openai_dialog::prompts::PromptRequest;
use crate::openai_dialog::session::asks_for_anything;
use crate::openai_dialog::session::check_formats;
use crate::openai_dialog::session::dialog_format;
use crate::openai_dialog::session::first_message_error;
use crate::openai_dialog::session::initial_session_update;
use crate::openai_dialog::session::initial_settings;
use crate::openai_dialog::session::verify_session_created_event;
use crate::openai_dialog::session::wrong_format;
use crate::openai_dialog::transcription::TranscriptionSettings;
use crate::openai_dialog::types::speed_of;
use crate::openai_dialog::types::usual_speed;
use crate::openai_dialog::types::send;
use crate::openai_dialog::types::sent_view;
use crate::openai_dialog::types::ClientEvent;
use crate::openai_dialog::types::ClientEventView;
use crate::openai_dialog::types::Params;
use crate::openai_dialog::types::ServerEvent;
use crate::openai_dialog::types::ServiceInputEvent;
use crate::openai_dialog::types::ServiceOutputEvent;
use crate::openai_dialog::types::SessionSettings;
use crate::openai_dialog::types::SessionSettingsView;
use crate::output::emissions;
use crate::output::Emission;
use crate::text::as_opt_str;
use crate::text::concat3;
use crate::text::opt_view;

verus! {

/// The realtime dialog service.
#[derive(Debug, Clone, Copy, PartialEq, Eq, Structural)]
pub struct OpenAIDialog;

/// What a conversation needs: where to connect, and what to transcribe.
pub struct DialogPlan {
    pub host: Host,
    pub transcription: TranscriptionSettings,
}

impl OpenAIDialog {
    /// Decides how a conversation is held. Transcripts are put out as text, so without a text
    /// output there is nothing to transcribe for.
    pub fn conversation(
        &self,
        params: &Params,
        input_format: AudioFormat,
        output_format: AudioFormat,
        has_text_output: bool,
    ) -> (r: Result<DialogPlan, Error>)
        ensures
            r is Ok <==> input_format == output_format && resolved(
                params.protocol,
                opt_view(params.endpoint),
            ) is Ok,
            r matches Ok(plan) ==> {
                &&& plan.host.endpoint@ == match opt_view(params.endpoint) {
                    Some(endpoint) => endpoint,
                    None => "wss://api.openai.com/v1/realtime"@,
                }
                &&& plan.host.api_key@ == params.api_key@
                &&& plan.host.model@ == params.model@
                &&& plan.host.protocol == resolved(params.protocol, opt_view(params.endpoint))->Ok_0
                &&& plan.transcription == (TranscriptionSettings {
                    input: params.input_audio_transcription && has_text_output,
                    output: params.output_audio_transcription && has_text_output,
                })
            },
            r matches Err(e) ==> e@ == if input_format != output_format {
                seq!["Input and output audio formats must match for OpenAI dialog service"@]
            } else {
                resolved(params.protocol, opt_view(params.endpoint))->Err_0
            },
    {
        if input_format != output_format {
            return Err(
                Error::new("Input and output audio formats must match for OpenAI dialog service"),
            );
        }
        let protocol = match resolve_protocol(params.protocol, as_opt_str(&params.endpoint)) {
            Ok(protocol) => protocol,
            Err(error) => return Err(error),
        };
        let host = match &params.endpoint {
            Some(endpoint) => Host::new_with_host(
                endpoint.as_str(),
                params.api_key.as_str(),
                params.model.as_str(),
                protocol,
            ),
            None => Host::new(params.api_key.as_str(), params.model.as_str(), protocol),
        };
        Ok(
            DialogPlan {
                host,
                transcription: TranscriptionSettings {
                    input: params.input_audio_transcription && has_text_output,
                    output: params.output_audio_transcription && has_text_output,
                },
            },
        )
    }
}

/// Something that happens in the course of a dialog.
pub enum DialogEvent {
    /// An input of the conversation, with the service's own events read; `None` at the end.
    Input(Option<Input<Result<ServiceInputEvent, String>>>),
    /// A message of the server, or a failure of the socket; `None` at the end of the stream.
    Message(Option<Result<SocketMessage<ServerEvent>, String>>),
}

/// A new random event id, from `Uuid::new_v4` of the `uuid` crate.
#[verifier::external_body]
fn new_event_id() -> (r: String)
{
    Uuid::new_v4().to_string()
}

/// What comes of a prompt.
pub open spec fn prompted(client: ClientState, text: Seq<char>, event_id: Seq<char>) -> Handled {
    match client.prompts {
        Some(p) => sends(
            ClientState { prompts: Some(p.queued(text).flushed(event_id)), ..client },
            p.queued(text).flush_sends(event_id),
        ),
        None => sends(client, seq![prompt_event(text, None)]),
    }
}

/// The audio of a frame in an event to the server.
pub open spec fn audio_event(frame: FrameView) -> ClientEventView {
    ClientEventView::InputAudioBufferAppend { audio: base64_text(le_bytes(frame.samples)) }
}

/// What comes of an input of the conversation.
pub open spec fn input_handled(
    client: ClientState,
    input: Input<Result<ServiceInputEvent, String>>,
    event_id: Seq<char>,
) -> Handled {
    match input {
        Input::Text { .. } => moves(client),
        Input::Audio { frame } => sends(client, seq![audio_event(frame@)]),
        Input::ServiceEvent { value } => match value {
            Err(cause) => fails(client, seq![cause@]),
            Ok(ServiceInputEvent::FunctionCallResult { call_id, output }) => sends(
                client,
                seq![
                    ClientEventView::FunctionCallOutput {
                        call_id: call_id@,
                        output: json_text(output),
                    },
                    ClientEventView::ResponseCreate,
                ],
            ),
            Ok(ServiceInputEvent::Prompt { text }) => prompted(client, text@, event_id),
            Ok(ServiceInputEvent::SessionUpdate { instructions, voice, tools, tool_choice }) =>
                sends(
                    client,
                    seq![
                        ClientEventView::SessionUpdate {
                            session: SessionSettingsView {
                                instructions: opt_view(instructions),
                                input_transcription_model: None,
                                voice: opt_view(voice),
                                speed_percent: speed_of(voice),
                                tools: crate::json::opt_json_texts(tools),
                                tool_choice: crate::json::opt_json_text(tool_choice),
                            },
                        },
                    ],
                ),
        },
    }
}

/// What comes of a message of the server.
pub open spec fn message_handled(
    client: ClientState,
    message: SocketMessage<ServerEvent>,
    output_format: AudioFormat,
    billing_scope: Seq<char>,
    transcription: TranscriptionSettings,
    event_id: Seq<char>,
) -> Handled {
    match message {
        SocketMessage::Text { raw, event } => match event {
            Ok(event) => handled(
                client,
                raw@,
                event,
                output_format,
                billing_scope,
                transcription,
                event_id,
            ),
            Err(cause) => fails(client, seq!["Deserialization failed: `"@ + raw@ + "`"@, cause@]),
        },
        SocketMessage::Ping(payload) => flows(client, FlowView::PongAndContinue(payload@)),
        SocketMessage::Close => flows(client, FlowView::End),
        SocketMessage::Other { description } => fails(client, seq!["Unhandled: "@ + description@]),
    }
}

/// What comes of something that happens in the course of a dialog.
pub open spec fn event_handled(
    client: ClientState,
    event: DialogEvent,
    output_format: AudioFormat,
    billing_scope: Seq<char>,
    transcription: TranscriptionSettings,
    event_id: Seq<char>,
) -> Handled {
    match event {
        DialogEvent::Input(None) => flows(client, FlowView::End),
        DialogEvent::Input(Some(input)) => input_handled(client, input, event_id),
        DialogEvent::Message(None) => flows(client, FlowView::End),
        DialogEvent::Message(Some(Err(cause))) => fails(client, seq![cause@]),
        DialogEvent::Message(Some(Ok(message))) => message_handled(
            client,
            message,
            output_format,
            billing_scope,
            transcription,
            event_id,
        ),
    }
}

/// Whether the audio of an input has one channel.
pub open spec fn is_mono(input: Input<Result<ServiceInputEvent, String>>) -> bool {
    input matches Input::Audio { frame } ==> frame.format.channels == 1
}

impl Client {
    /// Begins a dialog: checks the formats and the server's first message, and returns the update
    /// of the session to send, if any.
    pub fn begin_dialog(
        &self,
        input_format: AudioFormat,
        output_format: AudioFormat,
        params: Params,
        transcription: TranscriptionSettings,
        message: Option<Result<SocketMessage<ServerEvent>, String>>,
    ) -> (r: Result<Option<ClientEvent>, Error>)
        ensures
            r is Ok <==> input_format == dialog_format() && output_format == dialog_format()
                && first_message_error(message) is None,
            r matches Ok(update) ==> (update is Some <==> asks_for_anything(
                initial_settings(params, transcription),
            )),
            r matches Ok(Some(update)) ==> update@ == (ClientEventView::SessionUpdate {
                session: initial_settings(params, transcription),
            }),
            r matches Err(e) ==> e@ == if input_format != dialog_format() {
                seq![wrong_format("Audio input has the wrong format "@, input_format)]
            } else if output_format != dialog_format() {
                seq![wrong_format("Audio output has the wrong format "@, output_format)]
            } else {
                seq![first_message_error(message)->0]
            },
    {
        match check_formats(input_format, output_format) {
            Ok(()) => {},
            Err(error) => return Err(error),
        }
        match verify_session_created_event(message) {
            Ok(()) => {},
            Err(error) => return Err(error),
        }
        match initial_session_update(params, transcription) {
            Some(session) => Ok(Some(ClientEvent::SessionUpdate { session })),
            None => Ok(None),
        }
    }

    /// Sends the audio of a frame.
    pub fn send_frame(&self, frame: &AudioFrame, sent: &mut Vec<ClientEvent>)
        requires
            frame.format.channels == 1,
        ensures
            sent_view(final(sent)@) == sent_view(old(sent)@).push(audio_event(frame@)),
    {
        let bytes = frame.to_le_bytes();
        send(sent, ClientEvent::InputAudioBufferAppend { audio: encode_base64(&bytes) });
    }

    /// Processes one input of the conversation.
    pub fn process_input(
        &mut self,
        input: Input<Result<ServiceInputEvent, String>>,
        event_id: String,
        sent: &mut Vec<ClientEvent>,
    ) -> (r: Result<(), Error>)
        requires
            is_mono(input),
        ensures
            ({
                let h = input_handled(old(self)@, input, event_id@);
                &&& final(self)@ == h.client
                &&& sent_view(final(sent)@) == sent_view(old(sent)@) + h.sent
                &&& r is Ok <==> h.result is Ok
                &&& r matches Err(e) ==> h.result->Err_0 == e@
            }),
    {
        proof {
            assert(sent_view(sent@) + Seq::empty() =~= sent_view(sent@));
            assert forall|e: ClientEventView| #[trigger]
                sent_view(sent@).push(e) == sent_view(sent@) + seq![e] by {
                assert(sent_view(sent@).push(e) =~= sent_view(sent@) + seq![e]);
            }
        }
        match input {
            Input::Text { .. } => {},
            Input::Audio { frame } => {
                self.send_frame(&frame, sent);
            },
            Input::ServiceEvent { value } => match value {
                Err(cause) => {
                    return Err(Error::from_text(cause));
                },
                Ok(ServiceInputEvent::FunctionCallResult { call_id, output }) => {
                    let text = write_json(&output);
                    send(sent, ClientEvent::FunctionCallOutput { call_id, output: text });
                    send(sent, ClientEvent::ResponseCreate);
                    assert(sent_view(sent@) =~= sent_view(old(sent)@) + seq![
                        ClientEventView::FunctionCallOutput {
                            call_id: call_id@,
                            output: json_text(output),
                        },
                        ClientEventView::ResponseCreate,
                    ]);
                },
                Ok(ServiceInputEvent::Prompt { text }) => match &mut self.prompt_coordinator {
                    Some(coordinator) => {
                        coordinator.push_prompt(PromptRequest(text), event_id, sent);
                    },
                    None => {
                        send_prompt_event(&PromptRequest(text), None, sent);
                    },
                },
                Ok(
                    ServiceInputEvent::SessionUpdate { instructions, voice, tools, tool_choice },
                ) => {
                    let speed_percent = usual_speed(&voice);
                    let session = SessionSettings {
                        instructions,
                        input_transcription_model: None,
                        voice,
                        speed_percent,
                        tools,
                        tool_choice,
                    };
                    send(sent, ClientEvent::SessionUpdate { session });
                },
            },
        }
        Ok(())
    }

    /// Processes one message of the server.
    pub fn process_message(
        &mut self,
        message: SocketMessage<ServerEvent>,
        output_format: AudioFormat,
        out: &mut Vec<Emission<ServiceOutputEvent>>,
        billing_scope: &str,
        transcription: TranscriptionSettings,
        event_id: String,
        sent: &mut Vec<ClientEvent>,
    ) -> (r: Result<FlowControl, Error>)
        ensures
            ({
                let h = message_handled(
                    old(self)@,
                    message,
                    output_format,
                    billing_scope@,
                    transcription,
                    event_id@,
                );
                &&& carried_out(h, final(self)@, old(out)@, final(out)@, old(sent)@, final(sent)@)
                &&& r is Ok <==> h.result is Ok
                &&& r matches Ok(flow) ==> h.result->Ok_0 == flow@
                &&& r matches Err(e) ==> h.result->Err_0 == e@
            }),
    {
        proof {
            assert(emissions(out@) + Seq::empty() =~= emissions(out@));
            assert(sent_view(sent@) + Seq::empty() =~= sent_view(sent@));
        }
        match message {
            SocketMessage::Text { raw, event } => match event {
                Ok(event) => match self.handle_realtime_server_event(
                    raw.as_str(),
                    event,
                    out,
                    output_format,
                    billing_scope,
                    transcription,
                    event_id,
                    sent,
                ) {
                    Ok(()) => Ok(FlowControl::Continue),
                    Err(error) => Err(error),
                },
                Err(cause) => {
                    let outer = concat3("Deserialization failed: `", raw.as_str(), "`");
                    let error = Error::from_text(cause).context(outer.as_str());
                    assert(error@ =~= seq![outer@, cause@]);
                    Err(error)
                },
            },
            SocketMessage::Ping(payload) => Ok(FlowControl::PongAndContinue(payload)),
            SocketMessage::Close => Ok(FlowControl::End),
            SocketMessage::Other { description } => Err(
                Error::from_text(crate::text::concat2("Unhandled: ", description.as_str())),
            ),
        }
    }

    /// One round of a dialog: something happened, and the client says how the dialog goes on. The
    /// id of a prompt that is sent is random.
    pub fn dialog(
        &mut self,
        event: DialogEvent,
        output_format: AudioFormat,
        billing_scope: &str,
        transcription: TranscriptionSettings,
        out: &mut Vec<Emission<ServiceOutputEvent>>,
        sent: &mut Vec<ClientEvent>,
    ) -> (r: Result<FlowControl, Error>)
        requires
            event matches DialogEvent::Input(Some(input)) ==> is_mono(input),
        ensures
            exists|event_id: Seq<char>|
                {
                    let h = #[trigger] event_handled(
                        old(self)@,
                        event,
                        output_format,
                        billing_scope@,
                        transcription,
                        event_id,
                    );
                    &&& carried_out(
                        h,
                        final(self)@,
                        old(out)@,
                        final(out)@,
                        old(sent)@,
                        final(sent)@,
                    )
                    &&& r is Ok <==> h.result is Ok
                    &&& r matches Ok(flow) ==> h.result->Ok_0 == flow@
                    &&& r matches Err(e) ==> h.result->Err_0 == e@
                },
    {
        let event_id = new_event_id();
        self.dialog_round(event, output_format, billing_scope, transcription, event_id, out, sent)
    }

    /// One round of a dialog, with the id for a prompt that may be sent.
    pub fn dialog_round(
        &mut self,
        event: DialogEvent,
        output_format: AudioFormat,
        billing_scope: &str,
        transcription: TranscriptionSettings,
        event_id: String,
        out: &mut Vec<Emission<ServiceOutputEvent>>,
        sent: &mut Vec<ClientEvent>,
    ) -> (r: Result<FlowControl, Error>)
        requires
            event matches DialogEvent::Input(Some(input)) ==> is_mono(input),
        ensures
            ({
                let h = event_handled(
                    old(self)@,
                    event,
                    output_format,
                    billing_scope@,
                    transcription,
                    event_id@,
                );
                &&& carried_out(h, final(self)@, old(out)@, final(out)@, old(sent)@, final(sent)@)
                &&& r is Ok <==> h.result is Ok
                &&& r matches Ok(flow) ==> h.result->Ok_0 == flow@
                &&& r matches Err(e) ==> h.result->Err_0 == e@
            }),
    {
        proof {
            assert(emissions(out@) + Seq::empty() =~= emissions(out@));
            assert(sent_view(sent@) + Seq::empty() =~= sent_view(sent@));
        }
        match event {
            DialogEvent::Input(None) => Ok(FlowControl::End),
            DialogEvent::Input(Some(input)) => match self.process_input(input, event_id, sent) {
                Ok(()) => Ok(FlowControl::Continue),
                Err(error) => Err(error),
            },
            DialogEvent::Message(None) => Ok(FlowControl::End),
            DialogEvent::Message(Some(Err(cause))) => Err(Error::from_text(cause)),
            DialogEvent::Message(Some(Ok(message))) => self.process_message(
                message,
                output_format,
                out,
                billing_scope,
                transcription,
                event_id,
                sent,
            ),
        }
    }
}

} // verus!

//! What holds of a dialog, event by event.

use vstd::prelude::*;

use serde_json::Value;

use crate::audio::law_bytes_of_samples;
use crate::audio::law_samples_of_bytes;
use crate::audio::AudioFormat;
use crate::audio::AudioFrame;
use crate::error::Error;
use crate::google_dialog::client::calls_canceled;
use crate::google_dialog::client::calls_made;
use crate::google_dialog::client::command_view;
use crate::google_dialog::client::counted;
use crate::google_dialog::client::event_handled;
use crate::google_dialog::client::input_handled;
use crate::google_dialog::client::output_audio_format;
use crate::google_dialog::client::tokens_of;
use crate::google_dialog::client::Client;
use crate::google_dialog::client::Command;
use crate::google_dialog::client::CommandView;
use crate::google_dialog::client::DialogEvent;
use crate::google_dialog::client::FlowControl;
use crate::google_dialog::client::GoogleDialog;
use crate::google_dialog::client::ModalityTokenCount;
use crate::google_dialog::client::ServerEvent;
use crate::google_dialog::client::Step;
use crate::google_dialog::client::ToolCall;
use crate::google_dialog::client::UsageMetadata;
use crate::google_dialog::conversation_state::cancel_error;
use crate::google_dialog::conversation_state::register_error;
use crate::google_dialog::conversation_state::resolve_error;
use crate::google_dialog::conversation_state::resolved_name;
use crate::google_dialog::conversation_state::ConversationState;
use crate::google_dialog::conversation_state::OpenCall;
use crate::google_dialog::conversation_state::StateView;
use crate::google_dialog::conversation_state::ToolCallEntry;
use crate::google_dialog::conversation_state::ToolCallTracker;
use crate::google_dialog::model::behavior_of;
use crate::google_dialog::model::declarations_error;
use crate::google_dialog::model::known_model;
use crate::google_dialog::model::level_name;
use crate::google_dialog::model::named;
use crate::google_dialog::model::non_blocking_only;
use crate::google_dialog::model::non_blocking_tools;
use crate::google_dialog::model::scheduling_error;
use crate::google_dialog::model::thinking_error;
use crate::google_dialog::model::tools_error;
use crate::google_dialog::setup::addressed_endpoint;
use crate::google_dialog::setup::addressed_model;
use crate::google_dialog::setup::connect_error;
use crate::google_dialog::setup::count_interim;
use crate::google_dialog::setup::count_text;
use crate::google_dialog::setup::first_repeated;
use crate::google_dialog::setup::setup_error;
use crate::google_dialog::setup::setup_for;
use crate::google_dialog::setup::Endpoint;
use crate::google_dialog::setup::EndpointView;
use crate::google_dialog::setup::Modality;
use crate::google_dialog::setup::SessionConfig;
use crate::google_dialog::setup::SetupConfig;
use crate::google_dialog::setup::TextOutputs;
use crate::google_dialog::types::first_unsupported;
use crate::google_dialog::types::grouped;
use crate::google_dialog::types::matching_name;
use crate::google_dialog::types::meaning;
use crate::google_dialog::types::tools_view;
use crate::google_dialog::types::voice_names;
use crate::google_dialog::types::ClientContentRole;
use crate::google_dialog::types::DeclarationView;
use crate::google_dialog::types::FunctionBehavior;
use crate::google_dialog::types::FunctionDeclaration;
use crate::google_dialog::types::FunctionResponseScheduling;
use crate::google_dialog::types::Meaning;
use crate::google_dialog::types::Params;
use crate::google_dialog::types::RawTool;
use crate::google_dialog::types::ServiceInputEvent;
use crate::google_dialog::types::ServiceOutputEvent;
use crate::google_dialog::types::ThinkingLevel;
use crate::google_dialog::types::Tool;
use crate::google_dialog::types::ToolView;
use crate::input::Input;
use crate::json::json_text;
use crate::modality::OutputModality;
use crate::openai_dialog::session::format_text;
use crate::output::emissions;
use crate::output::BillingSchedule;
use crate::output::Emission;
use crate::output::OutputPath;
use crate::output::SpeakerView;
use crate::text::joined;
use crate::text::same_but_for_case;

verus! {

/// Texts, prompts and contents go to the model as they are, and so do the samples of the audio: two
/// bytes for each, the low one first, at the rate of the frame. Nothing of it is kept.
pub proof fn law_inputs_are_sent(
    params: Params,
    state: StateView,
    frame: AudioFrame,
    request_id: Option<String>,
    text: String,
    text_type: Option<String>,
    is_final: bool,
    role: ClientContentRole,
    turn_complete: bool,
)
    ensures
        ({
            let h = input_handled(params, Input::Audio { frame }, state);
            let bytes = h.command->Ok_0->0->bytes;
            &&& h.state == state
            &&& h.command is Ok && h.command->Ok_0 is Some && h.command->Ok_0->0 is Audio
            &&& h.command->Ok_0->0->sample_rate == frame.format.sample_rate
            &&& bytes.len() == 2 * frame.samples@.len()
            &&& forall|i: int|
                0 <= i < frame.samples@.len() ==> {
                    let code = bytes[2 * i] as int + 256 * (bytes[2 * i + 1] as int);
                    let sample = #[trigger] frame.samples@[i];
                    code == sample || code == sample + 65536
                }
        }),
        ({
            let input = Input::Text { request_id, text, text_type, is_final };
            let h = input_handled(params, input, state);
            &&& h.state == state
            &&& h.command is Ok && h.command->Ok_0 is Some && h.command->Ok_0->0 is Text
            &&& h.command->Ok_0->0->Text_text == text@
        }),
        ({
            let value = Ok::<ServiceInputEvent, String>(ServiceInputEvent::Prompt { text });
            let h = input_handled(params, Input::ServiceEvent { value }, state);
            &&& h.state == state
            &&& h.command is Ok && h.command->Ok_0 is Some && h.command->Ok_0->0 is Prompt
            &&& h.command->Ok_0->0->Prompt_text == text@
        }),
        ({
            let value = Ok::<ServiceInputEvent, String>(
                ServiceInputEvent::ClientContent { role, text, turn_complete },
            );
            let h = input_handled(params, Input::ServiceEvent { value }, state);
            &&& h.state == state
            &&& h.command is Ok && h.command->Ok_0 is Some && h.command->Ok_0->0 is ClientContent
            &&& h.command->Ok_0->0->role == role
            &&& h.command->Ok_0->0->ClientContent_text == text@
            &&& h.command->Ok_0->0->turn_complete == turn_complete
        }),
        ({
            let value = Err::<ServiceInputEvent, String>(text);
            let h = input_handled(params, Input::ServiceEvent { value }, state);
            h.state == state && h.command == Err::<Option<CommandView>, Seq<char>>(text@)
        }),
{
    law_bytes_of_samples(frame@.samples);
    assert(frame@.samples == frame.samples@);
}

/// The result of a function goes to the model for the call that waits for it, with the name of the
/// function, unless its scheduling is refused. For a call that was canceled nothing is sent, and for
/// one that is not known it is an error. In each case the call is no longer open.
pub proof fn law_results_are_sent(
    params: Params,
    state: StateView,
    call_id: String,
    output: Value,
    scheduling: Option<FunctionResponseScheduling>,
)
    ensures
        ({
            let value = Ok::<ServiceInputEvent, String>(
                ServiceInputEvent::FunctionCallResult { call_id, output, scheduling },
            );
            let h = input_handled(params, Input::ServiceEvent { value }, state);
            let text = json_text(output);
            &&& h.state.transcript == state.transcript
            &&& h.state.calls == state.calls.remove(call_id@)
            &&& !state.calls.contains_key(call_id@) ==> h.command == Err::<
                Option<CommandView>,
                Seq<char>,
            >("functionCallResult references unknown `callId`: `"@ + call_id@ + "`"@)
            &&& state.calls.contains_key(call_id@) ==> match state.calls[call_id@] {
                OpenCall::Canceled => h.command == Ok::<Option<CommandView>, Seq<char>>(None),
                OpenCall::Pending { name } => {
                    let refused = scheduling_error(
                        params.model@,
                        tools_view(params.tools@),
                        name,
                        scheduling,
                    );
                    &&& refused is Some ==> h.command == Err::<Option<CommandView>, Seq<char>>(
                        refused->0,
                    )
                    &&& refused is None ==> {
                        let c = h.command->Ok_0->0;
                        &&& h.command is Ok && h.command->Ok_0 is Some && c is ToolResponse
                        &&& c->id == call_id@
                        &&& c->name == name
                        &&& c->scheduling == scheduling
                        &&& text.len() > 0 && text[0] == '{' ==> c->response == text
                        &&& text.len() == 0 || text[0] != '{' ==> c->response == "{\""@ + "result"@
                            + "\":"@ + text + "}"@
                    }
                },
            }
        }),
{
}

/// The audio of the model is put out in the format of the output, and an interruption clears what
/// waits to be played.
pub proof fn law_audio_is_put_out(
    params: Params,
    state: StateView,
    bytes: Vec<u8>,
    format: AudioFormat,
    outputs: TextOutputs,
    scope: Seq<char>,
)
    ensures
        ({
            let event = ServerEvent::ModelAudio(bytes);
            let h = event_handled(params, event, format, outputs, scope, state);
            &&& h.state == state
            &&& h.result == Ok::<FlowControl, Seq<char>>(FlowControl::Continue)
            &&& h.out.len() == 1
            &&& h.out[0] is Audio
            &&& h.out[0]->Audio_0.format == format
            &&& bytes@.len() - 1 <= 2 * h.out[0]->Audio_0.samples.len() <= bytes@.len()
            &&& forall|i: int|
                0 <= i < h.out[0]->Audio_0.samples.len() ==> {
                    let code = bytes@[2 * i] as int + 256 * (bytes@[2 * i + 1] as int);
                    let sample = #[trigger] h.out[0]->Audio_0.samples[i];
                    sample == code || sample == code - 65536
                }
        }),
        ({
            let h = event_handled(params, ServerEvent::Interrupted, format, outputs, scope, state);
            &&& h.state == state
            &&& h.result == Ok::<FlowControl, Seq<char>>(FlowControl::Continue)
            &&& h.out.len() == 1
            &&& h.out[0] is ClearAudio
        }),
        output_audio_format().channels == 1,
        output_audio_format().sample_rate == 24000,
{
    law_samples_of_bytes(bytes@);
}

/// What the participant said is put out as a final text without a speaker, if it is transcribed and
/// texts are put out.
pub proof fn law_input_transcripts_are_final(
    params: Params,
    state: StateView,
    text: String,
    format: AudioFormat,
    outputs: TextOutputs,
    scope: Seq<char>,
)
    ensures
        ({
            let event = ServerEvent::InputTranscription(text);
            let h = event_handled(params, event, format, outputs, scope, state);
            &&& h.state == state
            &&& h.result == Ok::<FlowControl, Seq<char>>(FlowControl::Continue)
            &&& !(params.input_audio_transcription && outputs.text) ==> h.out.len() == 0
            &&& params.input_audio_transcription && outputs.text ==> {
                &&& h.out.len() == 1
                &&& h.out[0] is Text
                &&& h.out[0]->is_final == true
                &&& h.out[0]->text == text@
                &&& h.out[0]->language is None
                &&& h.out[0]->speaker is None
            }
        }),
{
}

/// What the model says is collected if it is transcribed, and put out as a text of the agent that is
/// not final if such texts are put out. At the end of the turn it is put out as a final one if there
/// is any, then the request is complete, and what was collected is forgotten.
pub proof fn law_output_transcripts(
    params: Params,
    state: StateView,
    text: String,
    format: AudioFormat,
    outputs: TextOutputs,
    scope: Seq<char>,
)
    ensures
        ({
            let event = ServerEvent::OutputTranscription(text);
            let h = event_handled(params, event, format, outputs, scope, state);
            &&& h.state.calls == state.calls
            &&& h.result == Ok::<FlowControl, Seq<char>>(FlowControl::Continue)
            &&& !params.output_audio_transcription ==> h.state == state && h.out.len() == 0
            &&& params.output_audio_transcription ==> h.state.transcript == state.transcript + text@
            &&& params.output_audio_transcription && !outputs.interim ==> h.out.len() == 0
            &&& params.output_audio_transcription && outputs.interim ==> {
                &&& h.out.len() == 1
                &&& h.out[0] is Text
                &&& h.out[0]->is_final == false
                &&& h.out[0]->text == state.transcript + text@
                &&& h.out[0]->language is None
                &&& h.out[0]->speaker == Some(SpeakerView::AiAgent)
            }
        }),
        ({
            let h = event_handled(params, ServerEvent::TurnComplete, format, outputs, scope, state);
            let said = params.output_audio_transcription && outputs.text && state.transcript.len()
                > 0;
            &&& h.state.calls == state.calls
            &&& h.state.transcript.len() == 0
            &&& h.result == Ok::<FlowControl, Seq<char>>(FlowControl::Continue)
            &&& h.out.len() == if said {
                2int
            } else {
                1int
            }
            &&& h.out.last() is RequestCompleted
            &&& h.out.last()->RequestCompleted_request_id is None
            &&& said ==> {
                &&& h.out[0] is Text
                &&& h.out[0]->is_final == true
                &&& h.out[0]->text == state.transcript
                &&& h.out[0]->language is None
                &&& h.out[0]->speaker == Some(SpeakerView::AiAgent)
            }
        }),
{
}

/// A dialog ends when the server closes it, and fails with the error that the server reports. Other
/// events change nothing.
pub proof fn law_how_dialogs_end(
    params: Params,
    state: StateView,
    text: String,
    format: AudioFormat,
    outputs: TextOutputs,
    scope: Seq<char>,
    event: ServerEvent,
)
    ensures
        ({
            let event = ServerEvent::Closed { reason: text };
            let h = event_handled(params, event, format, outputs, scope, state);
            h.state == state && h.out.len() == 0 && h.result == Ok::<FlowControl, Seq<char>>(
                FlowControl::End,
            )
        }),
        ({
            let event = ServerEvent::Error { message: text };
            let h = event_handled(params, event, format, outputs, scope, state);
            h.state == state && h.out.len() == 0 && h.result == Err::<FlowControl, Seq<char>>(
                "Gemini Live error: "@ + text@,
            )
        }),
        event is SetupComplete || event is ModelText || event is GenerationComplete
            || event is SessionResumption || event is GoAway || event is Other ==> {
            let h = event_handled(params, event, format, outputs, scope, state);
            h.state == state && h.out.len() == 0 && h.result == Ok::<FlowControl, Seq<char>>(
                FlowControl::Continue,
            )
        },
{
}

/// Each call of a function is reported on the way of the media, in order, and is open from then on
/// under its name. One that is open already ends the dialog, and no later one is reported.
pub proof fn law_calls_are_reported(
    params: Params,
    state: StateView,
    calls: Vec<ToolCall>,
    more: Vec<ToolCall>,
    call: ToolCall,
    format: AudioFormat,
    outputs: TextOutputs,
    scope: Seq<char>,
)
    requires
        more@ == calls@.push(call),
    ensures
        ({
            let a = event_handled(
                params,
                ServerEvent::ToolCall(calls),
                format,
                outputs,
                scope,
                state,
            );
            let b = event_handled(
                params,
                ServerEvent::ToolCall(more),
                format,
                outputs,
                scope,
                state,
            );
            let open = a.state.calls.contains_key(call.id@);
            &&& calls@.len() == 0 ==> a.state == state && a.out.len() == 0 && a.result == Ok::<
                FlowControl,
                Seq<char>,
            >(FlowControl::Continue)
            &&& a.state.transcript == state.transcript ==> b.state.transcript == state.transcript
            &&& a.result is Err ==> b == a
            &&& a.result is Ok ==> {
                &&& b.out.len() == a.out.len() + 1
                &&& b.out.take(a.out.len() as int) == a.out
                &&& b.out.last() is ServiceEvent
                &&& b.out.last()->path == OutputPath::Media
                &&& b.out.last()->event is FunctionCall
                &&& b.out.last()->event->FunctionCall_call_id == call.id@
                &&& b.out.last()->event->name == call.name@
                &&& b.out.last()->event->arguments == json_text(call.args)
                &&& b.result is Ok <==> !open
                &&& b.result is Ok ==> b.result == a.result
                &&& !open ==> b.state.calls == a.state.calls.insert(
                    call.id@,
                    OpenCall::Pending { name: call.name@ },
                )
                &&& open ==> b.state == a.state && b.result == Err::<FlowControl, Seq<char>>(
                    "tool call `"@ + call.id@ + if a.state.calls[call.id@] is Pending {
                        "` is already pending before register"@
                    } else {
                        "` was already canceled before register"@
                    },
                )
            }
        }),
{
    assert(more@.drop_last() =~= calls@);
    assert(more@.last() == call);
    let a = event_handled(params, ServerEvent::ToolCall(calls), format, outputs, scope, state);
    let b = event_handled(params, ServerEvent::ToolCall(more), format, outputs, scope, state);
    if a.result is Ok {
        assert(b.out.take(a.out.len() as int) =~= a.out);
    }
}

/// Each call that the model cancels is reported on the way of the media, in order, and is canceled
/// from then on. One that is not open, or was canceled before, ends the dialog.
pub proof fn law_cancellations_are_reported(
    params: Params,
    state: StateView,
    ids: Vec<String>,
    more: Vec<String>,
    id: String,
    format: AudioFormat,
    outputs: TextOutputs,
    scope: Seq<char>,
)
    requires
        more@ == ids@.push(id),
    ensures
        ({
            let a = event_handled(
                params,
                ServerEvent::ToolCallCancellation(ids),
                format,
                outputs,
                scope,
                state,
            );
            let b = event_handled(
                params,
                ServerEvent::ToolCallCancellation(more),
                format,
                outputs,
                scope,
                state,
            );
            let pending = a.state.calls.contains_key(id@) && a.state.calls[id@] is Pending;
            &&& ids@.len() == 0 ==> a.state == state && a.out.len() == 0 && a.result == Ok::<
                FlowControl,
                Seq<char>,
            >(FlowControl::Continue)
            &&& a.state.transcript == state.transcript ==> b.state.transcript == state.transcript
            &&& a.result is Err ==> b == a
            &&& a.result is Ok ==> {
                &&& b.out.len() == a.out.len() + 1
                &&& b.out.take(a.out.len() as int) == a.out
                &&& b.out.last() is ServiceEvent
                &&& b.out.last()->path == OutputPath::Media
                &&& b.out.last()->event is ToolCallCancellation
                &&& b.out.last()->event->ToolCallCancellation_call_id == id@
                &&& b.result is Ok <==> pending
                &&& b.result is Ok ==> b.result == a.result
                &&& pending ==> b.state.calls == a.state.calls.insert(id@, OpenCall::Canceled)
                &&& !pending ==> b.state == a.state && b.result == Err::<FlowControl, Seq<char>>(
                    "tool call `"@ + id@ + if a.state.calls.contains_key(id@) {
                        "` was already canceled before cancellation"@
                    } else {
                        "` is not pending when cancellation arrives"@
                    },
                )
            }
        }),
{
    assert(more@.drop_last() =~= ids@);
    assert(more@.last() == id);
    let event = ServerEvent::ToolCallCancellation(ids);
    let a = event_handled(params, event, format, outputs, scope, state);
    let longer = ServerEvent::ToolCallCancellation(more);
    let b = event_handled(params, longer, format, outputs, scope, state);
    if a.result is Ok {
        assert(b.out.take(a.out.len() as int) =~= a.out);
    }
}

/// A call can be noted if none with its id is open, canceled if it is pending, and resolved if it is
/// open: to its name, or to nothing if it was canceled.
pub proof fn law_open_calls(calls: Map<Seq<char>, OpenCall>, id: Seq<char>)
    ensures
        register_error(calls, id) is None <==> !calls.contains_key(id),
        cancel_error(calls, id) is None <==> calls.contains_key(id) && calls[id] is Pending,
        resolve_error(calls, id) is None <==> calls.contains_key(id),
        calls.contains_key(id) ==> match calls[id] {
            OpenCall::Pending { name } => {
                &&& resolved_name(calls, id) == Some(name)
                &&& register_error(calls, id) == Some(
                    "tool call `"@ + id + "` is already pending before register"@,
                )
            },
            OpenCall::Canceled => {
                &&& resolved_name(calls, id) is None
                &&& register_error(calls, id) == Some(
                    "tool call `"@ + id + "` was already canceled before register"@,
                )
                &&& cancel_error(calls, id) == Some(
                    "tool call `"@ + id + "` was already canceled before cancellation"@,
                )
            },
        },
        !calls.contains_key(id) ==> {
            &&& cancel_error(calls, id) == Some(
                "tool call `"@ + id + "` is not pending when cancellation arrives"@,
            )
            &&& resolve_error(calls, id) == Some(
                "functionCallResult references unknown `callId`: `"@ + id + "`"@,
            )
        },
{
}

/// The tokens of a modality are the sum of the counts that are for it, in whatever case it is
/// written.
pub proof fn law_tokens_are_summed(
    list: Vec<ModalityTokenCount>,
    counts: Seq<ModalityTokenCount>,
    count: ModalityTokenCount,
    modality: Seq<char>,
)
    ensures
        counted(None, modality) == 0,
        counted(Some(list), modality) == tokens_of(list@, modality),
        tokens_of(Seq::empty(), modality) == 0,
        tokens_of(counts.push(count), modality) == tokens_of(counts, modality)
            + if same_but_for_case(count.modality@, modality) {
            count.token_count as int
        } else {
            0int
        },
{
    assert(counts.push(count).drop_last() =~= counts);
}

/// The tokens that were used are billed now, under the scope of the dialog: those of the prompt that
/// are cached or those of tools apart from the others. If the prompt has fewer tokens than these
/// parts of it, the dialog ends.
pub proof fn law_usage_is_billed(
    params: Params,
    state: StateView,
    usage: UsageMetadata,
    format: AudioFormat,
    outputs: TextOutputs,
    scope: Seq<char>,
)
    requires
        usage.countable(),
    ensures
        ({
            let h = event_handled(
                params,
                ServerEvent::Usage(usage),
                format,
                outputs,
                scope,
                state,
            );
            let of = |details: Option<Vec<ModalityTokenCount>>, modality: Seq<char>|
                counted(details, modality) as int;
            let prompt = usage.prompt_tokens_details;
            let cached = usage.cache_tokens_details;
            let tools = usage.tool_use_prompt_tokens_details;
            let response = usage.response_tokens_details;
            &&& h.state == state
            &&& if of(prompt, "AUDIO"@) < of(cached, "AUDIO"@) + of(tools, "AUDIO"@) {
                h.out.len() == 0 && h.result == Err::<FlowControl, Seq<char>>(
                    "Invalid Gemini usage: prompt audio tokens less than cached+tool audio tokens"@,
                )
            } else if of(prompt, "TEXT"@) < of(cached, "TEXT"@) + of(tools, "TEXT"@) {
                h.out.len() == 0 && h.result == Err::<FlowControl, Seq<char>>(
                    "Invalid Gemini usage: prompt text tokens less than cached+tool text tokens"@,
                )
            } else {
                let r = h.out[0]->records;
                &&& h.result == Ok::<FlowControl, Seq<char>>(FlowControl::Continue)
                &&& h.out.len() == 1
                &&& h.out[0] is BillingRecords
                &&& h.out[0]->schedule == BillingSchedule::Now
                &&& h.out[0]->scope == Some(scope)
                &&& h.out[0]->BillingRecords_request_id is None
                &&& r.len() == 9
                &&& forall|i: int| 0 <= i < 9 ==> (#[trigger] r[i]).value is Count
                &&& r[0].name == "tokens:input:audio"@
                &&& r[0].value->Count_0 + of(cached, "AUDIO"@) + of(tools, "AUDIO"@) == of(
                    prompt,
                    "AUDIO"@,
                )
                &&& r[1].name == "tokens:input:text"@
                &&& r[1].value->Count_0 + of(cached, "TEXT"@) + of(tools, "TEXT"@) == of(
                    prompt,
                    "TEXT"@,
                )
                &&& r[2].name == "tokens:input:audio:cached"@
                &&& r[2].value->Count_0 == of(cached, "AUDIO"@)
                &&& r[3].name == "tokens:input:text:cached"@
                &&& r[3].value->Count_0 == of(cached, "TEXT"@)
                &&& r[4].name == "tokens:input:audio:tool"@
                &&& r[4].value->Count_0 == of(tools, "AUDIO"@)
                &&& r[5].name == "tokens:input:text:tool"@
                &&& r[5].value->Count_0 == of(tools, "TEXT"@)
                &&& r[6].name == "tokens:output:audio"@
                &&& r[6].value->Count_0 == of(response, "AUDIO"@)
                &&& r[7].name == "tokens:output:text"@
                &&& r[7].value->Count_0 == of(response, "TEXT"@)
                &&& r[8].name == "tokens:thoughts"@
                &&& r[8].value->Count_0 == usage.thoughts_token_count
            }
        }),
{
}

/// The models with rules of their own. The plain one takes no thinking level, any functions, and a
/// scheduling for the results of those that do not block. The one with extended thinking takes all
/// levels but the least one, functions that do not block only, and no scheduling. All other models
/// are not checked.
pub proof fn law_rules_of_models(
    model: Seq<char>,
    level: ThinkingLevel,
    tools: Seq<ToolView>,
    name: Seq<char>,
    scheduling: FunctionResponseScheduling,
)
    ensures
        known_model(model) is Some <==> model == "gemini-3.8-live"@ || model
            == "gemini-3.8-live-extended-thinking"@,
        thinking_error(model, None) is None,
        scheduling_error(model, tools, name, None) is None,
        model == "gemini-3.8-live"@ ==> {
            &&& thinking_error(model, Some(level)) == Some(
                "Model `"@ + model + ("` does not support thinking_level `"@ + level_name(level)
                    + "`; omit thinking_level"@),
            )
            &&& !non_blocking_only(model)
            &&& behavior_of(tools, name) == Some(FunctionBehavior::NonBlocking)
                ==> scheduling_error(model, tools, name, Some(scheduling)) is None
            &&& behavior_of(tools, name) != Some(FunctionBehavior::NonBlocking)
                ==> scheduling_error(model, tools, name, Some(scheduling)) == Some(
                "Function response scheduling is not valid for blocking function `"@ + name + "`"@,
            )
        },
        model == "gemini-3.8-live-extended-thinking"@ ==> {
            &&& level is Minimal ==> thinking_error(model, Some(level)) == Some(
                "Model `"@ + model + "` does not support thinking_level `minimal`"@,
            )
            &&& !(level is Minimal) ==> thinking_error(model, Some(level)) is None
            &&& non_blocking_only(model)
            &&& scheduling_error(model, tools, name, Some(scheduling)) == Some(
                "Model `"@ + model + "` does not support function response scheduling"@,
            )
        },
        known_model(model) is None ==> {
            &&& thinking_error(model, Some(level)) is None
            &&& !non_blocking_only(model)
            &&& scheduling_error(model, tools, name, Some(scheduling)) is None
        },
        level is Minimal ==> level_name(level) == "minimal"@,
        level is Low ==> level_name(level) == "low"@,
        level is Medium ==> level_name(level) == "medium"@,
        level is High ==> level_name(level) == "high"@,
{
    reveal_strlit("gemini-3.8-live");
    reveal_strlit("gemini-3.8-live-extended-thinking");
    assert("gemini-3.8-live"@.len() != "gemini-3.8-live-extended-thinking"@.len());
}

/// Whether a function fits a model that takes only functions that do not block.
pub open spec fn fits(declaration: DeclarationView) -> bool {
    declaration.scheduling is None && declaration.behavior != Some(FunctionBehavior::Blocking)
}

proof fn lemma_declarations_fit(model: Seq<char>, declarations: Seq<DeclarationView>)
    ensures
        declarations_error(model, declarations) is None <==> forall|i: int|
            0 <= i < declarations.len() ==> fits(#[trigger] declarations[i]),
        declarations_error(model, declarations) matches Some(message) ==> message == "Model `"@
            + model + "` does not support function declaration scheduling"@ || message == "Model `"@
            + model + "` requires non-blocking function declarations"@,
    decreases declarations.len(),
{
    if declarations.len() > 0 {
        let rest = declarations.drop_last();
        lemma_declarations_fit(model, rest);
        if forall|i: int| 0 <= i < rest.len() ==> fits(#[trigger] rest[i]) {
            assert forall|i: int| 0 <= i < declarations.len() - 1 implies fits(
                #[trigger] declarations[i],
            ) by {
                assert(fits(rest[i]));
            }
        } else {
            let i = choose|i: int| 0 <= i < rest.len() && !fits(#[trigger] rest[i]);
            assert(!fits(declarations[i]));
        }
        assert(declarations[declarations.len() - 1] == declarations.last());
    }
}

/// Tools fit a model that takes only functions that do not block if no function is said to block or
/// has a scheduling. Such functions are all made not to block, and stay as they are else.
pub proof fn law_fitting_tools(model: Seq<char>, tools: Seq<ToolView>)
    ensures
        tools_error(model, tools) is None <==> forall|i: int, j: int|
            0 <= i < tools.len() && tools[i] is FunctionDeclarations && 0 <= j
                < tools[i]->FunctionDeclarations_0.len() ==> fits(
                #[trigger] tools[i]->FunctionDeclarations_0[j],
            ),
        tools_error(model, tools) matches Some(message) ==> message == "Model `"@ + model
            + "` does not support function declaration scheduling"@ || message == "Model `"@ + model
            + "` requires non-blocking function declarations"@,
    decreases tools.len(),
{
    if tools.len() > 0 {
        let rest = tools.drop_last();
        let n = tools.len() - 1;
        law_fitting_tools(model, rest);
        assert(tools[n] == tools.last());
        if tools_error(model, rest) is None {
            assert forall|i: int, j: int|
                0 <= i < n && tools[i] is FunctionDeclarations && 0 <= j
                    < tools[i]->FunctionDeclarations_0.len() implies fits(
                #[trigger] tools[i]->FunctionDeclarations_0[j],
            ) by {
                assert(fits(rest[i]->FunctionDeclarations_0[j]));
            }
        } else {
            let (i, j) = choose|i: int, j: int|
                0 <= i < rest.len() && rest[i] is FunctionDeclarations && 0 <= j
                    < rest[i]->FunctionDeclarations_0.len() && !fits(
                    #[trigger] rest[i]->FunctionDeclarations_0[j],
                );
            assert(!fits(tools[i]->FunctionDeclarations_0[j]));
        }
        if tools[n] is FunctionDeclarations {
            let d = tools[n]->FunctionDeclarations_0;
            lemma_declarations_fit(model, d);
            if declarations_error(model, d) is None {
                assert forall|j: int| 0 <= j < d.len() implies fits(
                    #[trigger] tools[n]->FunctionDeclarations_0[j],
                ) by {
                    assert(fits(d[j]));
                }
            } else {
                let j = choose|j: int| 0 <= j < d.len() && !fits(#[trigger] d[j]);
                assert(!fits(tools[n]->FunctionDeclarations_0[j]));
            }
        }
    }
}

/// Fitted tools are the same tools, with functions that do not block.
pub proof fn law_fitted_tools(tools: Seq<ToolView>, i: int, j: int)
    requires
        0 <= i < tools.len(),
    ensures
        non_blocking_tools(tools).len() == tools.len(),
        tools[i] is Hosted ==> non_blocking_tools(tools)[i] == tools[i],
        tools[i] is FunctionDeclarations ==> {
            let a = tools[i]->FunctionDeclarations_0;
            let b = non_blocking_tools(tools)[i]->FunctionDeclarations_0;
            &&& non_blocking_tools(tools)[i] is FunctionDeclarations
            &&& b.len() == a.len()
            &&& 0 <= j < a.len() ==> {
                &&& b[j].name == a[j].name
                &&& b[j].description == a[j].description
                &&& b[j].parameters == a[j].parameters
                &&& b[j].scheduling == a[j].scheduling
                &&& b[j].behavior == Some(FunctionBehavior::NonBlocking)
            }
        },
{
}

/// How a function behaves is told by the first tool that declares it and says so, by the first
/// declaration with its name.
pub proof fn law_behavior_of_functions(
    tool: ToolView,
    tools: Seq<ToolView>,
    declaration: DeclarationView,
    declarations: Seq<DeclarationView>,
    name: Seq<char>,
)
    ensures
        behavior_of(Seq::empty(), name) is None,
        named(Seq::empty(), name) is None,
        named(seq![declaration] + declarations, name) == if declaration.name == name {
            Some(declaration)
        } else {
            named(declarations, name)
        },
        tool is Hosted ==> behavior_of(seq![tool] + tools, name) == behavior_of(tools, name),
        tool matches ToolView::FunctionDeclarations(d) ==> {
            let found = named(d, name);
            let told = found is Some && found->0.behavior is Some;
            &&& told ==> behavior_of(seq![tool] + tools, name) == found->0.behavior
            &&& !told ==> behavior_of(seq![tool] + tools, name) == behavior_of(tools, name)
        },
{
    assert((seq![tool] + tools).drop_first() =~= tools);
    assert((seq![declaration] + declarations).drop_first() =~= declarations);
}

/// At most one text output and one interim text output can be asked for.
pub proof fn law_text_outputs(modalities: Seq<OutputModality>, modality: OutputModality)
    ensures
        count_text(Seq::empty()) == 0,
        count_interim(Seq::empty()) == 0,
        first_repeated(Seq::empty()) is None,
        count_text(modalities.push(modality)) == count_text(modalities) + if modality is Text {
            1int
        } else {
            0int
        },
        count_interim(modalities.push(modality)) == count_interim(modalities)
            + if modality is InterimText {
            1int
        } else {
            0int
        },
        first_repeated(modalities) is Some ==> first_repeated(modalities.push(modality))
            == first_repeated(modalities),
        first_repeated(modalities) is None ==> {
            let r = first_repeated(modalities.push(modality));
            &&& modality is Text && count_text(modalities) > 0 ==> r == Some(
                "Expecting at most one text output"@,
            )
            &&& modality is InterimText && count_interim(modalities) > 0 ==> r == Some(
                "Expecting at most one interim text output"@,
            )
            &&& modality is Audio ==> r is None
            &&& modality is Text && count_text(modalities) == 0 ==> r is None
            &&& modality is InterimText && count_interim(modalities) == 0 ==> r is None
        },
{
    assert(modalities.push(modality).drop_last() =~= modalities);
}

/// A session is set up as the parameters ask for. The model answers with audio alone, and the session
/// can be resumed.
pub proof fn law_sessions_are_set_up(params: Params)
    ensures
        ({
            let s = setup_for(params);
            &&& s.model == addressed_model(params)
            &&& s.response_modalities.len() == 1
            &&& s.response_modalities[0] == Modality::Audio
            &&& s.session_resumption
            &&& s.voice is Some <==> params.voice is Some
            &&& params.voice is Some ==> s.voice->0 == params.voice->0@
            &&& s.thinking_level == params.thinking_level
            &&& s.temperature_bits == params.temperature_bits
            &&& s.instructions is Some <==> params.instructions is Some
            &&& params.instructions is Some ==> s.instructions->0 == params.instructions->0@
            &&& s.tools is Some <==> params.tools@.len() > 0
            &&& s.tools is Some && !non_blocking_only(params.model@) ==> s.tools->0 == tools_view(
                params.tools@,
            )
            &&& s.tools is Some && non_blocking_only(params.model@) ==> s.tools->0
                == non_blocking_tools(tools_view(params.tools@))
            &&& s.realtime_input_config is Some <==> params.realtime_input_config is Some
            &&& params.realtime_input_config is Some ==> s.realtime_input_config->0 == json_text(
                params.realtime_input_config->0,
            )
            &&& s.context_window_compression == params.context_window_compression
            &&& s.input_audio_transcription is Some <==> params.input_audio_transcription
            &&& s.input_audio_transcription matches Some((codes, mode)) ==> {
                let asked = params.input_audio_transcription_language_codes@;
                &&& mode == params.input_audio_transcription_mode
                &&& codes.len() == asked.len()
                &&& forall|i: int| 0 <= i < asked.len() ==> #[trigger] codes[i] == asked[i]@
            }
            &&& s.output_audio_transcription is Some <==> params.output_audio_transcription
            &&& s.output_audio_transcription matches Some((codes, mode)) ==> codes.len() == 0
                && mode == params.output_audio_transcription_mode
        }),
{
}

/// The model and the endpoint. With both a project and a location they are those of the Agent
/// Platform, but an endpoint that is given is used in any case.
pub proof fn law_addresses(params: Params)
    ensures
        ({
            let platform = params.project is Some && params.location is Some;
            let model = params.model@;
            &&& platform ==> addressed_model(params) == "projects/"@ + params.project->0@
                + "/locations/"@ + params.location->0@ + "/publishers/google/models/"@ + model
            &&& !platform && "models/"@.is_prefix_of(model) ==> addressed_model(params) == model
            &&& !platform && !"models/"@.is_prefix_of(model) ==> addressed_model(params)
                == "models/"@ + model
            &&& params.endpoint is Some ==> addressed_endpoint(params) == EndpointView::Custom(
                params.endpoint->0@,
            )
            &&& params.endpoint is None && platform ==> addressed_endpoint(params)
                == (EndpointView::VertexAi { location: params.location->0@ })
            &&& params.endpoint is None && !platform ==> addressed_endpoint(params)
                == EndpointView::GeminiApi
        }),
{
}

/// Parameters are refused if transcripts have nowhere to go, if the model does not take the thinking
/// level, or if the tools do not fit it.
pub proof fn law_refused_parameters(params: Params, outputs: TextOutputs)
    ensures
        ({
            let nowhere = !outputs.text && !outputs.interim && (params.input_audio_transcription
                || params.output_audio_transcription);
            let thinking = thinking_error(params.model@, params.thinking_level);
            let tools = tools_error(params.model@, tools_view(params.tools@));
            let error = setup_error(params, outputs);
            &&& nowhere ==> error == Some(
                "Google dialog requires text output modality when transcription is enabled: if inputAudioTranscription or outputAudioTranscription is set, add OutputModality::Text or OutputModality::InterimText to the conversation output modalities, or set both transcription flags to false."@,
            )
            &&& !nowhere && thinking is Some ==> error == thinking
            &&& !nowhere && thinking is None && non_blocking_only(params.model@) ==> error == tools
            &&& !nowhere && thinking is None && !non_blocking_only(params.model@) ==> error is None
        }),
{
}

/// A connection that failed is reported as such. If the setup failed and the voice is not known, the
/// report begins with the voices that are.
pub proof fn law_failed_connections(
    voice: Option<Seq<char>>,
    is_setup_failed: bool,
    cause: Seq<Seq<char>>,
)
    ensures
        ({
            let e = connect_error(voice, is_setup_failed, cause);
            let base = seq!["Connecting to Gemini Live"@] + cause;
            let unknown = is_setup_failed && voice is Some && matching_name(
                voice_names(),
                voice->0,
            ) is None;
            &&& !unknown ==> e == base
            &&& unknown ==> e == seq![
                "Configured voice `"@ + voice->0
                    + "` is not a known Gemini prebuilt voice. Available voices: "@ + joined(
                    voice_names(),
                    ", "@,
                ),
            ] + base
        }),
{
}

/// The voices, in the order of their documentation.
pub proof fn law_documented_voices()
    ensures
        voice_names().len() == 30,
        voice_names()[0] == "Zephyr"@ && voice_names()[1] == "Puck"@ && voice_names()[2]
            == "Charon"@ && voice_names()[3] == "Kore"@ && voice_names()[4] == "Fenrir"@,
        voice_names()[5] == "Leda"@ && voice_names()[6] == "Orus"@ && voice_names()[7] == "Aoede"@
            && voice_names()[8] == "Callirrhoe"@ && voice_names()[9] == "Autonoe"@,
        voice_names()[10] == "Enceladus"@ && voice_names()[11] == "Iapetus"@ && voice_names()[12]
            == "Umbriel"@ && voice_names()[13] == "Algieba"@ && voice_names()[14] == "Despina"@,
        voice_names()[15] == "Erinome"@ && voice_names()[16] == "Algenib"@ && voice_names()[17]
            == "Rasalgethi"@ && voice_names()[18] == "Laomedeia"@ && voice_names()[19]
            == "Achernar"@,
        voice_names()[20] == "Alnilam"@ && voice_names()[21] == "Schedar"@ && voice_names()[22]
            == "Gacrux"@ && voice_names()[23] == "Pulcherrima"@ && voice_names()[24] == "Achird"@,
        voice_names()[25] == "Zubenelgenubi"@ && voice_names()[26] == "Vindemiatrix"@
            && voice_names()[27] == "Sadachbia"@ && voice_names()[28] == "Sadaltager"@
            && voice_names()[29] == "Sulafat"@,
{
}

/// A name is found if and only if one is the same but for case, and then it is the first of them.
pub proof fn law_names_are_found(names: Seq<Seq<char>>, value: Seq<char>, i: int)
    requires
        0 <= i < names.len(),
        same_but_for_case(names[i], value),
        forall|j: int| 0 <= j < i ==> !same_but_for_case(#[trigger] names[j], value),
    ensures
        matching_name(names, value) == Some(names[i]),
    decreases names.len(),
{
    if i > 0 {
        let rest = names.drop_first();
        assert(!same_but_for_case(names[0], value));
        assert(rest[i - 1] == names[i]);
        assert forall|j: int| 0 <= j < i - 1 implies !same_but_for_case(
            #[trigger] rest[j],
            value,
        ) by {
            assert(rest[j] == names[j + 1]);
        }
        law_names_are_found(rest, value, i - 1);
    }
}

/// What an entry of a list of tools means: what it is in the form of the host, else what it is as a
/// function in the form that OpenAI uses, which neither blocks nor does not, else nothing.
pub proof fn law_meanings(raw: RawTool)
    ensures
        raw.native is Some ==> meaning(raw) == Meaning::Native(raw.native->0@),
        raw.native is None && raw.function is Some ==> {
            let f = raw.function->0;
            &&& meaning(raw) is Function
            &&& meaning(raw)->Function_0.name == f.name@
            &&& meaning(raw)->Function_0.description == f.description@
            &&& meaning(raw)->Function_0.parameters == json_text(f.parameters)
            &&& meaning(raw)->Function_0.scheduling is None
            &&& meaning(raw)->Function_0.behavior is None
        },
        raw.native is None && raw.function is None ==> meaning(raw) == Meaning::Unsupported(
            json_text(raw.entry),
        ),
{
}

/// Functions that stand next to each other become one tool, where they stood. The first entry that
/// means nothing is refused.
pub proof fn law_tools_are_grouped(raw: Seq<RawTool>, entry: RawTool)
    ensures
        grouped(Seq::empty()).tools.len() == 0 && grouped(Seq::empty()).pending.len() == 0,
        first_unsupported(Seq::empty()) is None,
        meaning(entry) matches Meaning::Function(declaration) ==> {
            &&& grouped(raw.push(entry)).tools == grouped(raw).tools
            &&& grouped(raw.push(entry)).pending == grouped(raw).pending.push(declaration)
        },
        meaning(entry) matches Meaning::Native(tool) ==> {
            let before = grouped(raw);
            let after = grouped(raw.push(entry));
            &&& after.pending.len() == 0
            &&& before.pending.len() == 0 ==> after.tools == before.tools.push(tool)
            &&& before.pending.len() > 0 ==> after.tools == before.tools.push(
                ToolView::FunctionDeclarations(before.pending),
            ).push(tool)
        },
        grouped(raw).pending.len() == 0 ==> grouped(raw).flushed() == grouped(raw).tools,
        grouped(raw).pending.len() > 0 ==> grouped(raw).flushed() == grouped(raw).tools.push(
            ToolView::FunctionDeclarations(grouped(raw).pending),
        ),
        first_unsupported(seq![entry] + raw) == match meaning(entry) {
            Meaning::Unsupported(text) => Some(text),
            _ => first_unsupported(raw),
        },
{
    assert(raw.push(entry).drop_last() =~= raw);
    assert((seq![entry] + raw).drop_first() =~= raw);
}

/// Commands, tools and reports are shown as they are.
pub proof fn law_commands_are_shown(command: Command, event: ServiceOutputEvent)
    ensures
        command_view(None) is None,
        command_view(Some(command)) == Some(command@),
        match command {
            Command::Audio { bytes, sample_rate } => command@ is Audio && command@->bytes == bytes@
                && command@->sample_rate == sample_rate,
            Command::Text { text } => command@ is Text && command@->Text_text == text@,
            Command::Prompt { text } => command@ is Prompt && command@->Prompt_text == text@,
            Command::ClientContent { role, text, turn_complete } => command@ is ClientContent
                && command@->role == role && command@->ClientContent_text == text@
                && command@->turn_complete == turn_complete,
            Command::ToolResponse { id, name, response, scheduling } => command@ is ToolResponse
                && command@->id == id@ && command@->name == name@ && command@->response
                == json_text(response) && command@->scheduling == scheduling,
            Command::AudioStreamEnd => command@ is AudioStreamEnd,
        },
        match event {
            ServiceOutputEvent::FunctionCall { call_id, name, arguments } => event@ is FunctionCall
                && event@->FunctionCall_call_id == call_id@ && event@->name == name@
                && event@->arguments == json_text(arguments),
            ServiceOutputEvent::ToolCallCancellation { call_id } => event@ is ToolCallCancellation
                && event@->ToolCallCancellation_call_id == call_id@,
            ServiceOutputEvent::TurnComplete => event@ is TurnComplete,
            ServiceOutputEvent::InteractionInProgress => event@ is InteractionInProgress,
        },
{
}

/// Tools, settings and the state of a dialog are shown as they are.
pub proof fn law_tools_are_shown(
    tool: Tool,
    tools: Seq<Tool>,
    declaration: FunctionDeclaration,
    config: SetupConfig,
    endpoint: Endpoint,
    entry: ToolCallEntry,
    state: ConversationState,
)
    ensures
        declaration@.name == declaration.name@,
        declaration@.description == declaration.description@,
        declaration@.parameters == json_text(declaration.parameters),
        declaration@.scheduling == declaration.scheduling,
        declaration@.behavior == declaration.behavior,
        tool matches Tool::Hosted(value) ==> tool@ == ToolView::Hosted(json_text(value)),
        tool matches Tool::FunctionDeclarations(list) ==> {
            &&& tool@ is FunctionDeclarations
            &&& tool@->FunctionDeclarations_0.len() == list@.len()
            &&& forall|i: int|
                0 <= i < list@.len() ==> #[trigger] tool@->FunctionDeclarations_0[i] == list@[i]@
        },
        tools_view(tools).len() == tools.len(),
        forall|i: int| 0 <= i < tools.len() ==> #[trigger] tools_view(tools)[i] == tools[i]@,
        config@.model == config.model@,
        config@.response_modalities == config.response_modalities@,
        config@.session_resumption == config.session_resumption,
        config@.voice is Some <==> config.voice is Some,
        config.voice is Some ==> config@.voice->0 == config.voice->0@,
        config@.thinking_level == config.thinking_level,
        config@.temperature_bits == config.temperature_bits,
        config@.instructions is Some <==> config.instructions is Some,
        config.instructions is Some ==> config@.instructions->0 == config.instructions->0@,
        config@.tools is Some <==> config.tools is Some,
        config.tools is Some ==> config@.tools->0 == tools_view(config.tools->0@),
        config@.realtime_input_config is Some <==> config.realtime_input_config is Some,
        config.realtime_input_config is Some ==> config@.realtime_input_config->0 == json_text(
            config.realtime_input_config->0,
        ),
        config@.context_window_compression == config.context_window_compression,
        config@.input_audio_transcription is Some <==> config.input_audio_transcription is Some,
        config.input_audio_transcription matches Some(t) ==> {
            let (codes, mode) = config@.input_audio_transcription->0;
            &&& mode == t.mode
            &&& codes.len() == t.language_codes@.len()
            &&& forall|i: int|
                0 <= i < codes.len() ==> #[trigger] codes[i] == t.language_codes@[i]@
        },
        config@.output_audio_transcription is Some <==> config.output_audio_transcription is Some,
        config.output_audio_transcription matches Some(t) ==> {
            let (codes, mode) = config@.output_audio_transcription->0;
            mode == t.mode && codes.len() == t.language_codes@.len()
        },
        match endpoint {
            Endpoint::GeminiApi => endpoint@ is GeminiApi,
            Endpoint::VertexAi { location } => endpoint@ == (EndpointView::VertexAi {
                location: location@,
            }),
            Endpoint::Custom(url) => endpoint@ == EndpointView::Custom(url@),
        },
        entry is Canceled <==> entry@ is Canceled,
        entry matches ToolCallEntry::Pending { name } ==> entry@ == (OpenCall::Pending {
            name: name@,
        }),
        state@.transcript == state.output_transcription_buffer@,
        state@.calls == state.tool_calls@,
{
}

/// No input goes unanswered but the result of a function call that was canceled: texts, prompts and
/// audio are always sent.
pub proof fn law_answered_inputs(
    client: Client,
    input: Input<Result<ServiceInputEvent, String>>,
    state: &mut ConversationState,
    r: Result<Option<Command>, Error>,
)
    requires
        call_ensures(Client::process_input, (&client, input, state), r),
    ensures
        input matches Input::Text { text, .. } ==> r is Ok && r->Ok_0 is Some && r->Ok_0->0 is Text
            && r->Ok_0->0->Text_text@ == text@,
        input matches Input::Audio { frame } ==> {
            &&& r is Ok && r->Ok_0 is Some && r->Ok_0->0 is Audio
            &&& r->Ok_0->0->sample_rate == frame.format.sample_rate
            &&& r->Ok_0->0->bytes@.len() == 2 * frame.samples@.len()
        },
        input matches Input::ServiceEvent { value: Ok(ServiceInputEvent::Prompt { text }) } ==> r
            is Ok && r->Ok_0 is Some && r->Ok_0->0 is Prompt && r->Ok_0->0->Prompt_text@ == text@,
        r is Ok && r->Ok_0 is None ==> (input matches Input::ServiceEvent {
            value: Ok(ServiceInputEvent::FunctionCallResult { call_id, .. }),
        } && old(state)@.calls.contains_key(call_id@) && old(state)@.calls[call_id@] is Canceled),
        r matches Ok(Some(Command::ToolResponse { id, name, .. })) ==> (input matches
            Input::ServiceEvent {
            value: Ok(ServiceInputEvent::FunctionCallResult { call_id, .. }),
        } && call_id@ == id@ && old(state)@.calls.contains_key(call_id@) && old(state)@.calls[call_id@]
            == (OpenCall::Pending { name: name@ })),
{
    if let Input::Audio { frame } = input {
        law_bytes_of_samples(frame.samples@);
    }
    if let Input::ServiceEvent {
        value: Ok(ServiceInputEvent::FunctionCallResult { call_id, output, scheduling }),
    } = input {
        law_results_are_sent(client.params, old(state)@, call_id, output, scheduling);
    }
}

/// A dialog ends when its input ends, after the server was told that the audio ended, and when the
/// stream of the server ends.
pub proof fn law_ended_dialogs(
    client: Client,
    event: DialogEvent,
    format: AudioFormat,
    outputs: TextOutputs,
    out: &mut Vec<Emission<ServiceOutputEvent>>,
    state: &mut ConversationState,
    r: Result<Step, Error>,
)
    requires
        call_ensures(Client::dialog, (&client, event, format, outputs, out, state), r),
    ensures
        event matches DialogEvent::Input(None) ==> r is Ok && r->Ok_0.flow == FlowControl::End
            && r->Ok_0.command is Some && r->Ok_0.command->0 is AudioStreamEnd && final(out)@ == old(
            out,
        )@,
        event matches DialogEvent::Server(None) ==> r is Ok && r->Ok_0.flow == FlowControl::End
            && r->Ok_0.command is None && final(out)@ == old(out)@,
        event matches DialogEvent::Input(Some(Input::Text { text, .. })) ==> r is Ok && r->Ok_0.flow
            == FlowControl::Continue && r->Ok_0.command is Some && r->Ok_0.command->0 is Text
            && r->Ok_0.command->0->Text_text@ == text@ && final(out)@ == old(out)@,
        event matches DialogEvent::Server(Some(ServerEvent::Interrupted)) ==> {
            let o = emissions(final(out)@);
            &&& r is Ok && r->Ok_0.flow == FlowControl::Continue && r->Ok_0.command is None
            &&& o.len() == old(out)@.len() + 1
            &&& o.last() is ClearAudio
        },
        event matches DialogEvent::Server(Some(ServerEvent::Usage(usage))) ==> (usage.countable()
            && r is Ok ==> {
            let o = emissions(final(out)@);
            &&& o.len() == old(out)@.len() + 1
            &&& o.last() is BillingRecords
            &&& o.last()->scope == Some(client.params.model@)
        }),
{
    assert(emissions(old(out)@).len() == old(out)@.len());
}

/// A dialog puts out one channel of 24000 samples per second, and texts as they are asked for.
pub proof fn law_begun_dialogs(
    modalities: Vec<OutputModality>,
    format: AudioFormat,
    r: Result<TextOutputs, Error>,
)
    requires
        call_ensures(GoogleDialog::conversation, (&GoogleDialog, &modalities, format), r),
    ensures
        r matches Ok(outputs) ==> {
            &&& format.channels == 1 && format.sample_rate == 24000
            &&& outputs.text <==> count_text(modalities@) > 0
            &&& outputs.interim <==> count_interim(modalities@) > 0
            &&& first_repeated(modalities@) is None
        },
        format.channels == 1 && format.sample_rate == 24000 && first_repeated(modalities@) is None
            ==> r is Ok,
        first_repeated(modalities@) matches Some(message) ==> r is Err && r->Err_0@ == seq![message],
        r is Err && first_repeated(modalities@) is None ==> r->Err_0@ == seq![
            "Audio output has the wrong format "@ + format_text(format) + ", expected: "@
                + format_text(AudioFormat { channels: 1, sample_rate: 24000 }),
        ],
{
}

/// A connection is made with the key, to the endpoint and with the settings of the parameters.
pub proof fn law_connections(
    client: Client,
    outputs: TextOutputs,
    r: Result<SessionConfig, Error>,
)
    requires
        call_ensures(Client::connect_config, (&client, outputs), r),
    ensures
        r is Ok <==> setup_error(client.params, outputs) is None,
        r matches Ok(config) ==> {
            &&& config.setup@.model == addressed_model(client.params)
            &&& config.setup@.response_modalities.len() == 1
            &&& config.setup@.response_modalities[0] == Modality::Audio
            &&& config.setup@.session_resumption
            &&& config.endpoint@ == addressed_endpoint(client.params)
            &&& config.api_key is Some <==> client.params.api_key is Some
            &&& client.params.api_key is Some ==> config.api_key->0@ == client.params.api_key->0@
        },
{
    law_sessions_are_set_up(client.params);
}

/// What is reported if a command cannot be sent.
pub proof fn law_failures_to_send(command: Command, r: &'static str)
    requires
        call_ensures(Command::failure_context, (&command,), r),
    ensures
        command is Audio ==> r@ == "Sending audio to Gemini Live"@,
        command is Text ==> r@ == "Sending text to Gemini Live"@,
        command is Prompt ==> r@ == "Sending prompt"@,
        command is ClientContent ==> r@ == "Sending client content"@,
        command is ToolResponse ==> r@ == "Sending tool response"@,
        command is AudioStreamEnd ==> r@ == "Ending Gemini audio stream"@,
{
}

/// A call is open from when it is registered to when it is resolved. It can be registered once, be
/// canceled once, and its result is asked for by its name unless it was canceled. No other call is
/// touched.
pub proof fn law_tracked_calls(
    a: &mut ToolCallTracker,
    b: &mut ToolCallTracker,
    c: &mut ToolCallTracker,
    id: String,
    name: String,
    id_text: &str,
    registered: Result<(), Error>,
    canceled: Result<(), Error>,
    resolved: Result<Option<String>, Error>,
)
    requires
        call_ensures(ToolCallTracker::register, (a, id, name), registered),
        call_ensures(ToolCallTracker::cancel, (b, id), canceled),
        call_ensures(ToolCallTracker::resolve, (c, id_text), resolved),
    ensures
        registered is Ok <==> !old(a)@.contains_key(id@),
        registered is Ok ==> final(a)@ == old(a)@.insert(id@, OpenCall::Pending { name: name@ }),
        registered is Err ==> final(a)@ == old(a)@,
        canceled is Ok <==> old(b)@.contains_key(id@) && old(b)@[id@] is Pending,
        canceled is Ok ==> final(b)@ == old(b)@.insert(id@, OpenCall::Canceled),
        canceled is Err ==> final(b)@ == old(b)@,
        resolved is Ok <==> old(c)@.contains_key(id_text@),
        resolved matches Ok(Some(found)) ==> old(c)@[id_text@] == (OpenCall::Pending {
            name: found@,
        }),
        resolved matches Ok(None) ==> old(c)@[id_text@] is Canceled,
        resolved is Err ==> resolved->Err_0@ == seq![
            "functionCallResult references unknown `callId`: `"@ + id_text@ + "`"@,
        ],
        final(c)@ == old(c)@.remove(id_text@),
{
    law_open_calls(old(a)@, id@);
    law_open_calls(old(b)@, id@);
    law_open_calls(old(c)@, id_text@);
}

/// An event of the server does one thing: audio and texts are put out as they are, in the order in
/// which they come, an interruption clears the audio, the end of a turn completes the request, and a
/// close ends the dialog.
pub proof fn law_server_events(
    client: Client,
    event: ServerEvent,
    format: AudioFormat,
    outputs: TextOutputs,
    out: &mut Vec<Emission<ServiceOutputEvent>>,
    scope: &str,
    state: &mut ConversationState,
    r: Result<FlowControl, Error>,
)
    requires
        call_ensures(
            Client::process_event,
            (&client, event, format, outputs, out, scope, state),
            r,
        ),
    ensures
        ({
            let before = emissions(old(out)@);
            let o = emissions(final(out)@);
            let n = old(out)@.len() as int;
            let said = old(state)@.transcript;
            &&& n <= o.len() && o.take(n) == before
            &&& r is Ok && r->Ok_0 is End <==> event is Closed
            &&& event is ModelAudio ==> r is Ok && o.len() == n + 1 && o[n] is Audio
                && o[n]->Audio_0.format == format
            &&& event is Interrupted ==> r is Ok && o.len() == n + 1 && o[n] is ClearAudio
                && final(state)@ == old(state)@
            &&& event matches ServerEvent::InputTranscription(text) ==> {
                let shown = client.params.input_audio_transcription && outputs.text;
                &&& r is Ok && final(state)@ == old(state)@
                &&& shown ==> o.len() == n + 1 && o[n] is Text && o[n]->is_final && o[n]->text
                    == text@ && o[n]->speaker is None
                &&& !shown ==> o == before
            }
            &&& event matches ServerEvent::OutputTranscription(text) ==> {
                let heard = client.params.output_audio_transcription;
                &&& r is Ok
                &&& !heard ==> o == before && final(state)@ == old(state)@
                &&& heard ==> final(state)@.transcript == said + text@
                &&& heard && !outputs.interim ==> o == before
                &&& heard && outputs.interim ==> o.len() == n + 1 && o[n] is Text && !o[n]->is_final
                    && o[n]->text == said + text@ && o[n]->speaker == Some(SpeakerView::AiAgent)
            }
            &&& event is TurnComplete ==> {
                let shown = client.params.output_audio_transcription && outputs.text && said.len()
                    > 0;
                &&& r is Ok
                &&& final(state)@.transcript.len() == 0
                &&& o.last() is RequestCompleted
                &&& o.last()->RequestCompleted_request_id is None
                &&& !shown ==> o.len() == n + 1
                &&& shown ==> o.len() == n + 2 && o[n] is Text && o[n]->is_final && o[n]->text
                    == said && o[n]->speaker == Some(SpeakerView::AiAgent)
            }
            &&& event matches ServerEvent::Error { message } ==> o == before && r is Err && r->Err_0@
                == seq!["Gemini Live error: "@ + message@]
            &&& event is Closed || event is SetupComplete || event is ModelText
                || event is GenerationComplete || event is SessionResumption || event is GoAway
                || event is Other ==> r is Ok && o == before && final(state)@ == old(state)@
        }),
{
    let before = emissions(old(out)@);
    let h = event_handled(client.params, event, format, outputs, scope@, old(state)@);
    assert(before.len() == old(out)@.len());
    assert((before + h.out).take(before.len() as int) =~= before);
    assert(h.out.len() == 0 ==> before + h.out =~= before);
    if let ServerEvent::ToolCall(calls) = event {
        lemma_flow_of_calls(old(state)@, calls@, Seq::empty());
    }
    if let ServerEvent::ToolCallCancellation(ids) = event {
        lemma_flow_of_calls(old(state)@, Seq::empty(), ids@);
    }
}

/// A dialog goes on after calls and cancellations that are in order.
proof fn lemma_flow_of_calls(state: StateView, calls: Seq<ToolCall>, ids: Seq<String>)
    ensures
        calls_made(state, calls).result is Ok ==> calls_made(state, calls).result->Ok_0 is Continue,
        calls_canceled(state, ids).result is Ok ==> calls_canceled(state, ids).result->Ok_0
            is Continue,
    decreases calls.len() + ids.len(),
{
    if calls.len() > 0 {
        lemma_flow_of_calls(state, calls.drop_last(), Seq::empty());
    }
    if ids.len() > 0 {
        lemma_flow_of_calls(state, Seq::empty(), ids.drop_last());
    }
}

} // verus!

//! What holds of a dialog, event by event.

use vstd::prelude::*;

use serde_json::Value;

use crate::audio::law_bytes_of_samples;
use crate::audio::law_samples_of_bytes;
use crate::audio::AudioFormat;
use crate::audio::AudioFrame;
use crate::base64_codec::base64_bytes;
use crate::base64_codec::base64_error;
use crate::base64_codec::base64_text;
use crate::base64_codec::is_base64;
use crate::base64_codec::law_base64_round_trip;
use crate::error::Error;
use crate::input::FlowControl;
use crate::input::FlowView;
use crate::input::Input;
use crate::input::SocketMessage;
use crate::json::json_read;
use crate::json::json_text;
use crate::openai_dialog::client::call_reports;
use crate::openai_dialog::client::finished_items;
use crate::openai_dialog::client::function_call;
use crate::openai_dialog::client::handled;
use crate::openai_dialog::client::Client;
use crate::openai_dialog::client::ClientState;
use crate::openai_dialog::dialog::event_handled;
use crate::openai_dialog::dialog::input_handled;
use crate::openai_dialog::dialog::DialogEvent;
use crate::openai_dialog::dialog::DialogPlan;
use crate::openai_dialog::dialog::OpenAIDialog;
use crate::openai_dialog::host::inferred;
use crate::openai_dialog::host::resolved;
use crate::openai_dialog::host::url_protocol;
use crate::openai_dialog::host::Protocol;
use crate::openai_dialog::prompts::is_busy_error;
use crate::openai_dialog::prompts::PromptCoordinator;
use crate::openai_dialog::prompts::Prompts;
use crate::openai_dialog::prompts::ResponseState;
use crate::openai_dialog::session::asks_for_anything;
use crate::openai_dialog::session::dialog_format;
use crate::openai_dialog::session::first_message_error;
use crate::openai_dialog::session::format_text;
use crate::openai_dialog::session::initial_settings;
use crate::openai_dialog::session::wrong_format;
use crate::openai_dialog::transcription::InputPart;
use crate::openai_dialog::transcription::OutputPart;
use crate::openai_dialog::transcription::TranscriptionSettings;
use crate::openai_dialog::types::sent_view;
use crate::openai_dialog::types::ClientEvent;
use crate::openai_dialog::types::Item;
use crate::openai_dialog::types::ItemType;
use crate::openai_dialog::types::OutputModality;
use crate::openai_dialog::types::Params;
use crate::openai_dialog::types::Response;
use crate::openai_dialog::types::ServerError;
use crate::openai_dialog::types::ServerEvent;
use crate::openai_dialog::types::ServiceInputEvent;
use crate::openai_dialog::types::ServiceOutputEvent;
use crate::openai_dialog::types::Session;
use crate::openai_dialog::types::SessionAudioFormat;
use crate::openai_dialog::types::Status;
use crate::output::emissions;
use crate::output::BillingSchedule;
use crate::output::BillingValue;
use crate::output::Emission;
use crate::output::OutputPath;
use crate::output::SpeakerView;
use crate::text::decimal;
use crate::text::joined;
use crate::urls::url_host;
use crate::urls::url_path;
use crate::urls::url_read;
use crate::urls::url_scheme;
use crate::urls::UrlView;

verus! {

/// What the participant said is put out as it is transcribed: each piece with all that came before
/// it, as a text that is not final, without a speaker.
pub proof fn law_input_pieces_are_put_out(
    client: ClientState,
    item_id: String,
    content_index: u32,
    delta: String,
    raw: Seq<char>,
    format: AudioFormat,
    scope: Seq<char>,
    transcription: TranscriptionSettings,
    event_id: Seq<char>,
)
    ensures
        ({
            let event = ServerEvent::ConversationItemInputAudioTranscriptionDelta {
                item_id,
                content_index,
                delta,
            };
            let h = handled(client, raw, event, format, scope, transcription, event_id);
            let part = InputPart { item: item_id@, content: content_index };
            let known = client.transcripts.input.contains_key(part);
            &&& h.result == Ok::<FlowView, Seq<Seq<char>>>(FlowView::Continue)
            &&& h.sent.len() == 0
            &&& h.client.prompts == client.prompts
            &&& !transcription.input ==> h.out.len() == 0 && h.client == client
            &&& transcription.input ==> {
                &&& h.out.len() == 1
                &&& h.out[0] is Text
                &&& h.out[0]->is_final == false
                &&& known ==> h.out[0]->text == client.transcripts.input[part] + delta@
                &&& !known ==> h.out[0]->text == delta@
                &&& h.out[0]->language is None
                &&& h.out[0]->speaker is None
                &&& h.client.transcripts.input.contains_key(part)
                &&& h.client.transcripts.input[part] == h.out[0]->text
                &&& h.client.transcripts.input.remove(part) == client.transcripts.input.remove(part)
                &&& h.client.transcripts.output == client.transcripts.output
            }
        }),
{
    let part = InputPart { item: item_id@, content: content_index };
    let text = crate::openai_dialog::transcription::so_far(client.transcripts.input, part) + delta@;
    if !client.transcripts.input.contains_key(part) {
        assert(text =~= delta@);
    }
    assert(client.transcripts.input.insert(part, text).remove(part)
        =~= client.transcripts.input.remove(part));
}

/// When what the participant said is transcribed, the whole transcript is put out once, as a final
/// text without a speaker: the one that the server tells, or else all pieces of it. Nothing is put
/// out of an empty one. After that its pieces are forgotten.
pub proof fn law_input_transcripts_are_final(
    client: ClientState,
    item_id: String,
    content_index: u32,
    transcript: String,
    raw: Seq<char>,
    format: AudioFormat,
    scope: Seq<char>,
    transcription: TranscriptionSettings,
    event_id: Seq<char>,
)
    ensures
        ({
            let event = ServerEvent::ConversationItemInputAudioTranscriptionCompleted {
                item_id,
                content_index,
                transcript,
            };
            let h = handled(client, raw, event, format, scope, transcription, event_id);
            let part = InputPart { item: item_id@, content: content_index };
            let pieces = client.transcripts.input.contains_key(part)
                && client.transcripts.input[part].len() > 0;
            &&& h.result == Ok::<FlowView, Seq<Seq<char>>>(FlowView::Continue)
            &&& h.sent.len() == 0
            &&& h.client.prompts == client.prompts
            &&& !transcription.input ==> h.out.len() == 0 && h.client == client
            &&& transcription.input ==> !h.client.transcripts.input.contains_key(part)
            &&& transcription.input ==> h.client.transcripts.input
                == client.transcripts.input.remove(part)
            &&& transcription.input ==> h.client.transcripts.output == client.transcripts.output
            &&& transcription.input && transcript@.len() == 0 && !pieces ==> h.out.len() == 0
            &&& transcription.input && (transcript@.len() > 0 || pieces) ==> {
                &&& h.out.len() == 1
                &&& h.out[0] is Text
                &&& h.out[0]->is_final == true
                &&& transcript@.len() > 0 ==> h.out[0]->text == transcript@
                &&& transcript@.len() == 0 ==> h.out[0]->text == client.transcripts.input[part]
                &&& h.out[0]->language is None
                &&& h.out[0]->speaker is None
            }
        }),
{
}

/// What the model says is put out as it is transcribed: each piece with all that came before it, as
/// a text of the agent that is not final.
pub proof fn law_output_pieces_are_put_out(
    client: ClientState,
    response_id: String,
    item_id: String,
    output_index: u32,
    content_index: u32,
    delta: String,
    raw: Seq<char>,
    format: AudioFormat,
    scope: Seq<char>,
    transcription: TranscriptionSettings,
    event_id: Seq<char>,
)
    ensures
        ({
            let event = ServerEvent::ResponseOutputAudioTranscriptDelta {
                response_id,
                item_id,
                output_index,
                content_index,
                delta,
            };
            let h = handled(client, raw, event, format, scope, transcription, event_id);
            let part = OutputPart { item: item_id@, output: output_index, content: content_index };
            let known = client.transcripts.output.contains_key(part);
            &&& h.result == Ok::<FlowView, Seq<Seq<char>>>(FlowView::Continue)
            &&& h.sent.len() == 0
            &&& h.client.prompts == client.prompts
            &&& !transcription.output ==> h.out.len() == 0 && h.client == client
            &&& transcription.output ==> {
                &&& h.out.len() == 1
                &&& h.out[0] is Text
                &&& h.out[0]->is_final == false
                &&& known ==> h.out[0]->text == client.transcripts.output[part] + delta@
                &&& !known ==> h.out[0]->text == delta@
                &&& h.out[0]->language is None
                &&& h.out[0]->speaker == Some(SpeakerView::AiAgent)
                &&& h.client.transcripts.output.contains_key(part)
                &&& h.client.transcripts.output[part] == h.out[0]->text
                &&& h.client.transcripts.output.remove(part) == client.transcripts.output.remove(
                    part,
                )
                &&& h.client.transcripts.input == client.transcripts.input
                &&& h.client.transcripts.responses == client.transcripts.responses.insert(
                    response_id@,
                )
            }
        }),
{
    let part = OutputPart { item: item_id@, output: output_index, content: content_index };
    let text = crate::openai_dialog::transcription::so_far(client.transcripts.output, part)
        + delta@;
    if !client.transcripts.output.contains_key(part) {
        assert(text =~= delta@);
    }
    assert(client.transcripts.output.insert(part, text).remove(part)
        =~= client.transcripts.output.remove(part));
}

/// When what the model said is transcribed, the whole transcript is put out once, as a final text of
/// the agent. Nothing is put out of an empty one. After that its pieces are forgotten.
pub proof fn law_output_transcripts_are_final(
    client: ClientState,
    response_id: String,
    item_id: String,
    output_index: u32,
    content_index: u32,
    transcript: String,
    raw: Seq<char>,
    format: AudioFormat,
    scope: Seq<char>,
    transcription: TranscriptionSettings,
    event_id: Seq<char>,
)
    ensures
        ({
            let event = ServerEvent::ResponseOutputAudioTranscriptDone {
                response_id,
                item_id,
                output_index,
                content_index,
                transcript,
            };
            let h = handled(client, raw, event, format, scope, transcription, event_id);
            let part = OutputPart { item: item_id@, output: output_index, content: content_index };
            let pieces = client.transcripts.output.contains_key(part)
                && client.transcripts.output[part].len() > 0;
            &&& h.result == Ok::<FlowView, Seq<Seq<char>>>(FlowView::Continue)
            &&& h.sent.len() == 0
            &&& h.client.prompts == client.prompts
            &&& !transcription.output ==> h.out.len() == 0 && h.client == client
            &&& transcription.output ==> h.client.transcripts.output
                == client.transcripts.output.remove(part)
            &&& transcription.output ==> h.client.transcripts.input == client.transcripts.input
            &&& transcription.output ==> h.client.transcripts.responses
                == client.transcripts.responses.insert(response_id@)
            &&& transcription.output && transcript@.len() == 0 && !pieces ==> h.out.len() == 0
            &&& transcription.output && (transcript@.len() > 0 || pieces) ==> {
                &&& h.out.len() == 1
                &&& h.out[0] is Text
                &&& h.out[0]->is_final == true
                &&& transcript@.len() > 0 ==> h.out[0]->text == transcript@
                &&& transcript@.len() == 0 ==> h.out[0]->text == client.transcripts.output[part]
                &&& h.out[0]->language is None
                &&& h.out[0]->speaker == Some(SpeakerView::AiAgent)
            }
        }),
{
}

/// The audio of the model is put out as it comes, in the format of the output: two bytes for each
/// sample, the low one first. What is no base64 text ends the dialog.
pub proof fn law_audio_is_put_out(
    client: ClientState,
    delta: String,
    bytes: Seq<u8>,
    raw: Seq<char>,
    format: AudioFormat,
    scope: Seq<char>,
    transcription: TranscriptionSettings,
    event_id: Seq<char>,
)
    ensures
        ({
            let event = ServerEvent::ResponseOutputAudioDelta { delta };
            let h = handled(client, raw, event, format, scope, transcription, event_id);
            &&& h.client == client
            &&& h.sent.len() == 0
            &&& delta@ == base64_text(bytes) ==> {
                &&& h.result == Ok::<FlowView, Seq<Seq<char>>>(FlowView::Continue)
                &&& h.out.len() == 1
                &&& h.out[0] is Audio
                &&& h.out[0]->Audio_0.format == format
                &&& bytes.len() - 1 <= 2 * h.out[0]->Audio_0.samples.len() <= bytes.len()
                &&& forall|i: int|
                    0 <= i < h.out[0]->Audio_0.samples.len() ==> {
                        let code = bytes[2 * i] as int + 256 * (bytes[2 * i + 1] as int);
                        let sample = #[trigger] h.out[0]->Audio_0.samples[i];
                        sample == code || sample == code - 65536
                    }
            }
            &&& !is_base64(delta@) ==> h.out.len() == 0 && h.result == Err::<
                FlowView,
                Seq<Seq<char>>,
            >(seq![base64_error(delta@)])
        }),
{
    law_base64_round_trip(bytes);
    law_samples_of_bytes(bytes);
}

/// When the participant begins to speak, the audio that waits to be played is cleared.
pub proof fn law_speech_clears_audio(
    client: ClientState,
    raw: Seq<char>,
    format: AudioFormat,
    scope: Seq<char>,
    transcription: TranscriptionSettings,
    event_id: Seq<char>,
)
    ensures
        ({
            let event = ServerEvent::InputAudioBufferSpeechStarted;
            let h = handled(client, raw, event, format, scope, transcription, event_id);
            &&& h.client == client
            &&& h.sent.len() == 0
            &&& h.out.len() == 1
            &&& h.out[0] is ClearAudio
            &&& h.result == Ok::<FlowView, Seq<Seq<char>>>(FlowView::Continue)
        }),
{
}

/// The function calls of a response are reported in order, on the way of the media: those that are
/// complete in a completed response, have a name and an id, and whose arguments are JSON if there are
/// any.
pub proof fn law_calls_are_reported(status: Status, items: Seq<Item>, item: Item)
    ensures
        ({
            let before = call_reports(status, items);
            let after = call_reports(status, items.push(item));
            let complete = status == Status::Completed && item.item_type == Some(
                ItemType::FunctionCall,
            ) && item.status == Some(Status::Completed);
            let readable = item.arguments is None || json_read(item.arguments->0@) is Ok;
            &&& call_reports(status, Seq::empty()).len() == 0
            &&& !(complete && item.name is Some && item.call_id is Some && readable) ==> after
                == before
            &&& complete && item.name is Some && item.call_id is Some && readable ==> {
                &&& after.len() == before.len() + 1
                &&& after.take(before.len() as int) == before
                &&& after.last() is ServiceEvent
                &&& after.last()->path == OutputPath::Media
                &&& after.last()->event is FunctionCall
                &&& after.last()->event->call_id == item.call_id->0@
                &&& after.last()->event->name == item.name->0@
                &&& item.arguments is None <==> after.last()->event->arguments is None
                &&& item.arguments is Some ==> Ok::<Seq<char>, Seq<char>>(
                    after.last()->event->arguments->0,
                ) == json_read(item.arguments->0@)
            }
        }),
{
    assert(items.push(item).drop_last() =~= items);
    let after = call_reports(status, items.push(item));
    let before = call_reports(status, items);
    if after.len() > before.len() {
        assert(after.take(before.len() as int) =~= before);
    }
}

/// The items of a response that are done with are those with an id, but for calls that are complete
/// and cannot be reported.
pub proof fn law_items_are_done_with(status: Status, items: Seq<Item>, item: Item, id: Seq<char>)
    ensures
        ({
            let complete = status == Status::Completed && item.item_type == Some(
                ItemType::FunctionCall,
            ) && item.status == Some(Status::Completed);
            let readable = item.arguments is None || json_read(item.arguments->0@) is Ok;
            let broken = complete && !(item.name is Some && item.call_id is Some && readable);
            &&& !finished_items(status, Seq::empty()).contains(id)
            &&& finished_items(status, items.push(item)).contains(id) <==> finished_items(
                status,
                items,
            ).contains(id) || (item.id is Some && item.id->0@ == id && !broken)
        }),
{
    assert(items.push(item).drop_last() =~= items);
}

/// A response that is done: its calls are reported first. Then its tokens are billed now, under the
/// scope of the dialog: the cached ones of the input apart from the others. If more are cached than
/// there are, the dialog ends.
pub proof fn law_responses_are_billed(
    client: ClientState,
    response: Response,
    raw: Seq<char>,
    format: AudioFormat,
    scope: Seq<char>,
    transcription: TranscriptionSettings,
    event_id: Seq<char>,
)
    requires
        response.object@ == "realtime.response"@,
    ensures
        ({
            let event = ServerEvent::ResponseDone { response };
            let h = handled(client, raw, event, format, scope, transcription, event_id);
            let calls = call_reports(response.status, response.output@);
            let n = calls.len() as int;
            &&& calls.is_prefix_of(h.out)
            &&& response.usage is None ==> h.out == calls && h.result is Ok
            &&& response.usage matches Some(u) ==> {
                if u.input_audio_tokens < u.cached_audio_tokens {
                    h.out == calls && h.sent.len() == 0 && h.result == Err::<
                        FlowView,
                        Seq<Seq<char>>,
                    >(seq!["Internal error: less audio tokens than cached text tokens"@])
                } else if u.input_text_tokens < u.cached_text_tokens {
                    h.out == calls && h.sent.len() == 0 && h.result == Err::<
                        FlowView,
                        Seq<Seq<char>>,
                    >(seq!["Internal error: less text tokens than cached text tokens"@])
                } else {
                    let r = h.out[n]->records;
                    &&& h.result is Ok
                    &&& h.out.len() == n + 1
                    &&& h.out[n] is BillingRecords
                    &&& h.out[n]->schedule == BillingSchedule::Now
                    &&& h.out[n]->scope == Some(scope)
                    &&& h.out[n]->BillingRecords_request_id is None
                    &&& r.len() == 6
                    &&& r[0].name == "tokens:input:audio"@
                    &&& r[0].value is Count
                    &&& r[0].value->Count_0 + u.cached_audio_tokens == u.input_audio_tokens
                    &&& r[1].name == "tokens:input:text"@
                    &&& r[1].value is Count
                    &&& r[1].value->Count_0 + u.cached_text_tokens == u.input_text_tokens
                    &&& r[2].name == "tokens:input:audio:cached"@
                    &&& r[2].value == BillingValue::Count(u.cached_audio_tokens as u64)
                    &&& r[3].name == "tokens:input:text:cached"@
                    &&& r[3].value == BillingValue::Count(u.cached_text_tokens as u64)
                    &&& r[4].name == "tokens:output:audio"@
                    &&& r[4].value == BillingValue::Count(u.output_audio_tokens as u64)
                    &&& r[5].name == "tokens:output:text"@
                    &&& r[5].value == BillingValue::Count(u.output_text_tokens as u64)
                }
            }
        }),
{
    let event = ServerEvent::ResponseDone { response };
    let h = handled(client, raw, event, format, scope, transcription, event_id);
    let calls = call_reports(response.status, response.output@);
    assert(h.out.subrange(0, calls.len() as int) =~= calls);
    if response.usage is None {
        assert(h.out =~= calls);
    }
}

/// After a response its items are forgotten and it is no longer tracked. The model is idle then,
/// unless it waits for the result of a function that was reported. While it responds it is busy.
pub proof fn law_responses_change_the_state(
    client: ClientState,
    response: Response,
    object: String,
    raw: Seq<char>,
    format: AudioFormat,
    scope: Seq<char>,
    transcription: TranscriptionSettings,
    event_id: Seq<char>,
    input: InputPart,
    output: OutputPart,
)
    ensures
        ({
            let event = ServerEvent::ResponseDone { response };
            let h = handled(client, raw, event, format, scope, transcription, event_id);
            let items = finished_items(response.status, response.output@);
            let t = client.transcripts;
            if response.object@ == "realtime.response"@ {
                &&& h.client.transcripts.input.contains_key(input) <==> t.input.contains_key(input)
                    && !items.contains(input.item)
                &&& h.client.transcripts.output.contains_key(output) <==> t.output.contains_key(
                    output,
                ) && !items.contains(output.item)
                &&& h.client.transcripts.responses == t.responses.remove(response.id@)
                &&& h.client.prompts is Some <==> client.prompts is Some
                &&& h.result is Ok && client.prompts is Some ==> h.client.prompts->0.state
                    == if call_reports(response.status, response.output@).len() > 0 {
                    ResponseState::ExpectingFunctionResult
                } else {
                    ResponseState::Idle
                }
                &&& client.prompts is None ==> h.sent.len() == 0
            } else {
                h.client == client && h.out.len() == 0 && h.sent.len() == 0 && h.result is Ok
            }
        }),
        ({
            let event = ServerEvent::ResponseCreated { object };
            let h = handled(client, raw, event, format, scope, transcription, event_id);
            &&& h.out.len() == 0 && h.sent.len() == 0 && h.result is Ok
            &&& h.client.transcripts == client.transcripts
            &&& h.client.prompts is Some <==> client.prompts is Some
            &&& client.prompts is Some && object@ == "realtime.response"@ ==> {
                &&& h.client.prompts->0.state == ResponseState::Responding
                &&& h.client.prompts->0.pending == client.prompts->0.pending
                &&& h.client.prompts->0.inflight == client.prompts->0.inflight
            }
            &&& object@ != "realtime.response"@ ==> h.client == client
        }),
{
    crate::openai_dialog::transcription::law_only_the_items_are_forgotten(
        client.transcripts,
        finished_items(response.status, response.output@),
        input,
        output,
    );
}

/// An item that is deleted is forgotten, and no other. Of one that is truncated, the content is.
pub proof fn law_items_are_forgotten(
    client: ClientState,
    item_id: String,
    content_index: u32,
    raw: Seq<char>,
    format: AudioFormat,
    scope: Seq<char>,
    transcription: TranscriptionSettings,
    event_id: Seq<char>,
    input: InputPart,
    output: OutputPart,
)
    ensures
        ({
            let event = ServerEvent::ConversationItemDeleted { item_id };
            let h = handled(client, raw, event, format, scope, transcription, event_id);
            let t = client.transcripts;
            &&& h.out.len() == 0 && h.sent.len() == 0 && h.result is Ok
            &&& h.client.prompts == client.prompts
            &&& h.client.transcripts.responses == t.responses
            &&& h.client.transcripts.input.contains_key(input) <==> t.input.contains_key(input)
                && input.item != item_id@
            &&& h.client.transcripts.output.contains_key(output) <==> t.output.contains_key(output)
                && output.item != item_id@
            &&& h.client.transcripts.input.contains_key(input) ==> h.client.transcripts.input[input]
                == t.input[input]
            &&& h.client.transcripts.output.contains_key(output)
                ==> h.client.transcripts.output[output] == t.output[output]
        }),
        ({
            let event = ServerEvent::ConversationItemTruncated { item_id, content_index };
            let h = handled(client, raw, event, format, scope, transcription, event_id);
            let t = client.transcripts;
            &&& h.out.len() == 0 && h.sent.len() == 0 && h.result is Ok
            &&& h.client.prompts == client.prompts
            &&& h.client.transcripts.responses == t.responses
            &&& h.client.transcripts.input.contains_key(input) <==> t.input.contains_key(input)
                && !(input.item == item_id@ && input.content == content_index)
            &&& h.client.transcripts.output.contains_key(output) <==> t.output.contains_key(output)
                && !(output.item == item_id@ && output.content == content_index)
            &&& h.client.transcripts.input.contains_key(input) ==> h.client.transcripts.input[input]
                == t.input[input]
            &&& h.client.transcripts.output.contains_key(output)
                ==> h.client.transcripts.output[output] == t.output[output]
        }),
{
}

/// An update of the session is reported beside the media, with the tools of the session.
pub proof fn law_updates_are_reported(
    client: ClientState,
    session: Session,
    tools: Vec<Value>,
    raw: Seq<char>,
    format: AudioFormat,
    scope: Seq<char>,
    transcription: TranscriptionSettings,
    event_id: Seq<char>,
)
    ensures
        ({
            let event = ServerEvent::SessionUpdated { session };
            let h = handled(client, raw, event, format, scope, transcription, event_id);
            &&& h.client == client && h.sent.len() == 0 && h.result is Ok
            &&& h.out.len() == 1
            &&& h.out[0] is ServiceEvent
            &&& h.out[0]->path == OutputPath::Control
            &&& h.out[0]->event is SessionUpdated
            &&& match session {
                Session::Realtime { tools: Some(tools), .. } => {
                    let shown = h.out[0]->event->tools;
                    &&& shown is Some
                    &&& shown->0.len() == tools@.len()
                    &&& forall|i: int|
                        0 <= i < tools@.len() ==> #[trigger] shown->0[i] == json_text(tools@[i])
                },
                _ => h.out[0]->event->tools is None,
            }
        }),
{
}

/// An error of the server ends the dialog with its description, unless it only says that the model
/// is busy. With a queue of prompts, it must be about the prompt that is on its way, which is then
/// the next to be sent.
pub proof fn law_errors_of_the_server(
    client: ClientState,
    error: ServerError,
    raw: Seq<char>,
    format: AudioFormat,
    scope: Seq<char>,
    transcription: TranscriptionSettings,
    event_id: Seq<char>,
)
    ensures
        ({
            let event = ServerEvent::Error(error);
            let h = handled(client, raw, event, format, scope, transcription, event_id);
            let busy = error.code is Some && error.code->0@
                == "conversation_already_has_active_response"@;
            let survived = busy && match client.prompts {
                None => true,
                Some(p) => match p.inflight {
                    Some((id, _)) => error.event_id is Some && error.event_id->0@ == id,
                    None => false,
                },
            };
            &&& is_busy_error(error) == busy
            &&& h.out.len() == 0 && h.sent.len() == 0
            &&& h.client.transcripts == client.transcripts
            &&& survived ==> h.result == Ok::<FlowView, Seq<Seq<char>>>(FlowView::Continue)
            &&& !survived ==> h.client == client && h.result == Err::<FlowView, Seq<Seq<char>>>(
                seq![error.description@ + ", raw: "@ + raw],
            )
            &&& survived && client.prompts is None ==> h.client == client
            &&& survived ==> (client.prompts matches Some(p) ==> {
                let q = h.client.prompts;
                &&& q is Some
                &&& q->0.state == p.state
                &&& q->0.inflight is None
                &&& p.inflight matches Some((_, prompt)) ==> q->0.pending == seq![prompt]
                    + p.pending
            })
        }),
{
}

/// Any other event of the server changes nothing.
pub proof fn law_other_events_change_nothing(
    client: ClientState,
    session: Session,
    raw: Seq<char>,
    format: AudioFormat,
    scope: Seq<char>,
    transcription: TranscriptionSettings,
    event_id: Seq<char>,
)
    ensures
        ({
            let h = handled(
                client,
                raw,
                ServerEvent::Other,
                format,
                scope,
                transcription,
                event_id,
            );
            h.client == client && h.out.len() == 0 && h.sent.len() == 0 && h.result == Ok::<
                FlowView,
                Seq<Seq<char>>,
            >(FlowView::Continue)
        }),
        ({
            let event = ServerEvent::SessionCreated { session };
            let h = handled(client, raw, event, format, scope, transcription, event_id);
            h.client == client && h.out.len() == 0 && h.sent.len() == 0 && h.result == Ok::<
                FlowView,
                Seq<Seq<char>>,
            >(FlowView::Continue)
        }),
{
}

/// The audio of the participant is sent as it comes: two bytes for each sample, the low one first,
/// as base64 text. Texts are not sent.
pub proof fn law_input_is_sent(
    client: ClientState,
    frame: AudioFrame,
    request_id: Option<String>,
    text: String,
    text_type: Option<String>,
    is_final: bool,
    event_id: Seq<char>,
)
    ensures
        ({
            let h = input_handled(client, Input::Audio { frame }, event_id);
            let bytes = base64_bytes(h.sent[0]->audio);
            &&& h.client == client && h.out.len() == 0 && h.result is Ok
            &&& h.sent.len() == 1
            &&& h.sent[0] is InputAudioBufferAppend
            &&& is_base64(h.sent[0]->audio)
            &&& bytes.len() == 2 * frame.samples@.len()
            &&& forall|i: int|
                0 <= i < frame.samples@.len() ==> {
                    let code = bytes[2 * i] as int + 256 * (bytes[2 * i + 1] as int);
                    let sample = #[trigger] frame.samples@[i];
                    code == sample || code == sample + 65536
                }
        }),
        ({
            let input = Input::Text { request_id, text, text_type, is_final };
            let h = input_handled(client, input, event_id);
            h.client == client && h.out.len() == 0 && h.sent.len() == 0 && h.result is Ok
        }),
{
    law_base64_round_trip(crate::audio::le_bytes(frame@.samples));
    law_bytes_of_samples(frame@.samples);
    assert(frame@.samples == frame.samples@);
}

/// The result of a function is sent for its call, as JSON text, and then a response is asked for.
pub proof fn law_results_are_sent(
    client: ClientState,
    call_id: String,
    output: Value,
    cause: String,
    event_id: Seq<char>,
)
    ensures
        ({
            let value = Ok::<ServiceInputEvent, String>(
                ServiceInputEvent::FunctionCallResult { call_id, output },
            );
            let h = input_handled(client, Input::ServiceEvent { value }, event_id);
            &&& h.client == client && h.out.len() == 0 && h.result is Ok
            &&& h.sent.len() == 2
            &&& h.sent[0] is FunctionCallOutput
            &&& h.sent[0]->call_id == call_id@
            &&& h.sent[0]->output == json_text(output)
            &&& h.sent[1] is ResponseCreate
        }),
        ({
            let value = Err::<ServiceInputEvent, String>(cause);
            let h = input_handled(client, Input::ServiceEvent { value }, event_id);
            &&& h.client == client && h.out.len() == 0 && h.sent.len() == 0
            &&& h.result == Err::<FlowView, Seq<Seq<char>>>(seq![cause@])
        }),
{
}

/// A prompt is sent at once if there is no queue, or if the model is idle and no prompt is on its
/// way. Else it waits behind all others.
pub proof fn law_prompts_are_sent_or_wait(client: ClientState, text: String, event_id: Seq<char>)
    ensures
        ({
            let value = Ok::<ServiceInputEvent, String>(ServiceInputEvent::Prompt { text });
            let h = input_handled(client, Input::ServiceEvent { value }, event_id);
            &&& h.out.len() == 0 && h.result is Ok
            &&& h.client.transcripts == client.transcripts
            &&& match client.prompts {
                None => {
                    &&& h.client == client
                    &&& h.sent.len() == 1
                    &&& h.sent[0] is PromptResponse
                    &&& h.sent[0]->PromptResponse_instructions == text@
                    &&& h.sent[0]->event_id is None
                },
                Some(p) => {
                    let q = h.client.prompts->0;
                    let all = p.pending.push(text@);
                    &&& h.client.prompts is Some
                    &&& q.state == p.state
                    &&& if p.state == ResponseState::Idle && p.inflight is None {
                        &&& h.sent.len() == 1
                        &&& h.sent[0] is PromptResponse
                        &&& h.sent[0]->PromptResponse_instructions == all[0]
                        &&& h.sent[0]->event_id == Some(event_id)
                        &&& q.inflight == Some((event_id, all[0]))
                        &&& q.pending == all.drop_first()
                    } else {
                        h.sent.len() == 0 && q.inflight == p.inflight && q.pending == all
                    }
                },
            }
        }),
{
}

/// When the model becomes idle, the prompt that was on its way is done and the next one is sent.
pub proof fn law_next_prompts_are_sent(p: Prompts, state: ResponseState, event_id: Seq<char>)
    ensures
        ({
            let q = p.updated(state, event_id);
            let sent = p.update_sends(state, event_id);
            let sends = p.state != ResponseState::Idle && state == ResponseState::Idle
                && p.pending.len() > 0;
            &&& q.state == state
            &&& sends ==> {
                &&& sent.len() == 1
                &&& sent[0] is PromptResponse
                &&& sent[0]->PromptResponse_instructions == p.pending[0]
                &&& sent[0]->event_id == Some(event_id)
                &&& q.inflight == Some((event_id, p.pending[0]))
                &&& q.pending == p.pending.drop_first()
            }
            &&& !sends ==> sent.len() == 0 && q.pending == p.pending
            &&& !sends && state == ResponseState::Idle ==> q.inflight is None
            &&& state != ResponseState::Idle ==> q.inflight == p.inflight
        }),
        Prompts::none().state == ResponseState::Idle,
        Prompts::none().inflight is None,
        Prompts::none().pending.len() == 0,
{
}

/// Changes of the session are sent as they are asked for.
pub proof fn law_changes_are_sent(
    client: ClientState,
    instructions: Option<String>,
    voice: Option<String>,
    tools: Option<Vec<Value>>,
    tool_choice: Option<Value>,
    event_id: Seq<char>,
)
    ensures
        ({
            let value = Ok::<ServiceInputEvent, String>(
                ServiceInputEvent::SessionUpdate { instructions, voice, tools, tool_choice },
            );
            let h = input_handled(client, Input::ServiceEvent { value }, event_id);
            let session = h.sent[0]->session;
            &&& h.client == client && h.out.len() == 0 && h.result is Ok
            &&& h.sent.len() == 1
            &&& h.sent[0] is SessionUpdate
            &&& session.instructions is Some <==> instructions is Some
            &&& instructions is Some ==> session.instructions->0 == instructions->0@
            &&& session.voice is Some <==> voice is Some
            &&& voice is Some ==> session.voice->0 == voice->0@ && session.speed_percent == Some(
                100u32,
            )
            &&& voice is None ==> session.speed_percent is None
            &&& session.input_transcription_model is None
            &&& session.tools is Some <==> tools is Some
            &&& tools is Some ==> session.tools->0.len() == tools->0@.len() && forall|i: int|
                0 <= i < tools->0@.len() ==> #[trigger] session.tools->0[i] == json_text(
                    tools->0@[i],
                )
            &&& session.tool_choice is Some <==> tool_choice is Some
            &&& tool_choice is Some ==> session.tool_choice->0 == json_text(tool_choice->0)
        }),
{
}

/// A dialog ends with its input, with the stream of the server, and when the server closes it. It
/// fails if the socket fails or a message cannot be read. A ping is answered with its payload.
pub proof fn law_how_dialogs_end(
    client: ClientState,
    raw: String,
    cause: String,
    payload: Vec<u8>,
    format: AudioFormat,
    scope: Seq<char>,
    transcription: TranscriptionSettings,
    event_id: Seq<char>,
)
    ensures
        ({
            let of = |event: DialogEvent|
                event_handled(client, event, format, scope, transcription, event_id);
            let of_message = |message: SocketMessage<ServerEvent>|
                of(DialogEvent::Message(Some(Ok(message))));
            &&& of(DialogEvent::Input(None)).result == Ok::<FlowView, Seq<Seq<char>>>(FlowView::End)
            &&& of(DialogEvent::Message(None)).result == Ok::<FlowView, Seq<Seq<char>>>(
                FlowView::End,
            )
            &&& of_message(SocketMessage::Close).result == Ok::<FlowView, Seq<Seq<char>>>(
                FlowView::End,
            )
            &&& of_message(SocketMessage::Ping(payload)).result == Ok::<FlowView, Seq<Seq<char>>>(
                FlowView::PongAndContinue(payload@),
            )
            &&& of(DialogEvent::Message(Some(Err(cause)))).result == Err::<
                FlowView,
                Seq<Seq<char>>,
            >(seq![cause@])
            &&& of_message(SocketMessage::Text { raw, event: Err(cause) }).result == Err::<
                FlowView,
                Seq<Seq<char>>,
            >(seq!["Deserialization failed: `"@ + raw@ + "`"@, cause@])
            &&& of_message(SocketMessage::Other { description: cause }).result == Err::<
                FlowView,
                Seq<Seq<char>>,
            >(seq!["Unhandled: "@ + cause@])
        }),
        forall|event: DialogEvent|
            (event matches DialogEvent::Message(Some(Ok(SocketMessage::Text { event: Ok(_), .. })))
                || event matches DialogEvent::Input(Some(_))) || {
                let h = #[trigger] event_handled(
                    client,
                    event,
                    format,
                    scope,
                    transcription,
                    event_id,
                );
                h.client == client && h.out.len() == 0 && h.sent.len() == 0
            },
{
}

/// Each event of the server and each input is handled as such.
pub proof fn law_events_are_handled(
    client: ClientState,
    raw: String,
    event: ServerEvent,
    input: Input<Result<ServiceInputEvent, String>>,
    format: AudioFormat,
    scope: Seq<char>,
    transcription: TranscriptionSettings,
    event_id: Seq<char>,
)
    ensures
        event_handled(
            client,
            DialogEvent::Message(Some(Ok(SocketMessage::Text { raw, event: Ok(event) }))),
            format,
            scope,
            transcription,
            event_id,
        ) == handled(client, raw@, event, format, scope, transcription, event_id),
        event_handled(
            client,
            DialogEvent::Input(Some(input)),
            format,
            scope,
            transcription,
            event_id,
        ) == input_handled(client, input, event_id),
{
}

/// The protocol is the one that is asked for. If none is, a host of OpenAI speaks its own, as does no
/// host at all, and one of Azure speaks that of Azure, which needs a host in any case.
pub proof fn law_protocols(
    protocol: Option<Protocol>,
    host: Option<Seq<char>>,
    address: Seq<char>,
    url: UrlView,
    name: Seq<char>,
)
    ensures
        resolved(None, None) == Ok::<Protocol, Seq<Seq<char>>>(Protocol::OpenAI),
        resolved(Some(Protocol::OpenAI), host) == Ok::<Protocol, Seq<Seq<char>>>(Protocol::OpenAI),
        host is Some ==> resolved(Some(Protocol::Azure), host) == Ok::<Protocol, Seq<Seq<char>>>(
            Protocol::Azure,
        ),
        resolved(Some(Protocol::Azure), None) == Err::<Protocol, Seq<Seq<char>>>(
            seq![
                "Protocol `azure` requires an Azure OpenAI `host` endpoint. Set `host` to your Azure OpenAI realtime websocket URL."@,
            ],
        ),
        host is Some ==> resolved(None, host) == inferred(host),
        inferred(None) == Ok::<Protocol, Seq<Seq<char>>>(Protocol::OpenAI),
        url_read(address) is Err ==> inferred(Some(address)) == Err::<Protocol, Seq<Seq<char>>>(
            seq!["Invalid host URL: "@ + address, url_read(address)->Err_0],
        ),
        url_read(address) matches Ok(text) ==> {
            let found = url_protocol(
                UrlView { scheme: url_scheme(text), host: url_host(text), path: url_path(text) },
            );
            &&& found is Some ==> inferred(Some(address)) == Ok::<Protocol, Seq<Seq<char>>>(found->0)
            &&& found is None ==> inferred(Some(address)) == Err::<Protocol, Seq<Seq<char>>>(
                seq![
                    "Cannot infer protocol from host `"@ + address
                        + "`. Set `protocol` explicitly to `openai` or `azure`, use `wss://api.openai.com/v1/realtime`, or use an Azure OpenAI host."@,
                ],
            )
        },
        url.scheme == "wss"@ && url.host == Some("api.openai.com"@) && url.path == "/v1/realtime"@
            ==> url_protocol(url) == Some(Protocol::OpenAI),
        url_protocol(url) == Some(Protocol::OpenAI) ==> url.scheme == "wss"@ && url.host == Some(
            "api.openai.com"@,
        ) && url.path == "/v1/realtime"@,
        url_protocol(url) == Some(Protocol::Azure) ==> url.host is Some
            && ".openai.azure.com"@.is_suffix_of(url.host->0),
        url.host == Some(name + ".openai.azure.com"@) ==> url_protocol(url) is Some,
        url.host is None ==> url_protocol(url) is None,
{
    if url.host == Some(name + ".openai.azure.com"@) {
        let whole = name + ".openai.azure.com"@;
        assert(whole.subrange(name.len() as int, whole.len() as int) =~= ".openai.azure.com"@);
        assert(".openai.azure.com"@.is_suffix_of(whole));
    }
}

/// A dialog takes and gives one channel of 24000 samples per second, and a refusal says which format
/// came instead.
pub proof fn law_formats(format: AudioFormat, direction: Seq<char>)
    ensures
        dialog_format().channels == 1,
        dialog_format().sample_rate == 24000,
        format_text(format) == "AudioFormat { channels: "@ + decimal(format.channels as nat)
            + ", sample_rate: "@ + decimal(format.sample_rate as nat) + " }"@,
        wrong_format(direction, format) == direction + format_text(format) + ", expected: "@
            + format_text(dialog_format()),
{
}

/// A dialog begins when the server has created a session for dialogs, with raw samples both ways if
/// it says anything of them, and with audio among what it puts out if it says anything of that.
pub proof fn law_sessions_are_verified(
    message: Option<Result<SocketMessage<ServerEvent>, String>>,
    raw: String,
    input_format: Option<SessionAudioFormat>,
    output_format: Option<SessionAudioFormat>,
    output_modalities: Option<Vec<OutputModality>>,
    tools: Option<Vec<Value>>,
)
    ensures
        ({
            let session = Session::Realtime {
                input_format,
                output_format,
                output_modalities,
                tools,
            };
            let event = ServerEvent::SessionCreated { session };
            let error = first_message_error(
                Some(Ok(SocketMessage::Text { raw, event: Ok(event) })),
            );
            let plain_in = input_format is None || input_format->0 is Pcm;
            let plain_out = output_format is None || output_format->0 is Pcm;
            let speaks = output_modalities is None || output_modalities->0@.len() == 0 || exists|
                i: int,
            |
                0 <= i < output_modalities->0@.len() && #[trigger] output_modalities->0@[i]
                    == OutputModality::Audio;
            &&& error is None <==> plain_in && plain_out && speaks
            &&& input_format matches Some(SessionAudioFormat::Other { description }) ==> error
                == Some(
                "Unexpected input audio format: Some("@ + description@ + "), expected PCM"@,
            )
            &&& plain_in ==> (output_format matches Some(
                SessionAudioFormat::Other { description },
            ) ==> error == Some(
                "Unexpected output audio format: Some("@ + description@ + "), expected PCM"@,
            ))
        }),
        first_message_error(message) is None ==> message is Some && message->0 is Ok
            && message->0->Ok_0 is Text && message->0->Ok_0->event is Ok
            && message->0->Ok_0->event->Ok_0 is SessionCreated
            && message->0->Ok_0->event->Ok_0->SessionCreated_session is Realtime,
        message is None ==> first_message_error(message) == Some(
            "Failed to receive the initial message received"@,
        ),
        message matches Some(Err(cause)) ==> first_message_error(message) == Some(cause@),
        message matches Some(Ok(m)) && !(m is Text) ==> first_message_error(message) == Some(
            "Failed to receive the initial message"@,
        ),
        message matches Some(Ok(SocketMessage::Text { event: Err(cause), .. }))
            ==> first_message_error(message) == Some(cause@),
        message matches Some(
            Ok(SocketMessage::Text { event: Ok(ServerEvent::Error(error)), .. }),
        ) ==> first_message_error(message) == Some(
            "Failed to create the session: "@ + error.message@,
        ),
        message matches Some(
            Ok(
                SocketMessage::Text {
                    event: Ok(
                        ServerEvent::SessionCreated {
                            session: Session::Transcription { description },
                        },
                    ),
                    ..
                },
            ),
        ) ==> first_message_error(message) == Some(
            "Unexpected non-realtime session: "@ + description@,
        ),
        message matches Some(Ok(SocketMessage::Text { event: Ok(other), .. })) && !(other is Error)
            && !(other is SessionCreated) ==> first_message_error(message) == Some(
            "Received an unexpected event in response to the session creation"@,
        ),
{
    let list = output_modalities->0@;
    if output_modalities is Some && list.contains(OutputModality::Audio) {
        let i = choose|i: int| 0 <= i < list.len() && list[i] == OutputModality::Audio;
        assert(list[i] == OutputModality::Audio);
    }
}

/// A dialog begins with all that the parameters ask for. The participant is transcribed only if that
/// is asked for.
pub proof fn law_dialogs_begin_as_asked(params: Params, transcription: TranscriptionSettings)
    ensures
        ({
            let s = initial_settings(params, transcription);
            &&& s.instructions is Some <==> params.instructions is Some
            &&& params.instructions is Some ==> s.instructions->0 == params.instructions->0@
            &&& s.voice is Some <==> params.voice is Some
            &&& params.voice is Some ==> s.voice->0 == params.voice->0@ && s.speed_percent == Some(
                100u32,
            )
            &&& params.voice is None ==> s.speed_percent is None
            &&& transcription.input ==> s.input_transcription_model == Some(
                "gpt-realtime-whisper"@,
            )
            &&& !transcription.input ==> s.input_transcription_model is None
            &&& s.tools is Some <==> params.tools@.len() > 0
            &&& s.tools is Some ==> s.tools->0.len() == params.tools@.len() && forall|i: int|
                0 <= i < params.tools@.len() ==> #[trigger] s.tools->0[i] == json_text(
                    params.tools@[i],
                )
            &&& s.tool_choice is Some <==> params.tool_choice is Some
            &&& params.tool_choice is Some ==> s.tool_choice->0 == json_text(params.tool_choice->0)
            &&& asks_for_anything(s) <==> params.instructions is Some || params.voice is Some
                || transcription.input || params.tools@.len() > 0 || params.tool_choice is Some
        }),
{
}

/// What is sent is shown as it is.
pub proof fn law_sent_events_are_shown(event: ClientEvent, sent: Seq<ClientEvent>)
    ensures
        sent_view(sent).len() == sent.len(),
        forall|i: int| 0 <= i < sent.len() ==> #[trigger] sent_view(sent)[i] == sent[i]@,
        match event {
            ClientEvent::InputAudioBufferAppend { audio } => event@ is InputAudioBufferAppend
                && event@->audio == audio@,
            ClientEvent::FunctionCallOutput { call_id, output } => event@ is FunctionCallOutput
                && event@->call_id == call_id@ && event@->output == output@,
            ClientEvent::ResponseCreate => event@ is ResponseCreate,
            ClientEvent::PromptResponse { instructions, event_id } => {
                &&& event@ is PromptResponse
                &&& event@->PromptResponse_instructions == instructions@
                &&& event@->event_id is Some <==> event_id is Some
                &&& event_id is Some ==> event@->event_id->0 == event_id->0@
            },
            ClientEvent::SessionUpdate { session } => {
                let shown = event@->session;
                &&& event@ is SessionUpdate
                &&& shown.instructions is Some <==> session.instructions is Some
                &&& session.instructions is Some ==> shown.instructions->0
                    == session.instructions->0@
                &&& shown.input_transcription_model is Some
                    <==> session.input_transcription_model is Some
                &&& session.input_transcription_model is Some
                    ==> shown.input_transcription_model->0 == session.input_transcription_model->0@
                &&& shown.voice is Some <==> session.voice is Some
                &&& session.voice is Some ==> shown.voice->0 == session.voice->0@
                &&& shown.speed_percent == session.speed_percent
                &&& shown.tools is Some <==> session.tools is Some
                &&& session.tools is Some ==> shown.tools->0.len() == session.tools->0@.len()
                    && forall|i: int|
                    0 <= i < session.tools->0@.len() ==> #[trigger] shown.tools->0[i] == json_text(
                        session.tools->0@[i],
                    )
                &&& shown.tool_choice is Some <==> session.tool_choice is Some
                &&& session.tool_choice is Some ==> shown.tool_choice->0 == json_text(
                    session.tool_choice->0,
                )
            },
        },
{
}

/// What the service reports, and the state of the client, are shown as they are.
pub proof fn law_reports_are_shown(
    event: ServiceOutputEvent,
    prompts: PromptCoordinator,
    client: Client,
)
    ensures
        match event {
            ServiceOutputEvent::FunctionCall { call_id, name, arguments } => {
                &&& event@ is FunctionCall
                &&& event@->call_id == call_id@
                &&& event@->name == name@
                &&& event@->arguments is Some <==> arguments is Some
                &&& arguments is Some ==> event@->arguments->0 == json_text(arguments->0)
            },
            ServiceOutputEvent::SessionUpdated { tools } => {
                &&& event@ is SessionUpdated
                &&& event@->tools is Some <==> tools is Some
                &&& tools is Some ==> event@->tools->0.len() == tools->0@.len() && forall|i: int|
                    0 <= i < tools->0@.len() ==> #[trigger] event@->tools->0[i] == json_text(
                        tools->0@[i],
                    )
            },
            ServiceOutputEvent::TurnComplete => event@ is TurnComplete,
        },
        prompts@.state == prompts.response_state,
        prompts@.inflight is Some <==> prompts.inflight_prompt is Some,
        prompts.inflight_prompt matches Some((id, prompt)) ==> prompts@.inflight == Some(
            (id@, prompt.0@),
        ),
        prompts@.pending.len() == prompts.pending_prompts@.len(),
        forall|i: int|
            0 <= i < prompts.pending_prompts@.len() ==> #[trigger] prompts@.pending[i]
                == prompts.pending_prompts@[i].0@,
        client@.transcripts == client.transcription_state@,
        client@.prompts is Some <==> client.prompt_coordinator is Some,
        client.prompt_coordinator is Some ==> client@.prompts->0 == client.prompt_coordinator->0@,
{
}

/// A dialog is planned with the host, the key and the model of the parameters. Both directions have the
/// same format, and what is said is transcribed only if it is asked for and texts are put out.
pub proof fn law_planned_dialogs(
    params: Params,
    input_format: AudioFormat,
    output_format: AudioFormat,
    has_text_output: bool,
    r: Result<DialogPlan, Error>,
)
    requires
        call_ensures(
            OpenAIDialog::conversation,
            (&OpenAIDialog, &params, input_format, output_format, has_text_output),
            r,
        ),
    ensures
        input_format != output_format ==> r is Err && r->Err_0@ == seq![
            "Input and output audio formats must match for OpenAI dialog service"@,
        ],
        r matches Ok(plan) ==> {
            &&& input_format == output_format
            &&& params.endpoint is Some ==> plan.host.endpoint@ == params.endpoint->0@
            &&& params.endpoint is None ==> plan.host.endpoint@ == "wss://api.openai.com/v1/realtime"@
            &&& plan.host.api_key@ == params.api_key@
            &&& plan.host.model@ == params.model@
            &&& params.protocol is Some ==> plan.host.protocol == params.protocol->0
            &&& params.protocol is None && params.endpoint is None ==> plan.host.protocol
                == Protocol::OpenAI
            &&& plan.transcription.input <==> params.input_audio_transcription && has_text_output
            &&& plan.transcription.output <==> params.output_audio_transcription && has_text_output
        },
        input_format == output_format && params.protocol == Some(Protocol::OpenAI) ==> r is Ok,
        input_format == output_format && params.protocol is None && params.endpoint is None ==> r
            is Ok,
{
}

/// A dialog begins with an update of the session if the parameters ask for anything.
pub proof fn law_begun_dialogs(
    client: Client,
    input_format: AudioFormat,
    output_format: AudioFormat,
    params: Params,
    transcription: TranscriptionSettings,
    message: Option<Result<SocketMessage<ServerEvent>, String>>,
    r: Result<Option<ClientEvent>, Error>,
)
    requires
        call_ensures(
            Client::begin_dialog,
            (&client, input_format, output_format, params, transcription, message),
            r,
        ),
    ensures
        r is Ok ==> input_format.channels == 1 && input_format.sample_rate == 24000 && output_format
            == input_format && first_message_error(message) is None,
        r matches Ok(update) ==> {
            &&& update is Some <==> params.instructions is Some || params.voice is Some
                || transcription.input || params.tools@.len() > 0 || params.tool_choice is Some
            &&& update is Some ==> update->0 is SessionUpdate
            &&& update is Some && params.instructions is Some
                ==> update->0->session@.instructions == Some(params.instructions->0@)
            &&& update is Some && params.voice is Some ==> update->0->session@.voice == Some(
                params.voice->0@,
            )
            &&& update is Some ==> (update->0->session@.input_transcription_model is Some
                <==> transcription.input)
        },
        input_format.channels == 1 && input_format.sample_rate == 24000 && output_format
            == input_format && first_message_error(message) is None ==> r is Ok,
{
    law_dialogs_begin_as_asked(params, transcription);
}

/// A call that is complete is reported with its name, its id and its arguments. One without a name or
/// an id, or whose arguments could not be read, is not.
pub proof fn law_reported_calls(
    status: Status,
    item: Item,
    arguments: Option<Result<Value, String>>,
    r: Option<Option<ServiceOutputEvent>>,
)
    requires
        call_ensures(function_call, (status, &item, arguments), r),
    ensures
        ({
            let complete = status == Status::Completed && item.item_type == Some(
                ItemType::FunctionCall,
            ) && item.status == Some(Status::Completed);
            let whole = item.name is Some && item.call_id is Some && !(arguments matches Some(
                Err(_),
            ));
            &&& !complete ==> r is None
            &&& complete && !whole ==> r is Some && r->0 is None
            &&& complete && whole ==> {
                &&& r is Some && r->0 is Some && r->0->0@ is FunctionCall
                &&& r->0->0@->call_id == item.call_id->0@
                &&& r->0->0@->name == item.name->0@
                &&& arguments is None ==> r->0->0@->arguments is None
                &&& arguments matches Some(Ok(value)) ==> r->0->0@->arguments == Some(
                    json_text(value),
                )
            }
        }),
{
}

/// Whatever id a round of a dialog draws: a final transcript of the participant is put out as such, and
/// audio is sent.
pub proof fn law_rounds_of_a_dialog(
    client: &mut Client,
    event: DialogEvent,
    format: AudioFormat,
    scope: &str,
    transcription: TranscriptionSettings,
    out: &mut Vec<Emission<ServiceOutputEvent>>,
    sent: &mut Vec<ClientEvent>,
    r: Result<FlowControl, Error>,
)
    requires
        call_ensures(
            Client::dialog,
            (client, event, format, scope, transcription, out, sent),
            r,
        ),
    ensures
        event matches DialogEvent::Message(
            Some(
                Ok(
                    SocketMessage::Text {
                        event: Ok(
                            ServerEvent::ConversationItemInputAudioTranscriptionCompleted {
                                transcript,
                                ..
                            },
                        ),
                        ..
                    },
                ),
            ),
        ) ==> (transcription.input && transcript@.len() > 0 ==> {
            let o = emissions(final(out)@);
            let n = old(out)@.len() as int;
            &&& r is Ok
            &&& o.len() == n + 1
            &&& o[n] is Text
            &&& o[n]->is_final == true
            &&& o[n]->text == transcript@
            &&& o[n]->speaker is None
        }),
        event matches DialogEvent::Input(Some(Input::Audio { frame })) ==> {
            let s = sent_view(final(sent)@);
            let n = old(sent)@.len() as int;
            &&& r is Ok
            &&& emissions(final(out)@) == emissions(old(out)@)
            &&& s.len() == n + 1
            &&& s[n] is InputAudioBufferAppend
            &&& base64_bytes(s[n]->audio).len() == 2 * frame.samples@.len()
        },
        event matches DialogEvent::Input(None) ==> r is Ok && r->Ok_0 is End,
        event matches DialogEvent::Message(None) ==> r is Ok && r->Ok_0 is End,
{
    let event_id = choose|event_id: Seq<char>|
        {
            let h = #[trigger] event_handled(
                old(client)@,
                event,
                format,
                scope@,
                transcription,
                event_id,
            );
            &&& crate::openai_dialog::client::carried_out(
                h,
                final(client)@,
                old(out)@,
                final(out)@,
                old(sent)@,
                final(sent)@,
            )
            &&& r is Ok <==> h.result is Ok
            &&& r matches Ok(flow) ==> h.result->Ok_0 == flow@
            &&& r matches Err(e) ==> h.result->Err_0 == e@
        };
    let h = event_handled(old(client)@, event, format, scope@, transcription, event_id);
    assert(emissions(old(out)@).len() == old(out)@.len());
    assert(sent_view(old(sent)@).len() == old(sent)@.len());
    if let DialogEvent::Input(Some(Input::Audio { frame })) = event {
        law_input_is_sent(
            old(client)@,
            frame,
            None,
            arbitrary(),
            None,
            false,
            event_id,
        );
        assert(emissions(final(out)@) =~= emissions(old(out)@));
    }
}

/// An event of the server does one thing. A transcript of the participant is put out as a final text
/// without a speaker, one of the agent as a final text of the agent, a piece of either as a text that
/// is not final, audio in the format of the output, and the start of speech clears the audio.
pub proof fn law_server_events(
    client: &mut Client,
    raw: &str,
    event: ServerEvent,
    out: &mut Vec<Emission<ServiceOutputEvent>>,
    format: AudioFormat,
    scope: &str,
    transcription: TranscriptionSettings,
    event_id: String,
    sent: &mut Vec<ClientEvent>,
    r: Result<(), Error>,
)
    requires
        call_ensures(
            Client::handle_realtime_server_event,
            (client, raw, event, out, format, scope, transcription, event_id, sent),
            r,
        ),
    ensures
        ({
            let before = emissions(old(out)@);
            let o = emissions(final(out)@);
            let n = old(out)@.len() as int;
            let sent_before = sent_view(old(sent)@);
            let s = sent_view(final(sent)@);
            &&& n <= o.len() && o.subrange(0, n) == before
            &&& event matches ServerEvent::ConversationItemInputAudioTranscriptionCompleted {
                item_id,
                content_index,
                transcript,
            } ==> {
                let part = InputPart { item: item_id@, content: content_index };
                let held = old(client)@.transcripts.input;
                let known = held.contains_key(part) && held[part].len() > 0;
                &&& r is Ok && s == sent_before
                &&& !transcription.input ==> o == before && final(client)@ == old(client)@
                &&& transcription.input ==> final(client)@.transcripts.input == held.remove(part)
                &&& transcription.input && (transcript@.len() > 0 || known) ==> {
                    &&& o.len() == n + 1
                    &&& o[n] is Text
                    &&& o[n]->is_final
                    &&& o[n]->text == if transcript@.len() > 0 {
                        transcript@
                    } else {
                        held[part]
                    }
                    &&& o[n]->speaker is None
                    &&& o[n]->language is None
                }
                &&& transcription.input && transcript@.len() == 0 && !known ==> o == before
            }
            &&& event matches ServerEvent::ConversationItemInputAudioTranscriptionDelta {
                item_id,
                content_index,
                delta,
            } ==> {
                let part = InputPart { item: item_id@, content: content_index };
                let held = old(client)@.transcripts.input;
                &&& r is Ok && s == sent_before
                &&& !transcription.input ==> o == before && final(client)@ == old(client)@
                &&& transcription.input ==> {
                    &&& o.len() == n + 1
                    &&& o[n] is Text
                    &&& !o[n]->is_final
                    &&& held.contains_key(part) ==> o[n]->text == held[part] + delta@
                    &&& !held.contains_key(part) ==> o[n]->text == delta@
                    &&& o[n]->speaker is None
                    &&& final(client)@.transcripts.input == held.insert(part, o[n]->text)
                }
            }
            &&& event matches ServerEvent::ResponseOutputAudioTranscriptDone {
                item_id,
                output_index,
                content_index,
                transcript,
                ..
            } ==> {
                let part = OutputPart {
                    item: item_id@,
                    output: output_index,
                    content: content_index,
                };
                let held = old(client)@.transcripts.output;
                let known = held.contains_key(part) && held[part].len() > 0;
                &&& r is Ok && s == sent_before
                &&& !transcription.output ==> o == before && final(client)@ == old(client)@
                &&& transcription.output ==> final(client)@.transcripts.output == held.remove(part)
                &&& transcription.output && (transcript@.len() > 0 || known) ==> {
                    &&& o.len() == n + 1
                    &&& o[n] is Text
                    &&& o[n]->is_final
                    &&& o[n]->text == if transcript@.len() > 0 {
                        transcript@
                    } else {
                        held[part]
                    }
                    &&& o[n]->speaker == Some(SpeakerView::AiAgent)
                }
                &&& transcription.output && transcript@.len() == 0 && !known ==> o == before
            }
            &&& event matches ServerEvent::ResponseOutputAudioTranscriptDelta {
                item_id,
                output_index,
                content_index,
                delta,
                ..
            } ==> {
                let part = OutputPart {
                    item: item_id@,
                    output: output_index,
                    content: content_index,
                };
                let held = old(client)@.transcripts.output;
                &&& r is Ok && s == sent_before
                &&& !transcription.output ==> o == before && final(client)@ == old(client)@
                &&& transcription.output ==> {
                    &&& o.len() == n + 1
                    &&& o[n] is Text
                    &&& !o[n]->is_final
                    &&& held.contains_key(part) ==> o[n]->text == held[part] + delta@
                    &&& !held.contains_key(part) ==> o[n]->text == delta@
                    &&& o[n]->speaker == Some(SpeakerView::AiAgent)
                    &&& final(client)@.transcripts.output == held.insert(part, o[n]->text)
                }
            }
            &&& event matches ServerEvent::ResponseOutputAudioDelta { delta } ==> {
                &&& r is Ok <==> is_base64(delta@)
                &&& r is Err ==> o == before && r->Err_0@ == seq![base64_error(delta@)]
                &&& r is Ok ==> o.len() == n + 1 && o[n] is Audio && o[n]->Audio_0.format == format
                    && 2 * o[n]->Audio_0.samples.len() <= base64_bytes(delta@).len() < 2
                    * o[n]->Audio_0.samples.len() + 2
                &&& s == sent_before && final(client)@ == old(client)@
            }
            &&& event is InputAudioBufferSpeechStarted ==> r is Ok && o.len() == n + 1 && o[n]
                is ClearAudio && s == sent_before && final(client)@ == old(client)@
            &&& event is SessionUpdated ==> r is Ok && o.len() == n + 1 && o[n] is ServiceEvent
                && o[n]->path == OutputPath::Control && s == sent_before && final(client)@ == old(
                client)@
            &&& event is SessionCreated || event is Other ==> r is Ok && o == before && s
                == sent_before && final(client)@ == old(client)@
            &&& event is ConversationItemDeleted || event is ConversationItemTruncated ==> r is Ok
                && o == before && s == sent_before && final(client)@.prompts == old(client)@.prompts
            &&& event is Error ==> o == before && s == sent_before
                && final(client)@.transcripts == old(client)@.transcripts
        }),
{
    let before = emissions(old(out)@);
    let sent_before = sent_view(old(sent)@);
    let h = handled(old(client)@, raw@, event, format, scope@, transcription, event_id@);
    assert(before.len() == old(out)@.len());
    assert(sent_before.len() == old(sent)@.len());
    assert(emissions(final(out)@) == before + h.out);
    assert((before + h.out).subrange(0, before.len() as int) =~= before);
    assert(h.out.len() == 0 ==> before + h.out =~= before);
    assert(h.sent.len() == 0 ==> sent_before + h.sent =~= sent_before);
    if let ServerEvent::ResponseOutputAudioDelta { delta } = event {
        law_samples_of_bytes(base64_bytes(delta@));
    }
    if let ServerEvent::ConversationItemInputAudioTranscriptionDelta { delta, .. } = event {
        assert(Seq::<char>::empty() + delta@ =~= delta@);
    }
    if let ServerEvent::ResponseOutputAudioTranscriptDelta { delta, .. } = event {
        assert(Seq::<char>::empty() + delta@ =~= delta@);
    }
}

/// A session that puts out texts only is refused, with a list of its modalities.
pub proof fn law_silent_sessions(
    raw: String,
    output_modalities: Vec<OutputModality>,
    tools: Option<Vec<Value>>,
)
    requires
        output_modalities@.len() > 0,
        forall|i: int|
            0 <= i < output_modalities@.len() ==> #[trigger] output_modalities@[i]
                == OutputModality::Text,
    ensures
        ({
            let session = Session::Realtime {
                input_format: None,
                output_format: None,
                output_modalities: Some(output_modalities),
                tools,
            };
            let event = ServerEvent::SessionCreated { session };
            let names = Seq::new(output_modalities@.len(), |i: int| "Text"@);
            first_message_error(Some(Ok(SocketMessage::Text { raw, event: Ok(event) }))) == Some(
                "Expect audio output modality: "@ + ("["@ + joined(names, ", "@) + "]"@),
            )
        }),
{
    let names = Seq::new(output_modalities@.len(), |i: int| "Text"@);
    assert(crate::openai_dialog::session::modality_names(output_modalities@) =~= names);
}

} // verus!

//! What holds of a transcription, event by event.

use vstd::prelude::*;

use crate::audio::law_bytes_of_samples;
use crate::audio::law_duration;
use crate::audio::AudioFormat;
use crate::audio::AudioFrame;
use crate::base64_codec::base64_bytes;
use crate::base64_codec::is_base64;
use crate::base64_codec::law_base64_round_trip;
use crate::error::Error;
use crate::input::FlowView;
use crate::input::Input;
use crate::input::SocketMessage;
use crate::json::json_read;
use crate::json::json_text;
use crate::microsoft_voice_live::client::audio_sent;
use crate::microsoft_voice_live::client::event_handled;
use crate::microsoft_voice_live::client::first_message_error;
use crate::microsoft_voice_live::client::handled;
use crate::microsoft_voice_live::client::required_format;
use crate::microsoft_voice_live::client::turn_settings;
use crate::microsoft_voice_live::client::Client;
use crate::microsoft_voice_live::client::ClientEvent;
use crate::microsoft_voice_live::client::ClientView;
use crate::microsoft_voice_live::client::DescribedEvent;
use crate::microsoft_voice_live::client::Detector;
use crate::microsoft_voice_live::client::EndOfUtteranceModel;
use crate::microsoft_voice_live::client::MicrosoftVoiceLiveTranscribe;
use crate::microsoft_voice_live::client::Params;
use crate::microsoft_voice_live::client::ServerEvent;
use crate::microsoft_voice_live::client::ServiceOutputEvent;
use crate::microsoft_voice_live::client::SessionSettings;
use crate::microsoft_voice_live::client::Step;
use crate::microsoft_voice_live::client::TranscribeEvent;
use crate::microsoft_voice_live::client::TurnDetection;
use crate::microsoft_voice_live::host::query_pairs;
use crate::microsoft_voice_live::host::voice_live_url;
use crate::microsoft_voice_live::host::Host;
use crate::openai_dialog::transcription::InputPart;
use crate::output::emissions;
use crate::output::BillingSchedule;
use crate::output::Emission;
use crate::output::OutputPath;
use crate::output::SpeakerView;
use crate::text::is_space;
use crate::text::law_trimming;
use crate::urls::url_read;
use crate::urls::url_scheme;
use crate::urls::url_with_pairs;
use crate::urls::url_without_query;

verus! {

/// Audio is sent as it comes, two bytes for each sample with the low one first, as base64 text, and
/// the time that it takes is billed now.
pub proof fn law_audio_is_sent_and_billed(
    client: ClientView,
    frame: AudioFrame,
    language: Option<Seq<char>>,
)
    requires
        frame.format.channels == 1,
        frame.format.sample_rate > 0,
        frame.samples@.len() <= usize::MAX,
    ensures
        ({
            let event = TranscribeEvent::Input(Some(Input::Audio { frame }));
            let h = handled(client, event, language);
            let sent = audio_sent(event);
            let bytes = base64_bytes(sent->0);
            &&& sent is Some
            &&& is_base64(sent->0)
            &&& bytes.len() == 2 * frame.samples@.len()
            &&& forall|i: int|
                0 <= i < frame.samples@.len() ==> {
                    let code = bytes[2 * i] as int + 256 * (bytes[2 * i + 1] as int);
                    let sample = #[trigger] frame.samples@[i];
                    code == sample || code == sample + 65536
                }
            &&& h.client == client
            &&& h.result == Ok::<FlowView, Seq<Seq<char>>>(FlowView::Continue)
            &&& h.out.len() == 1
            &&& h.out[0] is BillingRecords
            &&& h.out[0]->BillingRecords_request_id is None
            &&& h.out[0]->scope is None
            &&& h.out[0]->schedule == BillingSchedule::Now
            &&& h.out[0]->records.len() == 1
            &&& h.out[0]->records[0].name == "input:audio"@
            &&& h.out[0]->records[0].value is Duration
            &&& h.out[0]->records[0].value->Duration_0 * frame.format.sample_rate
                <= frame.samples@.len() * 1_000_000_000
            &&& frame.samples@.len() * 1_000_000_000 < (h.out[0]->records[0].value->Duration_0 + 1)
                * frame.format.sample_rate
        }),
{
    law_base64_round_trip(crate::audio::le_bytes(frame@.samples));
    law_bytes_of_samples(frame@.samples);
    assert(frame@.samples == frame.samples@);
    law_duration(frame.format, frame.samples@.len());
    let a = (frame.samples@.len() * 1_000_000_000) as int;
    let b = frame.format.sample_rate as int;
    assert(frame.format.channels * frame.format.sample_rate == b) by (nonlinear_arith)
        requires
            frame.format.channels == 1,
            b == frame.format.sample_rate,
    ;
    let d = crate::audio::duration_nanos(frame.format, frame.samples@.len());
    assert(d <= a) by (nonlinear_arith)
        requires
            d * b <= a,
            b >= 1,
            d >= 0,
    ;
    assert(a <= usize::MAX * 1_000_000_000);
}

/// Each piece of a transcript is put out with all that came before it, as a text in the language of
/// the parameters that is not final.
pub proof fn law_pieces_are_put_out(
    client: ClientView,
    item_id: String,
    content_index: u32,
    delta: String,
    raw: Seq<char>,
    language: Option<Seq<char>>,
)
    ensures
        ({
            let event = ServerEvent::ConversationItemInputAudioTranscriptionDelta {
                item_id,
                content_index,
                delta,
            };
            let h = event_handled(client, event, raw, language);
            let part = InputPart { item: item_id@, content: content_index };
            let known = client.transcripts.contains_key(part);
            &&& h.result == Ok::<FlowView, Seq<Seq<char>>>(FlowView::Continue)
            &&& h.client.speakers == client.speakers
            &&& h.out.len() == 1
            &&& h.out[0] is Text
            &&& h.out[0]->is_final == false
            &&& known ==> h.out[0]->text == client.transcripts[part] + delta@
            &&& !known ==> h.out[0]->text == delta@
            &&& h.out[0]->language == language
            &&& h.out[0]->speaker is None
            &&& h.client.transcripts == client.transcripts.insert(part, h.out[0]->text)
        }),
{
    let part = InputPart { item: item_id@, content: content_index };
    let text = crate::openai_dialog::transcription::so_far(client.transcripts, part) + delta@;
    if !client.transcripts.contains_key(part) {
        assert(text =~= delta@);
    }
}

/// A transcript that is complete is put out once, as a final text in the language of the parameters
/// with the speaker that was reported for it: the one that the server tells, or else all pieces.
/// Nothing is put out of an empty one. After that its pieces and its speaker are forgotten.
pub proof fn law_transcripts_are_final(
    client: ClientView,
    item_id: String,
    content_index: u32,
    transcript: String,
    raw: Seq<char>,
    language: Option<Seq<char>>,
)
    ensures
        ({
            let event = ServerEvent::ConversationItemInputAudioTranscriptionCompleted {
                item_id,
                content_index,
                transcript,
            };
            let h = event_handled(client, event, raw, language);
            let part = InputPart { item: item_id@, content: content_index };
            let pieces = client.transcripts.contains_key(part) && client.transcripts[part].len()
                > 0;
            &&& h.result == Ok::<FlowView, Seq<Seq<char>>>(FlowView::Continue)
            &&& h.client.transcripts == client.transcripts.remove(part)
            &&& h.client.speakers == client.speakers.remove(item_id@)
            &&& transcript@.len() == 0 && !pieces ==> h.out.len() == 0
            &&& transcript@.len() > 0 || pieces ==> {
                &&& h.out.len() == 1
                &&& h.out[0] is Text
                &&& h.out[0]->is_final == true
                &&& transcript@.len() > 0 ==> h.out[0]->text == transcript@
                &&& transcript@.len() == 0 ==> h.out[0]->text == client.transcripts[part]
                &&& h.out[0]->language == language
                &&& client.speakers.contains_key(item_id@) ==> h.out[0]->speaker == Some(
                    SpeakerView::Named(client.speakers[item_id@]),
                )
                &&& !client.speakers.contains_key(item_id@) ==> h.out[0]->speaker is None
            }
        }),
{
}

/// A segment names the speaker of its item. The start and the end of speech and an update of the
/// session are reported beside the media. What is only of interest for a log changes nothing, and
/// failures end the transcription.
pub proof fn law_other_events(
    client: ClientView,
    event: ServerEvent,
    raw: Seq<char>,
    language: Option<Seq<char>>,
)
    ensures
        ({
            let h = event_handled(client, event, raw, language);
            match event {
                ServerEvent::ConversationItemInputAudioTranscriptionSegment {
                    item_id,
                    speaker,
                } => {
                    &&& h.out.len() == 0 && h.result is Ok
                    &&& h.client.transcripts == client.transcripts
                    &&& speaker is None ==> h.client == client
                    &&& speaker is Some ==> h.client.speakers == client.speakers.insert(
                        item_id@,
                        speaker->0@,
                    )
                },
                ServerEvent::InputAudioBufferSpeechStarted { audio_start_ms } => {
                    &&& h.client == client && h.result is Ok && h.out.len() == 1
                    &&& h.out[0] is ServiceEvent
                    &&& h.out[0]->path == OutputPath::Control
                    &&& h.out[0]->event is SpeechStarted
                    &&& h.out[0]->event->SpeechStarted_audio_start_ms == audio_start_ms
                },
                ServerEvent::InputAudioBufferSpeechStopped { audio_end_ms } => {
                    &&& h.client == client && h.result is Ok && h.out.len() == 1
                    &&& h.out[0] is ServiceEvent
                    &&& h.out[0]->path == OutputPath::Control
                    &&& h.out[0]->event is SpeechStopped
                    &&& h.out[0]->event->SpeechStopped_audio_end_ms == audio_end_ms
                },
                ServerEvent::SessionUpdated => match json_read(raw) {
                    Ok(message) => {
                        &&& h.client == client && h.result is Ok && h.out.len() == 1
                        &&& h.out[0] is ServiceEvent
                        &&& h.out[0]->path == OutputPath::Control
                        &&& h.out[0]->event is SessionUpdated
                        &&& h.out[0]->event->message == message
                    },
                    Err(cause) => h.client == client && h.out.len() == 0 && h.result == Err::<
                        FlowView,
                        Seq<Seq<char>>,
                    >(
                        seq![
                            "Failed to parse raw session.updated payload: `"@ + raw + "`"@,
                            cause,
                        ],
                    ),
                },
                ServerEvent::ConversationItemInputAudioTranscriptionFailed { message } => h.client
                    == client && h.out.len() == 0 && h.result == Err::<FlowView, Seq<Seq<char>>>(
                    seq!["Input audio transcription failed: "@ + message@],
                ),
                ServerEvent::Error { message } => h.client == client && h.out.len() == 0
                    && h.result == Err::<FlowView, Seq<Seq<char>>>(
                    seq!["Voice Live error: "@ + message@],
                ),
                ServerEvent::SessionCreated
                | ServerEvent::InputAudioBufferCommitted
                | ServerEvent::InputAudioBufferTimeoutTriggered
                | ServerEvent::Other => h.client == client && h.out.len() == 0 && h.result == Ok::<
                    FlowView,
                    Seq<Seq<char>>,
                >(FlowView::Continue),
                _ => true,
            }
        }),
{
}

/// A transcription ends with its input, with the stream of the server, and when the server closes it.
/// It fails if the socket fails or a message cannot be read. A ping is answered with its payload, and
/// input that is no audio is ignored.
pub proof fn law_how_transcriptions_end(
    client: ClientView,
    raw: String,
    cause: String,
    payload: Vec<u8>,
    input: Input<()>,
    event: ServerEvent,
    language: Option<Seq<char>>,
)
    ensures
        ({
            let of = |event: TranscribeEvent| handled(client, event, language).result;
            let of_message = |message: SocketMessage<ServerEvent>|
                of(TranscribeEvent::Message(Some(Ok(message))));
            &&& of(TranscribeEvent::Input(None)) == Ok::<FlowView, Seq<Seq<char>>>(FlowView::End)
            &&& of(TranscribeEvent::Message(None)) == Ok::<FlowView, Seq<Seq<char>>>(FlowView::End)
            &&& of_message(SocketMessage::Close) == Ok::<FlowView, Seq<Seq<char>>>(FlowView::End)
            &&& of_message(SocketMessage::Ping(payload)) == Ok::<FlowView, Seq<Seq<char>>>(
                FlowView::PongAndContinue(payload@),
            )
            &&& of(TranscribeEvent::Message(Some(Err(cause)))) == Err::<FlowView, Seq<Seq<char>>>(
                seq![cause@],
            )
            &&& of_message(SocketMessage::Text { raw, event: Err(cause) }) == Err::<
                FlowView,
                Seq<Seq<char>>,
            >(seq!["Server event decoding failed: `"@ + raw@ + "`"@, cause@])
            &&& of_message(SocketMessage::Other { description: cause }) == Err::<
                FlowView,
                Seq<Seq<char>>,
            >(seq!["Unhandled websocket message: "@ + cause@])
        }),
        handled(
            client,
            TranscribeEvent::Message(Some(Ok(SocketMessage::Text { raw, event: Ok(event) }))),
            language,
        ) == event_handled(client, event, raw@, language),
        !(input is Audio) ==> {
            let e = TranscribeEvent::Input(Some(input));
            let h = handled(client, e, language);
            audio_sent(e) is None && h.client == client && h.out.len() == 0 && h.result == Ok::<
                FlowView,
                Seq<Seq<char>>,
            >(FlowView::Continue)
        },
        forall|e: TranscribeEvent|
            (e matches TranscribeEvent::Message(Some(Ok(SocketMessage::Text { event: Ok(_), .. })))
                || e matches TranscribeEvent::Input(Some(_))) || {
                let h = #[trigger] handled(client, e, language);
                h.client == client && h.out.len() == 0 && audio_sent(e) is None
            },
{
}

/// A transcription begins with one channel of 24000 samples per second, when the server has created a
/// session.
pub proof fn law_beginnings(message: Option<Result<SocketMessage<DescribedEvent>, String>>)
    ensures
        required_format().channels == 1,
        required_format().sample_rate == 24000,
        first_message_error(message) is None <==> (message matches Some(
            Ok(SocketMessage::Text { event: Ok(described), .. }),
        ) && described.event is SessionCreated),
        message is None ==> first_message_error(message) == Some(
            "Failed to receive the initial message"@,
        ),
        message matches Some(Err(cause)) ==> first_message_error(message) == Some(cause@),
        message matches Some(Ok(m)) && !(m is Text) ==> first_message_error(message) == Some(
            "Expected a text message for session creation"@,
        ),
        message matches Some(Ok(SocketMessage::Text { event: Err(cause), .. }))
            ==> first_message_error(message) == Some(cause@),
        message matches Some(Ok(SocketMessage::Text { event: Ok(described), .. })) ==> {
            &&& described.event matches ServerEvent::Error { message: m } ==> first_message_error(
                message,
            ) == Some("Failed to create the session: "@ + m@)
            &&& !(described.event is Error) && !(described.event is SessionCreated)
                ==> first_message_error(message) == Some(
                "Unexpected event in response to session creation: "@ + described.description@,
            )
        },
{
}

/// Turns are detected from what is said, in any language, by the smart model, as configured. The model
/// does not answer.
pub proof fn law_turns_are_detected(configured: Option<TurnDetection>)
    ensures
        ({
            let s = turn_settings(configured);
            &&& s.detector == Detector::AzureSemanticVadMultilingual
            &&& s.end_of_utterance.model == EndOfUtteranceModel::SmartEndOfTurnDetection
            &&& s.create_response == false
            &&& configured is None ==> s.end_of_utterance.threshold_level is None
            &&& configured is None ==> s.end_of_utterance.timeout_ms is None
            &&& configured matches Some(c) ==> s.end_of_utterance.threshold_level
                == c.threshold_level && s.end_of_utterance.timeout_ms == c.timeout_ms
        }),
{
}

/// Where a transcription connects to: a secure socket, with the version and the model as the whole
/// query.
pub proof fn law_endpoints(endpoint: Seq<char>, model: Seq<char>, version: Seq<char>)
    ensures
        query_pairs(model, version).len() == 2,
        query_pairs(model, version)[0] == ("api-version"@, version),
        query_pairs(model, version)[1] == ("model"@, model),
        endpoint.len() > 0 && !is_space(endpoint[0]) && !is_space(endpoint[endpoint.len() - 1])
            ==> match url_read(endpoint) {
            Err(cause) => voice_live_url(endpoint, model, version) == Err::<
                Seq<char>,
                Seq<Seq<char>>,
            >(seq!["Invalid Voice Live endpoint URL: "@ + endpoint, cause]),
            Ok(url) => {
                &&& url_scheme(url) == "wss"@ ==> voice_live_url(endpoint, model, version) == Ok::<
                    Seq<char>,
                    Seq<Seq<char>>,
                >(url_with_pairs(url_without_query(url), query_pairs(model, version)))
                &&& url_scheme(url) != "wss"@ ==> voice_live_url(endpoint, model, version) == Err::<
                    Seq<char>,
                    Seq<Seq<char>>,
                >(
                    seq![
                        "Unsupported Voice Live endpoint URL scheme: "@ + url_scheme(url)
                            + ". Use wss://"@,
                    ],
                )
            },
        },
{
    law_trimming(endpoint);
}

/// Reports, settings and the state of the client are shown as they are.
pub proof fn law_transcription_is_shown(
    event: ServiceOutputEvent,
    settings: SessionSettings,
    client: Client,
)
    ensures
        match event {
            ServiceOutputEvent::SessionUpdated { message } => event@ is SessionUpdated
                && event@->message == json_text(message),
            ServiceOutputEvent::SpeechStarted { audio_start_ms } => event@ is SpeechStarted
                && event@->SpeechStarted_audio_start_ms == audio_start_ms,
            ServiceOutputEvent::SpeechStopped { audio_end_ms } => event@ is SpeechStopped
                && event@->SpeechStopped_audio_end_ms == audio_end_ms,
            ServiceOutputEvent::SpeechCommitted { item_id } => event@ is SpeechCommitted
                && event@->item_id == item_id@,
            ServiceOutputEvent::SpeechTimeout { .. } => event@ is SpeechTimeout,
            ServiceOutputEvent::Segment { text, .. } => event@ is Segment && event@->text == text@,
        },
        settings@.noise_reduction is Some <==> settings.noise_reduction is Some,
        settings.noise_reduction is Some ==> settings@.noise_reduction->0 == json_text(
            settings.noise_reduction->0,
        ),
        settings@.transcription_language is Some <==> settings.transcription_language is Some,
        settings.transcription_language is Some ==> settings@.transcription_language->0
            == settings.transcription_language->0@,
        settings@.transcription_model == settings.transcription_model@,
        settings@.turn_detection == settings.turn_detection,
        client@.transcripts == client.transcription_state@,
        client@.speakers == client.segment_speakers@,
{
}

/// A conversation connects with the model and the version of the parameters, or else the default
/// version.
pub proof fn law_connections(params: Params, r: Result<Host, Error>)
    requires
        call_ensures(
            MicrosoftVoiceLiveTranscribe::conversation,
            (&MicrosoftVoiceLiveTranscribe, &params),
            r,
        ),
    ensures
        r matches Ok(host) ==> {
            &&& host.api_key@ == params.api_key@
            &&& params.api_version is Some ==> Ok::<Seq<char>, Seq<Seq<char>>>(host.wss_url@)
                == voice_live_url(params.endpoint@, params.model@, params.api_version->0@)
            &&& params.api_version is None ==> Ok::<Seq<char>, Seq<Seq<char>>>(host.wss_url@)
                == voice_live_url(params.endpoint@, params.model@, "2026-06-01-preview"@)
        },
{
}

/// A transcription begins with the settings of the parameters, and without answers of the model.
pub proof fn law_begun_transcriptions(
    client: Client,
    format: AudioFormat,
    params: Params,
    message: Option<Result<SocketMessage<DescribedEvent>, String>>,
    r: Result<ClientEvent, Error>,
)
    requires
        call_ensures(Client::begin, (&client, format, &params, message), r),
    ensures
        r is Ok <==> format.channels == 1 && format.sample_rate == 24000 && first_message_error(
            message,
        ) is None,
        r matches Ok(event) ==> {
            let s = event->session@;
            &&& event is SessionUpdate
            &&& s.transcription_model == params.transcription_model@
            &&& s.transcription_language is Some <==> params.language is Some
            &&& params.language is Some ==> s.transcription_language->0 == params.language->0@
            &&& s.noise_reduction is Some <==> params.noise_reduction is Some
            &&& params.noise_reduction is Some ==> s.noise_reduction->0 == json_text(
                params.noise_reduction->0,
            )
            &&& s.turn_detection.create_response == false
            &&& s.turn_detection.detector == Detector::AzureSemanticVadMultilingual
            &&& s.turn_detection.end_of_utterance.model
                == EndOfUtteranceModel::SmartEndOfTurnDetection
        },
{
}

/// A round of a transcription: audio is sent and billed, and complete transcripts are put out as final
/// texts.
pub proof fn law_rounds_of_a_transcription(
    client: &mut Client,
    event: TranscribeEvent,
    language: Option<&str>,
    out: &mut Vec<Emission<ServiceOutputEvent>>,
    r: Result<Step, Error>,
)
    requires
        event matches TranscribeEvent::Input(Some(Input::Audio { frame })) ==> frame.format.channels
            == 1 && frame.format.sample_rate > 0 && frame.samples@.len() <= usize::MAX,
        call_ensures(Client::transcribe, (client, event, language, out), r),
    ensures
        event matches TranscribeEvent::Input(Some(Input::Audio { frame })) ==> {
            let o = emissions(final(out)@);
            let n = old(out)@.len() as int;
            &&& r is Ok && r->Ok_0.flow is Continue
            &&& r->Ok_0.event is Some && r->Ok_0.event->0 is InputAudioBufferAppend
            &&& base64_bytes(r->Ok_0.event->0->audio@).len() == 2 * frame.samples@.len()
            &&& o.len() == n + 1
            &&& o[n] is BillingRecords
            &&& o[n]->records[0].name == "input:audio"@
        },
        event matches TranscribeEvent::Message(
            Some(
                Ok(
                    SocketMessage::Text {
                        event: Ok(
                            ServerEvent::ConversationItemInputAudioTranscriptionCompleted {
                                transcript,
                                ..
                            },
                        ),
                        ..
                    },
                ),
            ),
        ) ==> (transcript@.len() > 0 ==> {
            let o = emissions(final(out)@);
            let n = old(out)@.len() as int;
            &&& r is Ok && r->Ok_0.event is None
            &&& o.len() == n + 1
            &&& o[n] is Text
            &&& o[n]->is_final == true
            &&& o[n]->text == transcript@
        }),
        event matches TranscribeEvent::Input(None) ==> r is Ok && r->Ok_0.flow is End,
        event matches TranscribeEvent::Message(None) ==> r is Ok && r->Ok_0.flow is End,
{
    assert(emissions(old(out)@).len() == old(out)@.len());
    if let TranscribeEvent::Input(Some(Input::Audio { frame })) = event {
        let told = crate::text::opt_str_view(language);
        law_audio_is_sent_and_billed(old(client)@, frame, told);
    }
}

/// A transcript that is complete is put out as a final text with its speaker, and a piece of one as a
/// text that is not final, with all pieces before it. Both are in the language of the parameters.
pub proof fn law_server_events(
    client: &mut Client,
    event: ServerEvent,
    raw: &str,
    out: &mut Vec<Emission<ServiceOutputEvent>>,
    language: Option<&str>,
    r: Result<(), Error>,
)
    requires
        call_ensures(Client::handle_server_event, (client, event, raw, out, language), r),
    ensures
        ({
            let before = emissions(old(out)@);
            let o = emissions(final(out)@);
            let n = old(out)@.len() as int;
            let texts = old(client)@.transcripts;
            let speakers = old(client)@.speakers;
            &&& n <= o.len() && o.take(n) == before
            &&& event matches ServerEvent::ConversationItemInputAudioTranscriptionCompleted {
                item_id,
                content_index,
                transcript,
            } ==> {
                let part = InputPart { item: item_id@, content: content_index };
                let known = texts.contains_key(part) && texts[part].len() > 0;
                &&& r is Ok
                &&& final(client)@.transcripts == texts.remove(part)
                &&& final(client)@.speakers == speakers.remove(item_id@)
                &&& transcript@.len() == 0 && !known ==> o == before
                &&& transcript@.len() > 0 || known ==> {
                    &&& o.len() == n + 1
                    &&& o[n] is Text
                    &&& o[n]->is_final
                    &&& o[n]->text == if transcript@.len() > 0 {
                        transcript@
                    } else {
                        texts[part]
                    }
                    &&& o[n]->language is Some <==> language is Some
                    &&& language is Some ==> o[n]->language->0 == language->0@
                    &&& speakers.contains_key(item_id@) ==> o[n]->speaker == Some(
                        SpeakerView::Named(speakers[item_id@]),
                    )
                    &&& !speakers.contains_key(item_id@) ==> o[n]->speaker is None
                }
            }
            &&& event matches ServerEvent::ConversationItemInputAudioTranscriptionDelta {
                item_id,
                content_index,
                delta,
            } ==> {
                let part = InputPart { item: item_id@, content: content_index };
                &&& r is Ok
                &&& o.len() == n + 1
                &&& o[n] is Text
                &&& !o[n]->is_final
                &&& texts.contains_key(part) ==> o[n]->text == texts[part] + delta@
                &&& !texts.contains_key(part) ==> o[n]->text == delta@
                &&& o[n]->language is Some <==> language is Some
                &&& language is Some ==> o[n]->language->0 == language->0@
                &&& o[n]->speaker is None
                &&& final(client)@.transcripts == texts.insert(part, o[n]->text)
                &&& final(client)@.speakers == speakers
            }
        }),
{
    let before = emissions(old(out)@);
    let told = crate::text::opt_str_view(language);
    let h = event_handled(old(client)@, event, raw@, told);
    assert(before.len() == old(out)@.len());
    assert((before + h.out).take(before.len() as int) =~= before);
    assert(h.out.len() == 0 ==> before + h.out =~= before);
    if let ServerEvent::ConversationItemInputAudioTranscriptionCompleted {
        item_id,
        content_index,
        transcript,
    } = event {
        law_transcripts_are_final(old(client)@, item_id, content_index, transcript, raw@, told);
    }
    if let ServerEvent::ConversationItemInputAudioTranscriptionDelta {
        item_id,
        content_index,
        delta,
    } = event {
        law_pieces_are_put_out(old(client)@, item_id, content_index, delta, raw@, told);
    }
}

} // verus!

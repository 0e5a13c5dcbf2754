//! What holds of a transcription, response by response.

use vstd::prelude::*;

use crate::audio::byte_seqs;
use crate::audio::chunks_8192;
use crate::audio::law_chunks_keep_bytes;
use crate::audio::le_bytes;
use crate::audio::lemma_duration_fits;
use crate::audio::AudioFormat;
use crate::audio::AudioFrame;
use crate::error::Error;
use crate::google_transcribe::client::recognizer_name;
use crate::google_transcribe::client::requested;
use crate::google_transcribe::client::AudioEncoding;
use crate::google_transcribe::client::StreamConfig;
use crate::google_transcribe::client::TranscribeClient;
use crate::google_transcribe::params::bearer;
use crate::google_transcribe::params::config_for;
use crate::google_transcribe::params::project_in;
use crate::google_transcribe::params::Region;
use crate::google_transcribe::params::TranscribeParams;
use crate::google_transcribe::transcribe::code_name;
use crate::google_transcribe::transcribe::end_exit;
use crate::google_transcribe::transcribe::first_language;
use crate::google_transcribe::transcribe::forward_audio_and_emit_billing;
use crate::google_transcribe::transcribe::handle_stream_error;
use crate::google_transcribe::transcribe::hypotheses;
use crate::google_transcribe::transcribe::is_stream_limit;
use crate::google_transcribe::transcribe::promoted;
use crate::google_transcribe::transcribe::responded;
use crate::google_transcribe::transcribe::should_restart_for_stream_limit;
use crate::google_transcribe::transcribe::stream_failed;
use crate::google_transcribe::transcribe::transcribe_and_process_stream_session;
use crate::google_transcribe::transcribe::Code;
use crate::google_transcribe::transcribe::ConversationAction;
use crate::google_transcribe::transcribe::ConversationEvent;
use crate::google_transcribe::transcribe::GoogleTranscribe;
use crate::google_transcribe::transcribe::RecognitionResult;
use crate::google_transcribe::transcribe::RecognizeResponse;
use crate::google_transcribe::transcribe::SessionExit;
use crate::google_transcribe::transcribe::SessionView;
use crate::google_transcribe::transcribe::SpokenText;
use crate::google_transcribe::transcribe::StreamError;
use crate::google_transcribe::transcribe::StreamSession;
use crate::google_transcribe::transcribe::StreamStart;
use crate::google_transcribe::transcribe::StreamTextOutput;
use crate::input::Input;
use crate::json::json_read;
use crate::json::json_string_member;
use crate::language::listed_codes;
use crate::modality::OutputModality;
use crate::output::emissions;
use crate::output::Emission;
use crate::text::all_space;
use crate::text::folded_text;
use crate::text::is_space;
use crate::text::is_without_space_around;
use crate::text::law_trimming;
use crate::text::occurs_at;
use crate::text::same_but_for_case;

verus! {

/// Whether a text begins and ends with something else than white space.
pub open spec fn is_tight(text: Seq<char>) -> bool {
    text.len() > 0 && !is_space(text[0]) && !is_space(text[text.len() - 1])
}

/// A single final result is put out as a final text: its first alternative without the white space
/// around it, with the language that was recognized if languages are told. No text is pending after
/// it. The text is empty only if the alternative is white space throughout.
pub proof fn law_final_results_are_put_out(
    state: SessionView,
    response: RecognizeResponse,
    include_language: bool,
)
    requires
        response.results@.len() == 1,
        response.results@[0].is_final,
        response.results@[0].alternatives@.len() > 0,
    ensures
        ({
            let h = responded(state, response, include_language);
            let said = response.results@[0].alternatives@[0]@;
            let code = response.results@[0].language_code@;
            &&& h.out.len() == 1
            &&& h.out[0] is Text
            &&& h.out[0]->is_final == true
            &&& is_without_space_around(h.out[0]->text, said)
            &&& is_tight(said) ==> h.out[0]->text == said
            &&& h.out[0]->text.len() == 0 <==> all_space(said)
            &&& h.out[0]->speaker is None
            &&& h.out[0]->language is Some <==> include_language && !all_space(code)
            &&& h.out[0]->language is Some ==> is_without_space_around(
                h.out[0]->language->0,
                code,
            )
            &&& h.out[0]->language is Some && is_tight(code) ==> h.out[0]->language->0 == code
            &&& h.state.pending is None
            &&& h.state.saw_end == (state.saw_end || response.end_of_single_utterance)
        }),
{
    law_trimming(response.results@[0].alternatives@[0]@);
    law_trimming(response.results@[0].language_code@);
}

/// Any other results are put out together as a text that is not final: their first alternatives one
/// after the other, without the white space around them, with the first language that is told if
/// languages are. That text is pending from then on. Nothing is put out of white space only.
pub proof fn law_other_results_are_not_final(
    state: SessionView,
    response: RecognizeResponse,
    include_language: bool,
)
    requires
        !(response.results@.len() == 1 && response.results@[0].is_final
            && response.results@[0].alternatives@.len() > 0),
    ensures
        ({
            let h = responded(state, response, include_language);
            let said = hypotheses(response.results@);
            &&& h.state.saw_end == (state.saw_end || response.end_of_single_utterance)
            &&& all_space(said) ==> h.out.len() == 0 && h.state.pending == state.pending
            &&& !all_space(said) ==> {
                &&& h.out.len() == 1
                &&& h.out[0] is Text
                &&& h.out[0]->is_final == false
                &&& is_without_space_around(h.out[0]->text, said)
                &&& is_tight(said) ==> h.out[0]->text == said
                &&& h.out[0]->speaker is None
                &&& include_language ==> h.out[0]->language == first_language(response.results@)
                &&& !include_language ==> h.out[0]->language is None
                &&& h.state.pending is Some
                &&& h.state.pending->0.text == h.out[0]->text
                &&& h.state.pending->0.language == h.out[0]->language
            }
        }),
{
    law_trimming(hypotheses(response.results@));
}

/// The first alternatives of results stand one after the other, with nothing between them, and the
/// first language is that of the first result that tells one.
pub proof fn law_alternatives_and_languages(
    results: Seq<RecognitionResult>,
    result: RecognitionResult,
)
    ensures
        hypotheses(Seq::empty()).len() == 0,
        result.alternatives@.len() > 0 ==> hypotheses(results.push(result)) == hypotheses(results)
            + result.alternatives@[0]@,
        result.alternatives@.len() == 0 ==> hypotheses(results.push(result)) == hypotheses(results),
        first_language(Seq::empty()) is None,
        all_space(result.language_code@) ==> first_language(seq![result] + results)
            == first_language(results),
        !all_space(result.language_code@) ==> first_language(seq![result] + results) is Some
            && is_without_space_around(
            first_language(seq![result] + results)->0,
            result.language_code@,
        ),
        is_tight(result.language_code@) ==> first_language(seq![result] + results) == Some(
            result.language_code@,
        ),
{
    assert(results.push(result).drop_last() =~= results);
    assert((seq![result] + results).drop_first() =~= results);
    law_trimming(result.language_code@);
    if is_tight(result.language_code@) && all_space(result.language_code@) {
        assert(is_space(result.language_code@[0]));
    }
}

/// A text that is pending when a stream ends is put out as a final one.
pub proof fn law_pending_texts_become_final(pending: Option<SpokenText>)
    ensures
        pending is None ==> promoted(pending).len() == 0,
        pending matches Some(text) ==> {
            let out = promoted(pending);
            &&& out.len() == 1
            &&& out[0] is Text
            &&& out[0]->is_final == true
            &&& out[0]->text == text.text
            &&& out[0]->language == text.language
            &&& out[0]->speaker is None
        },
{
}

/// A stream that failed is begun again if that was to be expected: if it was cancelled after the end
/// of a single utterance, or it was aborted for having reached its limit. Else the failure is
/// reported.
pub proof fn law_failed_streams(
    model: Seq<char>,
    saw_end: bool,
    code: Code,
    message: String,
    error: crate::error::Error,
)
    ensures
        ({
            let r = stream_failed(model, saw_end, StreamError::Status { code, message, error });
            &&& saw_end && code == Code::Cancelled ==> r == Ok::<SessionExit, Seq<Seq<char>>>(
                SessionExit::StoppedBySingleUtterance,
            )
            &&& is_stream_limit(code, message@) ==> r == Ok::<SessionExit, Seq<Seq<char>>>(
                SessionExit::StoppedByTimeout,
            )
            &&& !(saw_end && code == Code::Cancelled) && !is_stream_limit(code, message@) ==> r
                == Err::<SessionExit, Seq<Seq<char>>>(
                seq![
                    "Google streaming_recognize stopped (model="@ + model + ", grpc_code="@
                        + code_name(code) + ", grpc_message="@ + message@ + ")"@,
                ] + error@,
            )
        }),
        stream_failed(model, saw_end, StreamError::Other { error }) == Err::<
            SessionExit,
            Seq<Seq<char>>,
        >(seq!["Google streaming_recognize stopped with a non-gRPC error"@] + error@),
        end_exit(true) == SessionExit::StoppedBySingleUtterance,
        end_exit(false) == SessionExit::AudioInputEnded,
{
}

/// A stream has reached its limit if it was aborted with a message that says so, in whatever case.
pub proof fn law_stream_limits(
    code: Code,
    message: Seq<char>,
    before: Seq<char>,
    phrase: Seq<char>,
    after: Seq<char>,
)
    ensures
        ({
            let limit = "max duration of 5 minutes reached for stream"@;
            &&& code != Code::Aborted ==> !is_stream_limit(code, message)
            &&& same_but_for_case(phrase, limit) ==> is_stream_limit(
                Code::Aborted,
                before + phrase + after,
            )
            &&& is_stream_limit(code, message) ==> exists|i: int|
                0 <= i <= i + limit.len() <= message.len() && same_but_for_case(
                    #[trigger] message.subrange(i, i + limit.len()),
                    limit,
                )
        }),
{
    let limit = "max duration of 5 minutes reached for stream"@;
    let n = limit.len();
    if same_but_for_case(phrase, limit) {
        let whole = before + phrase + after;
        assert(folded_text(phrase).len() == phrase.len());
        assert(folded_text(limit).len() == n);
        assert(phrase.len() == n);
        let m = before.len() as int;
        assert(folded_text(whole).subrange(m, m + n) =~= folded_text(phrase));
        assert(occurs_at(folded_text(whole), folded_text(limit), m));
    }
    if is_stream_limit(code, message) {
        let i = choose|i: int| occurs_at(folded_text(message), folded_text(limit), i);
        assert(folded_text(message.subrange(i, i + n)) =~= folded_text(message).subrange(i, i + n));
        assert(same_but_for_case(message.subrange(i, i + n), limit));
    }
}

/// The names of the codes.
pub proof fn law_names_of_codes()
    ensures
        code_name(Code::Success) == "Ok"@,
        code_name(Code::Cancelled) == "Cancelled"@,
        code_name(Code::Unknown) == "Unknown"@,
        code_name(Code::InvalidArgument) == "InvalidArgument"@,
        code_name(Code::DeadlineExceeded) == "DeadlineExceeded"@,
        code_name(Code::NotFound) == "NotFound"@,
        code_name(Code::AlreadyExists) == "AlreadyExists"@,
        code_name(Code::PermissionDenied) == "PermissionDenied"@,
        code_name(Code::ResourceExhausted) == "ResourceExhausted"@,
        code_name(Code::FailedPrecondition) == "FailedPrecondition"@,
        code_name(Code::Aborted) == "Aborted"@,
        code_name(Code::OutOfRange) == "OutOfRange"@,
        code_name(Code::Unimplemented) == "Unimplemented"@,
        code_name(Code::Internal) == "Internal"@,
        code_name(Code::Unavailable) == "Unavailable"@,
        code_name(Code::DataLoss) == "DataLoss"@,
        code_name(Code::Unauthenticated) == "Unauthenticated"@,
{
}

/// A stream begins with what the parameters ask for, in the format of the audio. Each result has one
/// alternative.
pub proof fn law_streams_begin_as_asked(
    client: TranscribeClient,
    params: TranscribeParams,
    interim_results: bool,
    format: AudioFormat,
)
    ensures
        ({
            let c = requested(client, params, interim_results, format);
            &&& c.recognizer == "projects/"@ + client.project_id@ + "/locations/"@
                + client.location@ + "/recognizers/_"@
            &&& c.recognizer == recognizer_name(client.project_id@, client.location@)
            &&& c.model == params.model@
            &&& c.language_codes == listed_codes(params.language@)
            &&& c.diarization is Some <==> params.diarization
            &&& c.diarization matches Some(d) ==> d.min_speaker_count == 0 && d.max_speaker_count
                == 0
            &&& c.max_alternatives == 1
            &&& c.phrase is Some <==> params.numerals
            &&& c.phrase matches Some((phrase, boost)) ==> phrase == "$OOV_CLASS_DIGIT_SEQUENCE"@
                && boost == 20
            &&& c.encoding == AudioEncoding::Linear16
            &&& c.sample_rate == format.sample_rate
            &&& c.channels == format.channels
            &&& c.interim_results == interim_results
        }),
{
}

/// Each region has its own endpoint and location.
pub proof fn law_regions()
    ensures
        config_for(Region::Global).endpoint@ == "https://speech.googleapis.com"@,
        config_for(Region::Global).location@ == "global"@,
        config_for(Region::Eu).endpoint@ == "https://eu-speech.googleapis.com"@,
        config_for(Region::Eu).location@ == "eu"@,
        config_for(Region::Us).endpoint@ == "https://us-speech.googleapis.com"@,
        config_for(Region::Us).location@ == "us"@,
{
}

/// The project is the member of the credentials with that name.
pub proof fn law_projects(path: Seq<char>, credentials: Seq<char>)
    ensures
        match json_read(credentials) {
            Err(cause) => project_in(path, credentials) == Err::<Seq<char>, Seq<Seq<char>>>(
                seq!["GOOGLE_APPLICATION_CREDENTIALS does not contain valid JSON: "@ + path, cause],
            ),
            Ok(value) => match json_string_member(value, "project_id"@) {
                Some(project) => project_in(path, credentials) == Ok::<Seq<char>, Seq<Seq<char>>>(
                    project,
                ),
                None => project_in(path, credentials) == Err::<Seq<char>, Seq<Seq<char>>>(
                    seq!["project_id missing in GOOGLE_APPLICATION_CREDENTIALS JSON"@],
                ),
            },
        },
{
}

/// The first request of a stream and the state of a session are shown as they are.
pub proof fn law_streams_are_shown(
    config: StreamConfig,
    session: StreamSession,
    output: StreamTextOutput,
)
    ensures
        config@.recognizer == config.recognizer@,
        config@.model == config.model@,
        config@.language_codes.len() == config.language_codes@.len(),
        forall|i: int|
            0 <= i < config.language_codes@.len() ==> #[trigger] config@.language_codes[i]
                == config.language_codes@[i]@,
        config@.diarization == config.diarization,
        config@.max_alternatives == config.max_alternatives,
        config@.phrase is Some <==> config.phrase is Some,
        config.phrase matches Some((phrase, boost)) ==> config@.phrase == Some((phrase@, boost)),
        config@.encoding == config.encoding,
        config@.sample_rate == config.sample_rate,
        config@.channels == config.channels,
        config@.interim_results == config.interim_results,
        session.state().saw_end == session.saw_end_of_single_utterance,
        session.state().pending == session.text_output@,
        output@ is Some <==> output.pending_interim_text is Some,
        output.pending_interim_text matches Some((text, language)) ==> {
            &&& output@->0.text == text@
            &&& output@->0.language is Some <==> language is Some
            &&& language is Some ==> output@->0.language->0 == language->0@
        },
{
}

/// Audio goes to the stream that is open, and any other input ends the audio. A stream that stopped
/// while audio comes is begun again; one that came to the end of the audio ends the conversation.
pub proof fn law_conversations_go_on(event: ConversationEvent, r: ConversationAction)
    requires
        call_ensures(GoogleTranscribe::conversation, (&GoogleTranscribe, event), r),
    ensures
        match event {
            ConversationEvent::Input(Some(Input::Audio { frame })) => r
                == ConversationAction::Forward(frame),
            ConversationEvent::Input(_) => r is CloseAudio,
            ConversationEvent::SessionExit(SessionExit::AudioInputEnded) => r is End,
            ConversationEvent::SessionExit(SessionExit::StoppedBySingleUtterance) => r is Restart,
            ConversationEvent::SessionExit(SessionExit::StoppedByTimeout) => r is Restart,
        },
{
}

/// Interim results are asked for if interim texts are.
pub proof fn law_interim_results(modalities: Vec<OutputModality>, r: bool)
    requires
        call_ensures(GoogleTranscribe::interim_results, (&modalities,), r),
    ensures
        r <==> exists|i: int|
            0 <= i < modalities@.len() && #[trigger] modalities@[i] == OutputModality::InterimText,
{
    if r {
        let i = choose|i: int|
            0 <= i < modalities@.len() && modalities@[i] == OutputModality::InterimText;
        assert(modalities@[i] == OutputModality::InterimText);
    }
}

/// The time of audio that goes to the stream is billed now. Audio that the stream does not take ends
/// the audio and is not billed.
pub proof fn law_forwarded_audio_is_billed(
    open: &mut bool,
    produced: bool,
    out: &mut Vec<Emission<()>>,
    frame: AudioFrame,
)
    requires
        frame.format.valid(),
        frame.samples@.len() <= usize::MAX,
        call_ensures(forward_audio_and_emit_billing, (open, produced, out, &frame), ()),
    ensures
        *final(open) <==> *old(open) && produced,
        *old(open) && !produced ==> final(out)@ == old(out)@,
        !*old(open) || produced ==> {
            let o = emissions(final(out)@);
            let n = old(out)@.len() as int;
            let per_second = frame.format.channels * frame.format.sample_rate;
            &&& o.len() == n + 1
            &&& o.take(n) == emissions(old(out)@)
            &&& o[n] is BillingRecords
            &&& o[n]->BillingRecords_request_id is None
            &&& o[n]->scope is None
            &&& o[n]->schedule is Now
            &&& o[n]->records.len() == 1
            &&& o[n]->records[0].name == "input:audio"@
            &&& o[n]->records[0].value is Duration
            &&& o[n]->records[0].value->Duration_0 * per_second <= frame.samples@.len()
                * 1_000_000_000
            &&& frame.samples@.len() * 1_000_000_000 < (o[n]->records[0].value->Duration_0 + 1)
                * per_second
        },
{
    let n = old(out)@.len() as int;
    assert(emissions(old(out)@).len() == n);
    assert(frame@.samples == frame.samples@);
    lemma_duration_fits(frame.format, frame.samples@.len());
    if !*old(open) || produced {
        assert(emissions(final(out)@).take(n) =~= emissions(old(out)@));
    }
}

/// When a stream ends, the text that is pending is put out as a final one, and the reason is told.
pub proof fn law_ended_streams(
    session: &mut StreamSession,
    out: &mut Vec<Emission<()>>,
    r: Result<Option<SessionExit>, Error>,
)
    requires
        call_ensures(StreamSession::process_stream_session, (session, None, out), r),
    ensures
        r is Ok && r->Ok_0 is Some,
        old(session).saw_end_of_single_utterance ==> r->Ok_0->0
            == SessionExit::StoppedBySingleUtterance,
        !old(session).saw_end_of_single_utterance ==> r->Ok_0->0 == SessionExit::AudioInputEnded,
        final(session).text_output@ is None,
        old(session).text_output@ is None ==> emissions(final(out)@) == emissions(old(out)@),
        old(session).text_output@ matches Some(text) ==> {
            let o = emissions(final(out)@);
            let n = old(out)@.len() as int;
            &&& o.len() == n + 1
            &&& o.take(n) == emissions(old(out)@)
            &&& o[n] is Text
            &&& o[n]->is_final == true
            &&& o[n]->text == text.text
            &&& o[n]->language == text.language
            &&& o[n]->speaker is None
        },
{
    let n = old(out)@.len() as int;
    assert(emissions(old(out)@).len() == n);
    assert(old(session).state().pending == old(session).text_output@);
    assert(final(session).state().pending == final(session).text_output@);
    if old(session).text_output@ is Some {
        assert(emissions(final(out)@).take(n) =~= emissions(old(out)@));
    } else {
        assert(emissions(final(out)@) =~= emissions(old(out)@));
    }
}

/// A stream begins with what the parameters ask for, and tells languages if there is more than one.
pub proof fn law_begun_streams(
    client: TranscribeClient,
    params: TranscribeParams,
    interim_results: bool,
    format: AudioFormat,
    r: Result<StreamStart, Error>,
)
    requires
        call_ensures(
            transcribe_and_process_stream_session,
            (&client, &params, interim_results, format),
            r,
        ),
    ensures
        r is Err <==> listed_codes(params.language@).len() == 0,
        r is Err ==> r->Err_0@ == seq!["language must contain at least one locale code"@],
        r matches Ok(start) ==> {
            &&& start.config@.model == params.model@
            &&& start.config@.language_codes == listed_codes(params.language@)
            &&& start.config@.max_alternatives == 1
            &&& start.config@.interim_results == interim_results
            &&& start.config@.sample_rate == format.sample_rate
            &&& start.config@.channels == format.channels
            &&& start.session.model@ == params.model@
            &&& start.session.include_detected_language == (listed_codes(params.language@).len()
                > 1)
            &&& start.session.saw_end_of_single_utterance == false
            &&& start.session.text_output@ is None
        },
{
    if let Ok(start) = r {
        assert(start.session.state().saw_end == start.session.saw_end_of_single_utterance);
    }
}

/// The audio of the requests is that of the samples, and a token is sent as a bearer token.
pub proof fn law_audio_of_requests(samples: Vec<i16>, r: Vec<Vec<u8>>, token: &str, sent: String)
    requires
        call_ensures(TranscribeClient::audio_requests, (&samples,), r),
        call_ensures(bearer, (token,), sent),
    ensures
        byte_seqs(r@).flatten() == le_bytes(samples@),
        forall|i: int| 0 <= i < r@.len() ==> 0 < (#[trigger] r@[i])@.len() <= 8192,
        sent@ == "Bearer "@ + token@,
{
    law_chunks_keep_bytes(le_bytes(samples@));
    assert forall|i: int| 0 <= i < r@.len() implies 0 < (#[trigger] r@[i])@.len() <= 8192 by {
        assert(byte_seqs(r@)[i] == r@[i]@);
        assert(0 < chunks_8192(le_bytes(samples@))[i].len() <= 8192);
    }
}

/// A single result that is final is put out as a final text, without the white space around it.
/// Everything else that was heard is put out as a text that is not final and is kept until the next
/// one.
pub proof fn law_processed_responses(
    session: &mut StreamSession,
    response: RecognizeResponse,
    out: &mut Vec<Emission<()>>,
)
    requires
        call_ensures(StreamSession::process_response, (session, response, out), ()),
    ensures
        ({
            let o = emissions(final(out)@);
            let before = emissions(old(out)@);
            let n = old(out)@.len() as int;
            let results = response.results@;
            let is_final = results.len() == 1 && results[0].is_final
                && results[0].alternatives@.len() > 0;
            let said = if is_final {
                results[0].alternatives@[0]@
            } else {
                hypotheses(results)
            };
            &&& n <= o.len() <= n + 1
            &&& o.take(n) == before
            &&& o.len() == n + 1 <==> is_final || !all_space(said)
            &&& o.len() == n + 1 ==> {
                &&& o[n] is Text
                &&& o[n]->is_final == is_final
                &&& is_without_space_around(o[n]->text, said)
                &&& is_tight(said) ==> o[n]->text == said
                &&& !all_space(said) ==> o[n]->text.len() > 0
                &&& o[n]->speaker is None
                &&& !old(session).include_detected_language ==> o[n]->language is None
                &&& old(session).include_detected_language && results.len() == 1 && is_tight(
                    results[0].language_code@,
                ) ==> o[n]->language == Some(results[0].language_code@)
                &&& is_final ==> final(session).text_output@ is None
                &&& !is_final ==> final(session).text_output@ == Some(
                    SpokenText { text: o[n]->text, language: o[n]->language },
                )
            }
            &&& o.len() == n ==> final(session).text_output@ == old(session).text_output@
            &&& final(session).saw_end_of_single_utterance == (old(
                session).saw_end_of_single_utterance || response.end_of_single_utterance)
            &&& final(session).model == old(session).model
            &&& final(session).include_detected_language == old(session).include_detected_language
        }),
{
    let state = old(session).state();
    let detect = old(session).include_detected_language;
    let results = response.results@;
    let before = emissions(old(out)@);
    let h = responded(state, response, detect);
    assert(before.len() == old(out)@.len());
    assert((before + h.out).take(before.len() as int) =~= before);
    if results.len() == 1 && results[0].is_final && results[0].alternatives@.len() > 0 {
        law_final_results_are_put_out(state, response, detect);
    } else {
        law_other_results_are_not_final(state, response, detect);
        if results.len() == 1 {
            law_alternatives_and_languages(Seq::empty(), results[0]);
            assert(seq![results[0]] + Seq::<RecognitionResult>::empty() =~= results);
        }
    }
}

/// Texts are put out as they are: final ones are done with, and others are kept.
pub proof fn law_texts_of_streams(
    a: &mut StreamTextOutput,
    b: &mut StreamTextOutput,
    out: &mut Vec<Emission<()>>,
    other: &mut Vec<Emission<()>>,
    text: String,
    language: Option<String>,
)
    requires
        call_ensures(StreamTextOutput::final_text, (a, out, text, language), ()),
        call_ensures(StreamTextOutput::interim_text, (b, other, text, language), ()),
    ensures
        ({
            let o = emissions(final(out)@);
            let n = old(out)@.len() as int;
            &&& o.len() == n + 1 && o.take(n) == emissions(old(out)@)
            &&& o[n] is Text && o[n]->is_final && o[n]->text == text@ && o[n]->speaker is None
            &&& o[n]->language is Some <==> language is Some
            &&& language is Some ==> o[n]->language->0 == language->0@
            &&& final(a)@ is None
        }),
        ({
            let o = emissions(final(other)@);
            let n = old(other)@.len() as int;
            &&& o.len() == n + 1 && o.take(n) == emissions(old(other)@)
            &&& o[n] is Text && !o[n]->is_final && o[n]->text == text@ && o[n]->speaker is None
            &&& o[n]->language is Some <==> language is Some
            &&& language is Some ==> o[n]->language->0 == language->0@
            &&& final(b)@ == Some(SpokenText { text: text@, language: o[n]->language })
        }),
{
    assert(emissions(old(out)@).len() == old(out)@.len());
    assert(emissions(old(other)@).len() == old(other)@.len());
    assert(emissions(final(out)@).take(old(out)@.len() as int) =~= emissions(old(out)@));
    assert(emissions(final(other)@).take(old(other)@.len() as int) =~= emissions(old(other)@));
}

/// A stream that fails goes on in a new one where it was cancelled after an utterance or has lasted
/// too long. All other failures are reported.
pub proof fn law_failures_of_streams(
    model: &str,
    saw_end: bool,
    error: StreamError,
    r: Result<SessionExit, Error>,
    code: Code,
    message: &str,
    limit: bool,
)
    requires
        call_ensures(handle_stream_error, (model, saw_end, error), r),
        call_ensures(should_restart_for_stream_limit, (code, message), limit),
    ensures
        limit ==> code == Code::Aborted,
        code == Code::Aborted && same_but_for_case(
            message@,
            "max duration of 5 minutes reached for stream"@,
        ) ==> limit,
        error matches StreamError::Other { error: cause } ==> r is Err && r->Err_0@ == seq![
            "Google streaming_recognize stopped with a non-gRPC error"@,
        ] + cause@,
        error matches StreamError::Status { code: c, message: m, error: cause } ==> {
            &&& saw_end && c == Code::Cancelled ==> r is Ok && r->Ok_0
                == SessionExit::StoppedBySingleUtterance
            &&& c == Code::Aborted && same_but_for_case(
                m@,
                "max duration of 5 minutes reached for stream"@,
            ) ==> r is Ok && r->Ok_0 == SessionExit::StoppedByTimeout
            &&& c != Code::Aborted && !(saw_end && c == Code::Cancelled) ==> r is Err && r->Err_0@
                == seq![
                "Google streaming_recognize stopped (model="@ + model@ + ", grpc_code="@
                    + code_name(c) + ", grpc_message="@ + m@ + ")"@,
            ] + cause@
            &&& r is Ok ==> c == Code::Cancelled || c == Code::Aborted
        },
{
    let none = Seq::<char>::empty();
    law_stream_limits(code, message@, none, message@, none);
    assert(none + message@ + none =~= message@);
    if let StreamError::Status { code: c, message: m, error: cause } = error {
        law_stream_limits(c, m@, none, m@, none);
        assert(none + m@ + none =~= m@);
        law_failed_streams(model@, saw_end, c, m, cause);
    }
}

} // verus!

//! The course of a transcription: one stream after the other, until the audio ends.

use vstd::prelude::*;

use crate::audio::duration_nanos;
use crate::audio::AudioFormat;
use crate::audio::AudioFrame;
use crate::error::Error;
use crate::google_transcribe::client::requested;
use crate::google_transcribe::client::StreamConfig;
use crate::google_transcribe::client::TranscribeClient;
use crate::google_transcribe::params::TranscribeParams;
use crate::input::Input;
use crate::language::listed_codes;
use crate::modality::OutputModality;
use crate::output::bill_now;
use crate::output::duration_record;
use crate::output::emissions;
use crate::output::emit;
use crate::output::emit_duration_bill;
use crate::output::Emission;
use crate::output::EmissionView;
use crate::text::clone_opt;
use crate::text::concat3;
use crate::text::contains_ignore_ascii_case;
use crate::text::folded_text;
use crate::text::occurs;
use crate::text::opt_view;
use crate::text::trim;
use crate::text::trimmed;

verus! {

/// The transcription service.
#[derive(Debug, Clone, Copy, PartialEq, Eq, Structural)]
pub struct GoogleTranscribe;

/// Why a stream ended.
#[derive(Debug, Clone, Copy, PartialEq, Eq, Structural)]
pub enum SessionExit {
    AudioInputEnded,
    StoppedBySingleUtterance,
    StoppedByTimeout,
}

/// The status codes of remote calls.
#[derive(Debug, Clone, Copy, PartialEq, Eq, Structural)]
pub enum Code {
    Success,
    Cancelled,
    Unknown,
    InvalidArgument,
    DeadlineExceeded,
    NotFound,
    AlreadyExists,
    PermissionDenied,
    ResourceExhausted,
    FailedPrecondition,
    Aborted,
    OutOfRange,
    Unimplemented,
    Internal,
    Unavailable,
    DataLoss,
    Unauthenticated,
}

/// The name of a status code.
pub open spec fn code_name(code: Code) -> Seq<char> {
    match code {
        Code::Success => "Ok"@,
        Code::Cancelled => "Cancelled"@,
        Code::Unknown => "Unknown"@,
        Code::InvalidArgument => "InvalidArgument"@,
        Code::DeadlineExceeded => "DeadlineExceeded"@,
        Code::NotFound => "NotFound"@,
        Code::AlreadyExists => "AlreadyExists"@,
        Code::PermissionDenied => "PermissionDenied"@,
        Code::ResourceExhausted => "ResourceExhausted"@,
        Code::FailedPrecondition => "FailedPrecondition"@,
        Code::Aborted => "Aborted"@,
        Code::OutOfRange => "OutOfRange"@,
        Code::Unimplemented => "Unimplemented"@,
        Code::Internal => "Internal"@,
        Code::Unavailable => "Unavailable"@,
        Code::DataLoss => "DataLoss"@,
        Code::Unauthenticated => "Unauthenticated"@,
    }
}

impl Code {
    /// The name of the code.
    pub fn name(self) -> (r: &'static str)
        ensures
            r@ == code_name(self),
    {
        match self {
            Code::Success => "Ok",
            Code::Cancelled => "Cancelled",
            Code::Unknown => "Unknown",
            Code::InvalidArgument => "InvalidArgument",
            Code::DeadlineExceeded => "DeadlineExceeded",
            Code::NotFound => "NotFound",
            Code::AlreadyExists => "AlreadyExists",
            Code::PermissionDenied => "PermissionDenied",
            Code::ResourceExhausted => "ResourceExhausted",
            Code::FailedPrecondition => "FailedPrecondition",
            Code::Aborted => "Aborted",
            Code::OutOfRange => "OutOfRange",
            Code::Unimplemented => "Unimplemented",
            Code::Internal => "Internal",
            Code::Unavailable => "Unavailable",
            Code::DataLoss => "DataLoss",
            Code::Unauthenticated => "Unauthenticated",
        }
    }
}

/// Why a stream failed.
pub enum StreamError {
    /// The remote side said so.
    Status { code: Code, message: String, error: Error },
    /// Anything else.
    Other { error: Error },
}

/// One result of the recognition.
pub struct RecognitionResult {
    pub is_final: bool,
    pub language_code: String,
    /// The transcripts, most confident first.
    pub alternatives: Vec<String>,
}

/// One response of the recognizer. A response with a final result has no other result.
pub struct RecognizeResponse {
    pub end_of_single_utterance: bool,
    pub results: Vec<RecognitionResult>,
}

/// Whether a status tells that the stream has reached its longest duration.
pub open spec fn is_stream_limit(code: Code, message: Seq<char>) -> bool {
    code == Code::Aborted && occurs(
        folded_text(message),
        folded_text("max duration of 5 minutes reached for stream"@),
    )
}

/// Whether a stream is to be started anew because it has reached its longest duration.
pub fn should_restart_for_stream_limit(code: Code, message: &str) -> (r: bool)
    ensures
        r == is_stream_limit(code, message@),
{
    code == Code::Aborted && contains_ignore_ascii_case(
        message,
        "max duration of 5 minutes reached for stream",
    )
}

/// What comes of a stream that failed.
pub open spec fn stream_failed(
    model: Seq<char>,
    saw_end_of_single_utterance: bool,
    error: StreamError,
) -> Result<SessionExit, Seq<Seq<char>>> {
    match error {
        StreamError::Status { code, message, error } => {
            if saw_end_of_single_utterance && code == Code::Cancelled {
                Ok(SessionExit::StoppedBySingleUtterance)
            } else if is_stream_limit(code, message@) {
                Ok(SessionExit::StoppedByTimeout)
            } else {
                Err(
                    seq![
                        "Google streaming_recognize stopped (model="@ + model + ", grpc_code="@
                            + code_name(code) + ", grpc_message="@ + message@ + ")"@,
                    ] + error@,
                )
            }
        },
        StreamError::Other { error } => Err(
            seq!["Google streaming_recognize stopped with a non-gRPC error"@] + error@,
        ),
    }
}

/// Handles a stream that failed. The end of an utterance and the longest duration of a stream are
/// no errors.
pub fn handle_stream_error(
    model: &str,
    saw_end_of_single_utterance: bool,
    error: StreamError,
) -> (r: Result<SessionExit, Error>)
    ensures
        ({
            let outcome = stream_failed(model@, saw_end_of_single_utterance, error);
            &&& r is Ok <==> outcome is Ok
            &&& r matches Ok(exit) ==> outcome->Ok_0 == exit
            &&& r matches Err(e) ==> outcome->Err_0 == e@
        }),
{
    match error {
        StreamError::Status { code, message, error } => {
            if saw_end_of_single_utterance && code == Code::Cancelled {
                return Ok(SessionExit::StoppedBySingleUtterance);
            }
            if should_restart_for_stream_limit(code, message.as_str()) {
                return Ok(SessionExit::StoppedByTimeout);
            }
            let mut text = concat3(
                "Google streaming_recognize stopped (model=",
                model,
                ", grpc_code=",
            );
            text.append(code.name());
            text.append(", grpc_message=");
            text.append(message.as_str());
            text.append(")");
            Err(error.context(text.as_str()))
        },
        StreamError::Other { error } => Err(
            error.context("Google streaming_recognize stopped with a non-gRPC error"),
        ),
    }
}

/// A text with its language.
pub struct SpokenText {
    pub text: Seq<char>,
    pub language: Option<Seq<char>>,
}

/// The output of text for one stream. If the stream ends after a text that is not final, that text
/// is put out as the final one.
pub struct StreamTextOutput {
    pub pending_interim_text: Option<(String, Option<String>)>,
}

impl View for StreamTextOutput {
    type V = Option<SpokenText>;

    open spec fn view(&self) -> Option<SpokenText> {
        match self.pending_interim_text {
            Some((text, language)) => Some(
                SpokenText { text: text@, language: opt_view(language) },
            ),
            None => None,
        }
    }
}

/// The output of a spoken text.
pub open spec fn spoken(is_final: bool, text: SpokenText) -> EmissionView<()> {
    EmissionView::Text { is_final, text: text.text, language: text.language, speaker: None }
}

/// The output at the end of a stream.
pub open spec fn promoted(pending: Option<SpokenText>) -> Seq<EmissionView<()>> {
    match pending {
        Some(text) => seq![spoken(true, text)],
        None => Seq::empty(),
    }
}

impl StreamTextOutput {
    /// No text yet.
    pub fn new() -> (r: StreamTextOutput)
        ensures
            r@ is None,
    {
        StreamTextOutput { pending_interim_text: None }
    }

    /// Puts out a final text.
    pub fn final_text(
        &mut self,
        out: &mut Vec<Emission<()>>,
        text: String,
        language: Option<String>,
    )
        ensures
            final(self)@ is None,
            emissions(final(out)@) == emissions(old(out)@).push(
                spoken(true, SpokenText { text: text@, language: opt_view(language) }),
            ),
    {
        emit(out, Emission::Text { is_final: true, text, language, speaker: None });
        self.pending_interim_text = None;
    }

    /// Puts out a text that is not final, and remembers it.
    pub fn interim_text(
        &mut self,
        out: &mut Vec<Emission<()>>,
        text: String,
        language: Option<String>,
    )
        ensures
            final(self)@ == Some(SpokenText { text: text@, language: opt_view(language) }),
            emissions(final(out)@) == emissions(old(out)@).push(
                spoken(false, SpokenText { text: text@, language: opt_view(language) }),
            ),
    {
        self.pending_interim_text = Some((text.clone(), clone_opt(&language)));
        emit(out, Emission::Text { is_final: false, text, language, speaker: None });
    }

    /// Ends the output: puts out the text that is pending as final.
    pub fn finish(&mut self, out: &mut Vec<Emission<()>>)
        ensures
            final(self)@ is None,
            emissions(final(out)@) == emissions(old(out)@) + promoted(old(self)@),
    {
        let mut pending: Option<(String, Option<String>)> = None;
        core::mem::swap(&mut self.pending_interim_text, &mut pending);
        match pending {
            Some((text, language)) => {
                emit(out, Emission::Text { is_final: true, text, language, speaker: None });
            },
            None => {},
        }
        assert(emissions(out@) =~= emissions(old(out)@) + promoted(old(self)@));
    }
}

/// The first alternatives of all results, one after the other.
pub open spec fn hypotheses(results: Seq<RecognitionResult>) -> Seq<char>
    decreases results.len(),
{
    if results.len() == 0 {
        Seq::empty()
    } else {
        let before = hypotheses(results.drop_last());
        if results.last().alternatives@.len() > 0 {
            before + results.last().alternatives@[0]@
        } else {
            before
        }
    }
}

/// The language of the first result that has one.
pub open spec fn first_language(results: Seq<RecognitionResult>) -> Option<Seq<char>>
    decreases results.len(),
{
    if results.len() == 0 {
        None
    } else {
        let code = trimmed(results[0].language_code@);
        if code.len() > 0 {
            Some(code)
        } else {
            first_language(results.drop_first())
        }
    }
}

/// Whether the results are a single final one with a transcript.
pub open spec fn is_final_result(results: Seq<RecognitionResult>) -> bool {
    results.len() == 1 && results[0].is_final && results[0].alternatives@.len() > 0
}

/// The text of a final result. It may be empty: what was heard before may turn out to be nothing.
pub open spec fn final_result(result: RecognitionResult, include_language: bool) -> SpokenText {
    let code = trimmed(result.language_code@);
    SpokenText {
        text: trimmed(result.alternatives@[0]@),
        language: if include_language && code.len() > 0 {
            Some(code)
        } else {
            None
        },
    }
}

/// The text of results that are not final. They come with the spaces between them.
pub open spec fn interim_result(results: Seq<RecognitionResult>, include_language: bool) ->
    SpokenText {
    SpokenText {
        text: trimmed(hypotheses(results)),
        language: if include_language {
            first_language(results)
        } else {
            None
        },
    }
}

fn join_hypotheses(results: &Vec<RecognitionResult>) -> (r: String)
    ensures
        r@ == hypotheses(results@),
{
    let mut r = String::new();
    let mut i: usize = 0;
    assert(results@.take(0).len() == 0);
    assert(r@ =~= Seq::empty());
    while i < results.len()
        invariant
            i <= results@.len(),
            r@ == hypotheses(results@.take(i as int)),
        decreases results@.len() - i,
    {
        proof {
            assert(results@.take(i + 1).drop_last() =~= results@.take(i as int));
            assert(results@.take(i + 1).last() == results@[i as int]);
        }
        if results[i].alternatives.len() > 0 {
            r.append(results[i].alternatives[0].as_str());
        }
        i += 1;
    }
    assert(results@.take(i as int) =~= results@);
    r
}

fn find_language(results: &Vec<RecognitionResult>) -> (r: Option<String>)
    ensures
        opt_view(r) == first_language(results@),
{
    let mut i: usize = 0;
    assert(results@.skip(0) =~= results@);
    while i < results.len()
        invariant
            i <= results@.len(),
            first_language(results@) == first_language(results@.skip(i as int)),
        decreases results@.len() - i,
    {
        proof {
            assert(results@.skip(i as int)[0] == results@[i as int]);
            assert(results@.skip(i as int).drop_first() =~= results@.skip(i + 1));
        }
        let code = trim(results[i].language_code.as_str());
        if !code.as_str().is_empty() {
            return Some(code);
        }
        i += 1;
    }
    None
}

/// One stream of a transcription.
pub struct StreamSession {
    pub model: String,
    /// Whether texts are put out with the language that was detected.
    pub include_detected_language: bool,
    pub saw_end_of_single_utterance: bool,
    pub text_output: StreamTextOutput,
}

/// The state of a stream, as mathematical values.
pub struct SessionView {
    pub saw_end: bool,
    pub pending: Option<SpokenText>,
}

impl StreamSession {
    /// The state of the stream.
    pub open spec fn state(self) -> SessionView {
        SessionView { saw_end: self.saw_end_of_single_utterance, pending: self.text_output@ }
    }
}

/// What comes of a response.
pub struct Responded {
    pub state: SessionView,
    pub out: Seq<EmissionView<()>>,
}

/// What comes of a response.
pub open spec fn responded(
    state: SessionView,
    response: RecognizeResponse,
    include_language: bool,
) -> Responded {
    let results = response.results@;
    let saw_end = state.saw_end || response.end_of_single_utterance;
    let same = Responded { state: SessionView { saw_end, ..state }, out: Seq::empty() };
    if results.len() == 0 {
        same
    } else if is_final_result(results) {
        Responded {
            state: SessionView { saw_end, pending: None },
            out: seq![spoken(true, final_result(results[0], include_language))],
        }
    } else {
        let text = interim_result(results, include_language);
        if text.text.len() == 0 {
            same
        } else {
            Responded {
                state: SessionView { saw_end, pending: Some(text) },
                out: seq![spoken(false, text)],
            }
        }
    }
}

/// Why a stream ended that did not fail.
pub open spec fn end_exit(saw_end: bool) -> SessionExit {
    if saw_end {
        SessionExit::StoppedBySingleUtterance
    } else {
        SessionExit::AudioInputEnded
    }
}

impl StreamSession {
    /// A stream at its beginning.
    pub fn new(model: &str, include_detected_language: bool) -> (r: StreamSession)
        ensures
            r.model@ == model@,
            r.include_detected_language == include_detected_language,
            r.state() == (SessionView { saw_end: false, pending: None }),
    {
        StreamSession {
            model: model.to_owned(),
            include_detected_language,
            saw_end_of_single_utterance: false,
            text_output: StreamTextOutput::new(),
        }
    }

    /// Processes a response of the recognizer.
    pub fn process_response(&mut self, response: RecognizeResponse, out: &mut Vec<Emission<()>>)
        ensures
            ({
                let h = responded(
                    old(self).state(),
                    response,
                    old(self).include_detected_language,
                );
                &&& final(self).state() == h.state
                &&& emissions(final(out)@) == emissions(old(out)@) + h.out
            }),
            final(self).model == old(self).model,
            final(self).include_detected_language == old(self).include_detected_language,
    {
        assert(emissions(out@) + Seq::empty() =~= emissions(out@));
        if response.end_of_single_utterance {
            self.saw_end_of_single_utterance = true;
        }
        let results = response.results;
        if results.len() == 0 {
            return;
        }
        if results.len() == 1 && results[0].is_final && results[0].alternatives.len() > 0 {
            let code = trim(results[0].language_code.as_str());
            let language = if self.include_detected_language && !code.as_str().is_empty() {
                Some(code)
            } else {
                None
            };
            let text = trim(results[0].alternatives[0].as_str());
            self.text_output.final_text(out, text, language);
            assert(emissions(out@) =~= emissions(old(out)@) + seq![
                spoken(true, final_result(results@[0], old(self).include_detected_language)),
            ]);
        } else {
            let joined = join_hypotheses(&results);
            let text = trim(joined.as_str());
            let language = if self.include_detected_language {
                find_language(&results)
            } else {
                None
            };
            if !text.as_str().is_empty() {
                self.text_output.interim_text(out, text, language);
                assert(emissions(out@) =~= emissions(old(out)@) + seq![
                    spoken(false, interim_result(results@, old(self).include_detected_language)),
                ]);
            }
        }
    }

    /// Processes what comes next from the recognizer: a response, a failure, or the end. Returns
    /// why the stream ended, if it did; a text that is pending is put out as final then.
    pub fn process_stream_session(
        &mut self,
        item: Option<Result<RecognizeResponse, StreamError>>,
        out: &mut Vec<Emission<()>>,
    ) -> (r: Result<Option<SessionExit>, Error>)
        ensures
            match item {
                Some(Ok(response)) => {
                    let h = responded(
                        old(self).state(),
                        response,
                        old(self).include_detected_language,
                    );
                    &&& r == Ok::<Option<SessionExit>, Error>(None)
                    &&& final(self).state() == h.state
                    &&& emissions(final(out)@) == emissions(old(out)@) + h.out
                },
                Some(Err(error)) => {
                    let outcome = stream_failed(
                        old(self).model@,
                        old(self).state().saw_end,
                        error,
                    );
                    &&& r is Ok <==> outcome is Ok
                    &&& r matches Ok(exit) ==> exit == Some(outcome->Ok_0)
                    &&& r matches Err(e) ==> outcome->Err_0 == e@
                    &&& final(self).state() == (SessionView { pending: None, ..old(self).state() })
                    &&& emissions(final(out)@) == emissions(old(out)@) + promoted(
                        old(self).state().pending,
                    )
                },
                None => {
                    &&& r == Ok::<Option<SessionExit>, Error>(
                        Some(end_exit(old(self).state().saw_end)),
                    )
                    &&& final(self).state() == (SessionView { pending: None, ..old(self).state() })
                    &&& emissions(final(out)@) == emissions(old(out)@) + promoted(
                        old(self).state().pending,
                    )
                },
            },
            final(self).model == old(self).model,
            final(self).include_detected_language == old(self).include_detected_language,
    {
        match item {
            Some(Ok(response)) => {
                self.process_response(response, out);
                Ok(None)
            },
            Some(Err(error)) => {
                self.text_output.finish(out);
                match handle_stream_error(
                    self.model.as_str(),
                    self.saw_end_of_single_utterance,
                    error,
                ) {
                    Ok(exit) => Ok(Some(exit)),
                    Err(error) => Err(error),
                }
            },
            None => {
                self.text_output.finish(out);
                if self.saw_end_of_single_utterance {
                    Ok(Some(SessionExit::StoppedBySingleUtterance))
                } else {
                    Ok(Some(SessionExit::AudioInputEnded))
                }
            },
        }
    }
}

/// A stream that is about to begin: its first request, and the state in which its responses are
/// processed.
pub struct StreamStart {
    pub config: StreamConfig,
    pub session: StreamSession,
}

/// Begins a stream. Texts are put out with their language if more than one is expected.
pub fn transcribe_and_process_stream_session(
    client: &TranscribeClient,
    params: &TranscribeParams,
    interim_results: bool,
    audio_format: AudioFormat,
) -> (r: Result<StreamStart, Error>)
    ensures
        r is Ok <==> listed_codes(params.language@).len() > 0,
        r matches Ok(start) ==> {
            &&& start.config@ == requested(*client, *params, interim_results, audio_format)
            &&& start.session.model@ == params.model@
            &&& start.session.include_detected_language == (listed_codes(params.language@).len()
                > 1)
            &&& start.session.state() == (SessionView { saw_end: false, pending: None })
        },
        r matches Err(e) ==> e@ == seq!["language must contain at least one locale code"@],
{
    let languages = match params.languages() {
        Ok(languages) => languages,
        Err(error) => return Err(error),
    };
    match client.transcribe(params, interim_results, audio_format) {
        Ok(config) => Ok(
            StreamStart {
                config,
                session: StreamSession::new(params.model.as_str(), languages.len() > 1),
            },
        ),
        Err(error) => Err(error),
    }
}

/// Bills a frame that was handed to the stream. If the stream did not take it (`produced` is
/// false), nothing is billed, and no more audio is forwarded.
pub fn forward_audio_and_emit_billing(
    audio_open: &mut bool,
    produced: bool,
    out: &mut Vec<Emission<()>>,
    frame: &AudioFrame,
)
    requires
        frame.format.valid(),
    ensures
        *final(audio_open) == (*old(audio_open) && produced),
        *old(audio_open) && !produced ==> final(out)@ == old(out)@,
        !*old(audio_open) || produced ==> emissions(final(out)@) == emissions(old(out)@).push(
            bill_now(
                None,
                None,
                seq![
                    duration_record(
                        "input:audio"@,
                        duration_nanos(frame.format, frame@.samples.len()) as u128,
                    ),
                ],
            ),
        ),
{
    let duration: u128 = frame.duration();
    if *audio_open && !produced {
        *audio_open = false;
        return;
    }
    emit_duration_bill(out, None, None, "input:audio", duration);
}

/// Something that happens while a stream runs.
pub enum ConversationEvent {
    /// The stream ended.
    SessionExit(SessionExit),
    /// An input; `None` at the end.
    Input(Option<Input<()>>),
}

/// What to do about it.
pub enum ConversationAction {
    /// Hand the audio to the stream.
    Forward(AudioFrame),
    /// Close the audio, so that the stream ends by itself.
    CloseAudio,
    /// Start another stream.
    Restart,
    /// End the conversation.
    End,
}

impl GoogleTranscribe {
    /// Decides how a conversation goes on. Streams follow each other until the audio ends; anything
    /// but audio ends the audio.
    pub fn conversation(&self, event: ConversationEvent) -> (r: ConversationAction)
        ensures
            match event {
                ConversationEvent::SessionExit(SessionExit::AudioInputEnded) => r is End,
                ConversationEvent::SessionExit(_) => r is Restart,
                ConversationEvent::Input(Some(Input::Audio { frame })) => r
                    == ConversationAction::Forward(frame),
                ConversationEvent::Input(_) => r is CloseAudio,
            },
    {
        match event {
            ConversationEvent::SessionExit(exit) => match exit {
                SessionExit::AudioInputEnded => ConversationAction::End,
                SessionExit::StoppedBySingleUtterance => ConversationAction::Restart,
                SessionExit::StoppedByTimeout => ConversationAction::Restart,
            },
            ConversationEvent::Input(Some(Input::Audio { frame })) => ConversationAction::Forward(
                frame,
            ),
            ConversationEvent::Input(_) => ConversationAction::CloseAudio,
        }
    }

    /// Whether texts that are not final are asked for.
    pub fn interim_results(output_modalities: &Vec<OutputModality>) -> (r: bool)
        ensures
            r == output_modalities@.contains(OutputModality::InterimText),
    {
        let mut i: usize = 0;
        while i < output_modalities.len()
            invariant
                i <= output_modalities@.len(),
                forall|j: int|
                    0 <= j < i ==> output_modalities@[j] != OutputModality::InterimText,
            decreases output_modalities@.len() - i,
        {
            if output_modalities[i] == OutputModality::InterimText {
                assert(output_modalities@[i as int] == OutputModality::InterimText);
                return true;
            }
            i += 1;
        }
        false
    }
}

/// What comes of several responses.
pub open spec fn all_responded(
    state: SessionView,
    responses: Seq<RecognizeResponse>,
    include_language: bool,
) -> Responded
    decreases responses.len(),
{
    if responses.len() == 0 {
        Responded { state, out: Seq::empty() }
    } else {
        let before = all_responded(state, responses.drop_last(), include_language);
        let last = responded(before.state, responses.last(), include_language);
        Responded { state: last.state, out: before.out + last.out }
    }
}

/// A stream never leaves its reader with a text that is not final: whatever the responses were, the
/// last text that is put out, the one at the end of the stream counted, is final.
pub proof fn law_last_text_is_final(responses: Seq<RecognizeResponse>, include_language: bool)
    ensures
        ({
            let start = SessionView { saw_end: false, pending: None };
            let h = all_responded(start, responses, include_language);
            let out = h.out + promoted(h.state.pending);
            &&& out.len() > 0 ==> out.last() is Text && out.last()->is_final
            &&& h.state.pending matches Some(text) ==> h.out.len() > 0 && h.out.last() == spoken(
                false,
                text,
            )
        }),
    decreases responses.len(),
{
    let start = SessionView { saw_end: false, pending: None };
    if responses.len() > 0 {
        law_last_text_is_final(responses.drop_last(), include_language);
        let before = all_responded(start, responses.drop_last(), include_language);
        let last = responded(before.state, responses.last(), include_language);
        let h = all_responded(start, responses, include_language);
        if last.out.len() == 0 {
            assert(h.out =~= before.out);
        } else {
            assert(h.out.last() == last.out.last());
        }
        if h.state.pending is None {
            assert(h.out + promoted(h.state.pending) =~= h.out);
            assert(before.out + promoted(before.state.pending) =~= if before.state.pending is None {
                before.out
            } else {
                before.out.push(spoken(true, before.state.pending->0))
            });
        } else {
            assert((h.out + promoted(h.state.pending)).last() == spoken(true, h.state.pending->0));
        }
    }
}

} // verus!

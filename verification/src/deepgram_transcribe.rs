//! Turn based transcription by Deepgram.

use vstd::prelude::*;

use crate::audio::duration_nanos;
use crate::audio::le_bytes;
use crate::audio::AudioFormat;
use crate::error::Error;
use crate::input::Input;
use crate::language::listed_codes;
use crate::language::Languages;
use crate::output::bill_now;
use crate::output::duration_record;
use crate::output::emissions;
use crate::output::emit;
use crate::output::emit_duration_bill;
use crate::output::Emission;
use crate::output::EmissionView;
use crate::output::OutputPath;
use crate::text::concat2;
use crate::text::concat3;
use crate::text::contains;
use crate::text::occurs;
use crate::text::opt_view;
use crate::text::same_text;
use crate::text::strip_suffix;
use crate::text::texts;
use crate::text::trim_end_matches;
use crate::text::trimmed_end_of;

verus! {

/// The transcription service.
#[derive(Debug, Clone, Copy, PartialEq, Eq, Structural)]
pub struct DeepgramTranscribe;

/// How the end of a turn is detected. Thresholds are the bits of 64 bit floating point numbers.
#[derive(Debug, Clone, Copy, PartialEq, Eq, Structural)]
pub struct TurnDetection {
    pub threshold_bits: Option<u64>,
    pub timeout_ms: Option<u32>,
    pub eager_threshold_bits: Option<u64>,
}

/// The parameters of the service.
pub struct Params {
    pub api_key: String,
    /// The full URL to listen at. It has no default, so that data goes where it is meant to go.
    pub endpoint: String,
    /// One or more BCP 47 codes, separated by commas.
    pub language: String,
    pub profanity_filter: bool,
    /// Words to expect.
    pub keyterm: Vec<String>,
    pub turn_detection: TurnDetection,
}

/// A recognition model.
#[derive(Debug, Clone, Copy, PartialEq, Eq, Structural)]
pub enum Model {
    /// For English.
    FluxGeneralEn,
    /// For several languages.
    FluxGeneralMulti,
}

/// How samples are encoded.
#[derive(Debug, Clone, Copy, PartialEq, Eq, Structural)]
pub enum Encoding {
    /// As 16 bit numbers, low bytes first.
    Linear16,
    Linear32,
}

/// A model, and the languages that it is told to expect.
pub struct ModelChoice {
    pub model: Model,
    pub language_hints: Option<Vec<String>>,
}

/// The hints as sequences of characters.
pub open spec fn hints_view(hints: Option<Vec<String>>) -> Option<Seq<Seq<char>>> {
    match hints {
        Some(list) => Some(texts(list@)),
        None => None,
    }
}

/// The model for the languages: English alone has its own. `iso_first` is what the first code means
/// as an ISO 639-3 code, or why it means nothing; it matters only if there is no other code.
pub open spec fn chosen_model(
    languages: Seq<Seq<char>>,
    iso_first: Result<Seq<char>, Seq<Seq<char>>>,
) -> Result<(Model, Option<Seq<Seq<char>>>), Seq<Seq<char>>> {
    if languages.len() > 1 {
        Ok((Model::FluxGeneralMulti, Some(languages)))
    } else {
        match iso_first {
            Err(cause) => Err(seq!["language must be a valid BCP 47 tag"@] + cause),
            Ok(code) => if code == "eng"@ {
                Ok((Model::FluxGeneralEn, None))
            } else {
                Ok((Model::FluxGeneralMulti, Some(languages)))
            },
        }
    }
}

/// The view of a conversion of a language code.
pub open spec fn iso_view(iso: Result<String, Error>) -> Result<Seq<char>, Seq<Seq<char>>> {
    match iso {
        Ok(code) => Ok(code@),
        Err(error) => Err(error@),
    }
}

/// Chooses the model for the languages. `iso_first` is what the first code means as an ISO 639-3
/// code, or why it means nothing.
pub fn select_model_and_language_hints(languages: &Languages, iso_first: Result<String, Error>) ->
    (r: Result<ModelChoice, Error>)
    ensures
        ({
            let choice = chosen_model(languages@, iso_view(iso_first));
            &&& r is Ok <==> choice is Ok
            &&& r matches Ok(c) ==> choice->Ok_0 == (c.model, hints_view(c.language_hints))
            &&& r matches Err(e) ==> choice->Err_0 == e@
        }),
{
    if languages.len() > 1 {
        return Ok(
            ModelChoice {
                model: Model::FluxGeneralMulti,
                language_hints: Some(languages.to_vec()),
            },
        );
    }
    match iso_first {
        Err(error) => Err(error.context("language must be a valid BCP 47 tag")),
        Ok(code) => {
            if same_text(code.as_str(), "eng") {
                Ok(ModelChoice { model: Model::FluxGeneralEn, language_hints: None })
            } else {
                Ok(
                    ModelChoice {
                        model: Model::FluxGeneralMulti,
                        language_hints: Some(languages.to_vec()),
                    },
                )
            }
        },
    }
}

/// The base URL of an endpoint, or why there is none. The endpoint names a path to listen at.
pub open spec fn base_url(endpoint: Seq<char>) -> Result<Seq<char>, Seq<char>> {
    let t = trimmed_end_of(endpoint, '/');
    if "/v1/listen"@.is_suffix_of(t) {
        Ok(t.take(t.len() - "/v1/listen"@.len()) + "/"@)
    } else if "/v2/listen"@.is_suffix_of(t) {
        Ok(t.take(t.len() - "/v2/listen"@.len()) + "/"@)
    } else if occurs(t, "/listen"@) {
        Err(
            "invalid endpoint: expected terminal /v1/listen or /v2/listen path ("@ + endpoint
                + ")"@,
        )
    } else {
        Err(
            "invalid endpoint: expected full listen path (for example wss://api.deepgram.com/v2/listen), got base URL ("@
                + endpoint + ")"@,
        )
    }
}

/// The base URL of an endpoint that names a path to listen at.
pub fn normalize_endpoint(endpoint: &str) -> (r: Result<String, Error>)
    ensures
        r is Ok <==> base_url(endpoint@) is Ok,
        r matches Ok(url) ==> base_url(endpoint@)->Ok_0 == url@,
        r matches Err(e) ==> e@ == seq![base_url(endpoint@)->Err_0],
{
    let trimmed = trim_end_matches(endpoint, '/');
    match strip_suffix(trimmed.as_str(), "/v1/listen") {
        Some(prefix) => {
            assert(trimmed@.take(trimmed@.len() - "/v1/listen"@.len()) =~= prefix@);
            return Ok(concat2(prefix.as_str(), "/"));
        },
        None => {},
    }
    match strip_suffix(trimmed.as_str(), "/v2/listen") {
        Some(prefix) => {
            assert(trimmed@.take(trimmed@.len() - "/v2/listen"@.len()) =~= prefix@);
            return Ok(concat2(prefix.as_str(), "/"));
        },
        None => {},
    }
    if contains(trimmed.as_str(), "/listen") {
        return Err(
            Error::from_text(
                concat3(
                    "invalid endpoint: expected terminal /v1/listen or /v2/listen path (",
                    endpoint,
                    ")",
                ),
            ),
        );
    }
    Err(
        Error::from_text(
            concat3(
                "invalid endpoint: expected full listen path (for example wss://api.deepgram.com/v2/listen), got base URL (",
                endpoint,
                ")",
            ),
        ),
    )
}

/// What a conversation is held with.
pub struct ListenPlan {
    pub endpoint: String,
    pub api_key: String,
    pub model: Model,
    pub language_hints: Option<Vec<String>>,
    pub turn_detection: TurnDetection,
    pub profanity_filter: bool,
    /// Words to expect; `None` if there are none.
    pub keyterms: Option<Vec<String>>,
    pub encoding: Encoding,
    pub sample_rate: u32,
}

/// What the service reports. It travels with the audio.
#[derive(Debug, Clone, Copy, PartialEq, Eq, Structural)]
pub enum ServiceOutputEvent {
    StartOfTurn,
    EagerEndOfTurn,
    TurnResumed,
}

impl View for ServiceOutputEvent {
    type V = ServiceOutputEvent;

    open spec fn view(&self) -> ServiceOutputEvent {
        *self
    }
}

/// What happened in a turn.
#[derive(Debug, Clone, Copy, PartialEq, Eq, Structural)]
pub enum TurnEvent {
    Update,
    StartOfTurn,
    EagerEndOfTurn,
    TurnResumed,
    EndOfTurn,
    Unknown,
}

/// A response of the service.
pub enum FluxResponse {
    Connected,
    ConfigureSuccess,
    ConfigureFailure,
    FatalError { code: String, description: String },
    TurnInfo { event: TurnEvent, transcript: String, languages: Vec<String> },
    /// Any other response.
    Unknown,
}

/// The text of a turn, if there is any.
pub open spec fn turn_text(is_final: bool, transcript: Seq<char>, language: Option<Seq<char>>) ->
    Seq<EmissionView<ServiceOutputEvent>> {
    if transcript.len() > 0 {
        seq![EmissionView::Text { is_final, text: transcript, language, speaker: None }]
    } else {
        Seq::empty()
    }
}

/// The report of something that happened in a turn.
pub open spec fn turn_report(event: ServiceOutputEvent) -> Seq<EmissionView<ServiceOutputEvent>> {
    seq![EmissionView::ServiceEvent { path: OutputPath::Media, event }]
}

/// The first of a list of texts.
pub open spec fn first_text(list: Seq<String>) -> Option<Seq<char>> {
    if list.len() > 0 {
        Some(list[0]@)
    } else {
        None
    }
}

/// What comes of a response.
pub struct Responded {
    pub out: Seq<EmissionView<ServiceOutputEvent>>,
    pub error: Option<Seq<char>>,
}

/// What comes of a response.
pub open spec fn responded(response: FluxResponse) -> Responded {
    match response {
        FluxResponse::ConfigureFailure => Responded {
            out: Seq::empty(),
            error: Some("Deepgram rejected a Flux reconfiguration update"@),
        },
        FluxResponse::FatalError { code, description } => Responded {
            out: Seq::empty(),
            error: Some("Deepgram stream error ("@ + code@ + "): "@ + description@),
        },
        FluxResponse::TurnInfo { event, transcript, languages } => Responded {
            out: match event {
                TurnEvent::Update => turn_text(false, transcript@, first_text(languages@)),
                TurnEvent::EndOfTurn => turn_text(true, transcript@, first_text(languages@)),
                TurnEvent::StartOfTurn => turn_report(ServiceOutputEvent::StartOfTurn),
                TurnEvent::EagerEndOfTurn => turn_report(ServiceOutputEvent::EagerEndOfTurn),
                TurnEvent::TurnResumed => turn_report(ServiceOutputEvent::TurnResumed),
                TurnEvent::Unknown => Seq::empty(),
            },
            error: None,
        },
        _ => Responded { out: Seq::empty(), error: None },
    }
}

fn emit_turn_text(
    out: &mut Vec<Emission<ServiceOutputEvent>>,
    is_final: bool,
    transcript: String,
    languages: &Vec<String>,
)
    ensures
        emissions(final(out)@) == emissions(old(out)@) + turn_text(
            is_final,
            transcript@,
            first_text(languages@),
        ),
{
    let language = if languages.len() > 0 {
        Some(languages[0].clone())
    } else {
        None
    };
    assert(opt_view(language) == first_text(languages@));
    if !transcript.as_str().is_empty() {
        emit(out, Emission::Text { is_final, text: transcript, language, speaker: None });
    }
    assert(emissions(out@) =~= emissions(old(out)@) + turn_text(
        is_final,
        transcript@,
        first_text(languages@),
    ));
}

fn emit_turn_report(out: &mut Vec<Emission<ServiceOutputEvent>>, event: ServiceOutputEvent)
    ensures
        emissions(final(out)@) == emissions(old(out)@) + turn_report(event),
{
    emit(out, Emission::ServiceEvent { path: OutputPath::Media, event });
    assert(emissions(out@) =~= emissions(old(out)@) + turn_report(event));
}

/// Processes a response of the service.
pub fn process_response(response: FluxResponse, out: &mut Vec<Emission<ServiceOutputEvent>>) -> (r:
    Result<(), Error>)
    ensures
        emissions(final(out)@) == emissions(old(out)@) + responded(response).out,
        r is Ok <==> responded(response).error is None,
        r matches Err(e) ==> e@ == seq![responded(response).error->0],
{
    assert(emissions(out@) + Seq::empty() =~= emissions(out@));
    match response {
        FluxResponse::Connected => {},
        FluxResponse::ConfigureSuccess => {},
        FluxResponse::ConfigureFailure => {
            return Err(Error::new("Deepgram rejected a Flux reconfiguration update"));
        },
        FluxResponse::FatalError { code, description } => {
            let mut message = concat3("Deepgram stream error (", code.as_str(), "): ");
            message.append(description.as_str());
            return Err(Error::from_text(message));
        },
        FluxResponse::TurnInfo { event, transcript, languages } => match event {
            TurnEvent::Update => emit_turn_text(out, false, transcript, &languages),
            TurnEvent::EndOfTurn => emit_turn_text(out, true, transcript, &languages),
            TurnEvent::StartOfTurn => emit_turn_report(out, ServiceOutputEvent::StartOfTurn),
            TurnEvent::EagerEndOfTurn => emit_turn_report(out, ServiceOutputEvent::EagerEndOfTurn),
            TurnEvent::TurnResumed => emit_turn_report(out, ServiceOutputEvent::TurnResumed),
            TurnEvent::Unknown => {},
        },
        FluxResponse::Unknown => {},
    }
    Ok(())
}

/// Something that happens in the course of a conversation.
pub enum ListenEvent {
    /// An input; `None` at the end.
    Input(Option<Input<()>>),
    /// A response of the service, or a failure; `None` at the end.
    Response(Option<Result<FluxResponse, Error>>),
}

/// What to do about it.
pub enum ListenAction {
    /// Go on.
    Continue,
    /// Send audio.
    SendAudio(Vec<u8>),
    /// Close the audio, so that the service finishes what is left.
    CloseAudio,
    /// End the conversation.
    End,
}

impl DeepgramTranscribe {
    /// Decides how a conversation is held. `iso_first` is what the first language code means as an
    /// ISO 639-3 code, or why it means nothing.
    pub fn plan(
        &self,
        params: Params,
        input_format: AudioFormat,
        iso_first: Result<String, Error>,
    ) -> (r: Result<ListenPlan, Error>)
        ensures
            ({
                let codes = listed_codes(params.language@);
                let choice = chosen_model(codes, iso_view(iso_first));
                let url = base_url(params.endpoint@);
                &&& r is Ok <==> codes.len() > 0 && choice is Ok && url is Ok
                &&& r matches Ok(plan) ==> {
                    &&& plan.endpoint@ == url->Ok_0
                    &&& (plan.model, hints_view(plan.language_hints)) == choice->Ok_0
                    &&& plan.api_key@ == params.api_key@
                    &&& plan.turn_detection == params.turn_detection
                    &&& plan.profanity_filter == params.profanity_filter
                    &&& plan.keyterms == if params.keyterm@.len() > 0 {
                        Some(params.keyterm)
                    } else {
                        None
                    }
                    &&& plan.encoding == Encoding::Linear16
                    &&& plan.sample_rate == input_format.sample_rate
                }
                &&& r matches Err(e) ==> e@ == if codes.len() == 0 {
                    seq!["language must contain at least one locale code"@]
                } else if choice is Err {
                    choice->Err_0
                } else {
                    seq![url->Err_0]
                }
            }),
    {
        let languages = match Languages::required_from_csv(params.language.as_str()) {
            Ok(languages) => languages,
            Err(error) => return Err(error),
        };
        let choice = match select_model_and_language_hints(&languages, iso_first) {
            Ok(choice) => choice,
            Err(error) => return Err(error),
        };
        match normalize_endpoint(params.endpoint.as_str()) {
            Ok(endpoint) => Ok(
                ListenPlan {
                    endpoint,
                    api_key: params.api_key,
                    model: choice.model,
                    language_hints: choice.language_hints,
                    turn_detection: params.turn_detection,
                    profanity_filter: params.profanity_filter,
                    keyterms: if params.keyterm.len() > 0 {
                        Some(params.keyterm)
                    } else {
                        None
                    },
                    encoding: Encoding::Linear16,
                    sample_rate: input_format.sample_rate,
                },
            ),
            Err(error) => Err(error),
        }
    }

    /// One round of a conversation: something happened, and this says what to do about it. Audio is
    /// billed as it is sent. Anything but audio ends the audio; what was said before is still put
    /// out.
    pub fn conversation(
        &self,
        audio_input_open: &mut bool,
        event: ListenEvent,
        out: &mut Vec<Emission<ServiceOutputEvent>>,
    ) -> (r: Result<ListenAction, Error>)
        requires
            event is Input ==> *old(audio_input_open),
            event matches ListenEvent::Input(Some(Input::Audio { frame })) ==> frame.format.valid(),
        ensures
            match event {
                ListenEvent::Input(Some(Input::Audio { frame })) => {
                    &&& r matches Ok(ListenAction::SendAudio(bytes)) && bytes@ == le_bytes(
                        frame@.samples,
                    )
                    &&& *final(audio_input_open)
                    &&& emissions(final(out)@) == emissions(old(out)@).push(
                        bill_now(
                            None,
                            None,
                            seq![
                                duration_record(
                                    "input:audio"@,
                                    duration_nanos(frame.format, frame@.samples.len()) as u128,
                                ),
                            ],
                        ),
                    )
                },
                ListenEvent::Input(_) => {
                    &&& r == Ok::<ListenAction, Error>(ListenAction::CloseAudio)
                    &&& !*final(audio_input_open)
                    &&& final(out)@ == old(out)@
                },
                ListenEvent::Response(Some(Ok(response))) => {
                    let h = responded(response);
                    &&& r is Ok <==> h.error is None
                    &&& r matches Ok(action) ==> action is Continue
                    &&& r matches Err(e) ==> e@ == seq![h.error->0]
                    &&& *final(audio_input_open) == *old(audio_input_open)
                    &&& emissions(final(out)@) == emissions(old(out)@) + h.out
                },
                ListenEvent::Response(Some(Err(error))) => {
                    &&& r == Err::<ListenAction, Error>(error)
                    &&& *final(audio_input_open) == *old(audio_input_open)
                    &&& final(out)@ == old(out)@
                },
                ListenEvent::Response(None) => {
                    &&& r == Ok::<ListenAction, Error>(ListenAction::End)
                    &&& *final(audio_input_open) == *old(audio_input_open)
                    &&& final(out)@ == old(out)@
                },
            },
    {
        match event {
            ListenEvent::Input(Some(Input::Audio { frame })) => {
                let duration: u128 = frame.duration();
                let bytes = frame.to_le_bytes();
                emit_duration_bill(out, None, None, "input:audio", duration);
                Ok(ListenAction::SendAudio(bytes))
            },
            ListenEvent::Input(_) => {
                *audio_input_open = false;
                Ok(ListenAction::CloseAudio)
            },
            ListenEvent::Response(Some(Ok(response))) => match process_response(response, out) {
                Ok(()) => Ok(ListenAction::Continue),
                Err(error) => Err(error),
            },
            ListenEvent::Response(Some(Err(error))) => Err(error),
            ListenEvent::Response(None) => Ok(ListenAction::End),
        }
    }
}

proof fn lemma_untrimmed(s: Seq<char>, c: char)
    requires
        s.len() > 0 ==> s.last() != c,
    ensures
        trimmed_end_of(s, c) == s,
{
}

/// Both listen paths of a base URL lead back to it.
pub proof fn law_listen_paths_lead_to_the_base(base: Seq<char>)
    ensures
        base_url(base + "/v1/listen"@) == Ok::<Seq<char>, Seq<char>>(base + "/"@),
        base_url(base + "/v2/listen"@) == Ok::<Seq<char>, Seq<char>>(base + "/"@),
{
    reveal_strlit("/v1/listen");
    reveal_strlit("/v2/listen");
    let a = base + "/v1/listen"@;
    let b = base + "/v2/listen"@;
    lemma_untrimmed(a, '/');
    lemma_untrimmed(b, '/');
    assert(a.subrange(a.len() - 10, a.len() as int) =~= "/v1/listen"@);
    assert(b.subrange(b.len() - 10, b.len() as int) =~= "/v2/listen"@);
    assert(a.take(a.len() - 10) =~= base);
    assert(b.take(b.len() - 10) =~= base);
    assert(b[b.len() - 8] == '2');
    assert("/v1/listen"@[2] == '1');
    assert(!"/v1/listen"@.is_suffix_of(b)) by {
        if "/v1/listen"@.is_suffix_of(b) {
            assert(b.subrange(b.len() - 10, b.len() as int)[2] == '1');
        }
    }
}

/// What was said of a turn so far is put out as a text that is not final, and at its end as a final
/// one, with the first language that was detected. Nothing is put out of an empty one. How turns go is
/// reported on the way of the media.
pub proof fn law_turns_are_put_out(
    event: TurnEvent,
    transcript: String,
    languages: Vec<String>,
)
    ensures
        ({
            let h = responded(FluxResponse::TurnInfo { event, transcript, languages });
            let spoken = event is Update || event is EndOfTurn;
            &&& h.error is None
            &&& spoken && transcript@.len() == 0 ==> h.out.len() == 0
            &&& spoken && transcript@.len() > 0 ==> {
                &&& h.out.len() == 1
                &&& h.out[0] is Text
                &&& h.out[0]->is_final == (event is EndOfTurn)
                &&& h.out[0]->text == transcript@
                &&& languages@.len() == 0 ==> h.out[0]->language is None
                &&& languages@.len() > 0 ==> h.out[0]->language == Some(languages@[0]@)
                &&& h.out[0]->speaker is None
            }
            &&& event is Unknown ==> h.out.len() == 0
            &&& !spoken && !(event is Unknown) ==> {
                &&& h.out.len() == 1
                &&& h.out[0] is ServiceEvent
                &&& h.out[0]->path == OutputPath::Media
                &&& event is StartOfTurn <==> h.out[0]->event is StartOfTurn
                &&& event is EagerEndOfTurn <==> h.out[0]->event is EagerEndOfTurn
                &&& event is TurnResumed <==> h.out[0]->event is TurnResumed
            }
        }),
{
}

/// A refused update and a fatal error end the conversation. Other responses change nothing.
pub proof fn law_failures(response: FluxResponse)
    ensures
        response is ConfigureFailure ==> responded(response).out.len() == 0 && responded(
            response,
        ).error == Some("Deepgram rejected a Flux reconfiguration update"@),
        response matches FluxResponse::FatalError { code, description } ==> responded(
            response,
        ).out.len() == 0 && responded(response).error == Some(
            "Deepgram stream error ("@ + code@ + "): "@ + description@,
        ),
        response is Connected || response is ConfigureSuccess || response is Unknown ==> responded(
            response,
        ).out.len() == 0 && responded(response).error is None,
{
}

/// English alone has its own model, without hints. All other languages share one, and are its hints.
/// A single language that is not known is refused.
pub proof fn law_models(
    languages: Seq<Seq<char>>,
    iso_first: Result<Seq<char>, Seq<Seq<char>>>,
)
    ensures
        languages.len() > 1 ==> chosen_model(languages, iso_first) == Ok::<
            (Model, Option<Seq<Seq<char>>>),
            Seq<Seq<char>>,
        >((Model::FluxGeneralMulti, Some(languages))),
        languages.len() <= 1 ==> match iso_first {
            Err(cause) => chosen_model(languages, iso_first) == Err::<
                (Model, Option<Seq<Seq<char>>>),
                Seq<Seq<char>>,
            >(seq!["language must be a valid BCP 47 tag"@] + cause),
            Ok(code) => {
                &&& code == "eng"@ ==> chosen_model(languages, iso_first) == Ok::<
                    (Model, Option<Seq<Seq<char>>>),
                    Seq<Seq<char>>,
                >((Model::FluxGeneralEn, None))
                &&& code != "eng"@ ==> chosen_model(languages, iso_first) == Ok::<
                    (Model, Option<Seq<Seq<char>>>),
                    Seq<Seq<char>>,
                >((Model::FluxGeneralMulti, Some(languages)))
            },
        },
{
}

/// Slashes at the end of an endpoint do not matter. An endpoint that does not end with a listen path
/// then is refused, and the refusal says whether it has a listen path elsewhere.
pub proof fn law_endpoints(endpoint: Seq<char>)
    requires
        endpoint.len() == 0 || endpoint.last() != '/',
    ensures
        ({
            let listens = "/v1/listen"@.is_suffix_of(endpoint) || "/v2/listen"@.is_suffix_of(
                endpoint,
            );
            &&& base_url(endpoint) is Ok <==> listens
            &&& base_url(endpoint) is Ok ==> base_url(endpoint)->Ok_0.len() + 9 == endpoint.len()
            &&& base_url(endpoint) is Ok ==> base_url(endpoint)->Ok_0 == endpoint.take(
                endpoint.len() - 10,
            ).push('/')
            &&& base_url(endpoint.push('/')) is Ok <==> listens
            &&& listens ==> base_url(endpoint.push('/')) == base_url(endpoint)
            &&& !listens && occurs(endpoint, "/listen"@) ==> base_url(endpoint) == Err::<
                Seq<char>,
                Seq<char>,
            >(
                "invalid endpoint: expected terminal /v1/listen or /v2/listen path ("@ + endpoint
                    + ")"@,
            )
            &&& !listens && !occurs(endpoint, "/listen"@) ==> base_url(endpoint) == Err::<
                Seq<char>,
                Seq<char>,
            >(
                "invalid endpoint: expected full listen path (for example wss://api.deepgram.com/v2/listen), got base URL ("@
                    + endpoint + ")"@,
            )
        }),
{
    reveal_strlit("/v1/listen");
    reveal_strlit("/v2/listen");
    reveal_strlit("/");
    lemma_untrimmed(endpoint, '/');
    assert("/v1/listen"@.len() == 10 && "/v2/listen"@.len() == 10);
    assert(endpoint.push('/').drop_last() =~= endpoint);
    assert(trimmed_end_of(endpoint.push('/'), '/') == trimmed_end_of(endpoint, '/'));
    if endpoint.len() >= 10 {
        assert(endpoint.take(endpoint.len() - 10) + "/"@ =~= endpoint.take(
            endpoint.len() - 10,
        ).push('/'));
    }
}

/// What was chosen is shown as it is.
pub proof fn law_choices_are_shown(
    hints: Option<Vec<String>>,
    iso: Result<String, Error>,
    event: ServiceOutputEvent,
)
    ensures
        hints_view(hints) is Some <==> hints is Some,
        hints matches Some(list) ==> hints_view(hints)->0.len() == list@.len() && forall|i: int|
            0 <= i < list@.len() ==> #[trigger] hints_view(hints)->0[i] == list@[i]@,
        iso matches Ok(code) ==> iso_view(iso) == Ok::<Seq<char>, Seq<Seq<char>>>(code@),
        iso matches Err(error) ==> iso_view(iso) == Err::<Seq<char>, Seq<Seq<char>>>(error@),
        event@ == event,
{
}

/// A conversation is planned with all that the parameters ask for, at the rate of the audio.
pub proof fn law_planned_conversations(
    params: Params,
    format: AudioFormat,
    iso_first: Result<String, Error>,
    r: Result<ListenPlan, Error>,
)
    requires
        call_ensures(
            DeepgramTranscribe::plan,
            (&DeepgramTranscribe, params, format, iso_first),
            r,
        ),
    ensures
        ({
            let codes = listed_codes(params.language@);
            &&& codes.len() == 0 ==> r is Err && r->Err_0@ == seq![
                "language must contain at least one locale code"@,
            ]
            &&& r matches Ok(plan) ==> {
                &&& codes.len() > 0
                &&& plan.model is FluxGeneralEn <==> codes.len() == 1 && iso_first is Ok
                    && iso_first->Ok_0@ == "eng"@
                &&& plan.language_hints is None <==> plan.model is FluxGeneralEn
                &&& plan.language_hints matches Some(hints) ==> hints@.len() == codes.len()
                    && forall|i: int| 0 <= i < codes.len() ==> (#[trigger] hints@[i])@ == codes[i]
                &&& base_url(params.endpoint@) == Ok::<Seq<char>, Seq<char>>(plan.endpoint@)
                &&& plan.api_key@ == params.api_key@
                &&& plan.turn_detection == params.turn_detection
                &&& plan.profanity_filter == params.profanity_filter
                &&& plan.keyterms is Some <==> params.keyterm@.len() > 0
                &&& plan.keyterms is Some ==> plan.keyterms->0 == params.keyterm
                &&& plan.encoding is Linear16
                &&& plan.sample_rate == format.sample_rate
            }
            &&& codes.len() > 1 && base_url(params.endpoint@) is Ok ==> r is Ok
            &&& codes.len() == 1 && iso_first is Ok && base_url(params.endpoint@) is Ok ==> r is Ok
        }),
{
    if let Ok(plan) = r {
        if let Some(hints) = plan.language_hints {
            let codes = listed_codes(params.language@);
            assert(texts(hints@) == codes);
            assert forall|i: int| 0 <= i < codes.len() implies (#[trigger] hints@[i])@
                == codes[i] by {
                assert(texts(hints@)[i] == hints@[i]@);
            }
        }
    }
}

/// Audio is sent as it comes, two bytes for each sample with the low one first, and the time that it
/// takes is billed now. Any other input closes the audio. The responses are put out, and the
/// conversation ends with them.
pub proof fn law_rounds_of_a_conversation(
    open: &mut bool,
    event: ListenEvent,
    out: &mut Vec<Emission<ServiceOutputEvent>>,
    r: Result<ListenAction, Error>,
)
    requires
        event matches ListenEvent::Input(Some(Input::Audio { frame })) ==> frame.format.valid()
            && frame.samples@.len() <= usize::MAX,
        event is Input ==> *old(open),
        call_ensures(DeepgramTranscribe::conversation, (&DeepgramTranscribe, open, event, out), r),
    ensures
        event matches ListenEvent::Input(Some(Input::Audio { frame })) ==> {
            let o = emissions(final(out)@);
            let n = old(out)@.len() as int;
            let per_second = frame.format.channels * frame.format.sample_rate;
            let sent = r->Ok_0->SendAudio_0@;
            &&& *final(open)
            &&& r is Ok && r->Ok_0 is SendAudio
            &&& sent.len() == 2 * frame.samples@.len()
            &&& forall|i: int|
                0 <= i < frame.samples@.len() ==> {
                    let code = sent[2 * i] as int + 256 * (sent[2 * i + 1] as int);
                    let sample = #[trigger] frame.samples@[i];
                    code == sample || code == sample + 65536
                }
            &&& o.len() == n + 1
            &&& o.take(n) == emissions(old(out)@)
            &&& o[n] is BillingRecords
            &&& o[n]->BillingRecords_request_id is None
            &&& o[n]->scope is None
            &&& o[n]->schedule is Now
            &&& o[n]->records.len() == 1
            &&& o[n]->records[0].name == "input:audio"@
            &&& o[n]->records[0].value is Duration
            &&& o[n]->records[0].value->Duration_0 * per_second <= frame.samples@.len()
                * 1_000_000_000
            &&& frame.samples@.len() * 1_000_000_000 < (o[n]->records[0].value->Duration_0 + 1)
                * per_second
        },
        event is Input && !(event matches ListenEvent::Input(Some(Input::Audio { .. }))) ==> r is Ok
            && r->Ok_0 is CloseAudio && !*final(open) && final(out)@ == old(out)@,
        event matches ListenEvent::Response(None) ==> r is Ok && r->Ok_0 is End && final(out)@
            == old(out)@ && *final(open) == *old(open),
        event matches ListenEvent::Response(Some(Err(error))) ==> r == Err::<ListenAction, Error>(
            error,
        ) && final(out)@ == old(out)@,
        event matches ListenEvent::Response(Some(Ok(response))) ==> {
            let h = responded(response);
            &&& *final(open) == *old(open)
            &&& emissions(final(out)@) == emissions(old(out)@) + h.out
            &&& h.error is None ==> r is Ok && r->Ok_0 is Continue
            &&& h.error is Some ==> r is Err && r->Err_0@ == seq![h.error->0]
        },
{
    let n = old(out)@.len() as int;
    assert(emissions(old(out)@).len() == n);
    if let ListenEvent::Input(Some(Input::Audio { frame })) = event {
        assert(frame@.samples == frame.samples@);
        crate::audio::law_bytes_of_samples(frame.samples@);
        crate::audio::lemma_duration_fits(frame.format, frame.samples@.len());
        assert(emissions(final(out)@).take(n) =~= emissions(old(out)@));
    }
}

/// What was said in a turn is put out as it is, as a final text at the end of the turn, in the first
/// language that was heard. A response that tells of a failure ends the conversation.
pub proof fn law_processed_responses(
    response: FluxResponse,
    out: &mut Vec<Emission<ServiceOutputEvent>>,
    r: Result<(), Error>,
)
    requires
        call_ensures(process_response, (response, out), r),
    ensures
        ({
            let before = emissions(old(out)@);
            let o = emissions(final(out)@);
            let n = old(out)@.len() as int;
            &&& n <= o.len() <= n + 1 && o.take(n) == before
            &&& r is Err <==> response is ConfigureFailure || response is FatalError
            &&& r is Err ==> o == before
            &&& !(response is TurnInfo) ==> o == before
            &&& response matches FluxResponse::TurnInfo { event, transcript, languages } ==> {
                let spoken = event is Update || event is EndOfTurn;
                &&& spoken ==> (o.len() == n + 1 <==> transcript@.len() > 0)
                &&& spoken && transcript@.len() > 0 ==> {
                    &&& o[n] is Text
                    &&& o[n]->is_final == (event is EndOfTurn)
                    &&& o[n]->text == transcript@
                    &&& languages@.len() == 0 ==> o[n]->language is None
                    &&& languages@.len() > 0 ==> o[n]->language == Some(languages@[0]@)
                    &&& o[n]->speaker is None
                }
                &&& !spoken ==> (o.len() == n + 1 <==> !(event is Unknown))
                &&& !spoken && !(event is Unknown) ==> o[n] is ServiceEvent
            }
        }),
{
    let before = emissions(old(out)@);
    let h = responded(response);
    assert(before.len() == old(out)@.len());
    assert((before + h.out).take(before.len() as int) =~= before);
    assert(h.out.len() == 0 ==> before + h.out =~= before);
    law_failures(response);
    if let FluxResponse::TurnInfo { event, transcript, languages } = response {
        law_turns_are_put_out(event, transcript, languages);
    }
}

} // verus!

//! How a session is set up.

use vstd::prelude::*;

use serde_json::Value;

use crate::error::Error;
use crate::google_dialog::model::non_blocking_only;
use crate::google_dialog::model::non_blocking_tools;
use crate::google_dialog::model::thinking_error;
use crate::google_dialog::model::tools_error;
use crate::google_dialog::model::tools_for_model;
use crate::google_dialog::model::validate_thinking_level;
use crate::google_dialog::types::matching_name;
use crate::google_dialog::types::parse_voice_value;
use crate::google_dialog::types::tools_view;
use crate::google_dialog::types::voice_names;
use crate::google_dialog::types::voices;
use crate::google_dialog::types::Params;
use crate::google_dialog::types::ThinkingLevel;
use crate::google_dialog::types::Tool;
use crate::google_dialog::types::ToolView;
use crate::google_dialog::types::TranscriptionMode;
use crate::json::clone_json;
use crate::json::opt_json_text;
use crate::modality::OutputModality;
use crate::text::clone_opt;
use crate::text::concat2;
use crate::text::concat3;
use crate::text::join;
use crate::text::joined;
use crate::text::opt_view;
use crate::text::starts_with;
use crate::text::texts;

verus! {

/// Which texts a conversation puts out.
#[derive(Debug, Clone, Copy, PartialEq, Eq, Structural)]
pub struct TextOutputs {
    pub text: bool,
    pub interim: bool,
}

/// How many of the modalities are text.
pub open spec fn count_text(modalities: Seq<OutputModality>) -> nat
    decreases modalities.len(),
{
    if modalities.len() == 0 {
        0
    } else {
        count_text(modalities.drop_last()) + if modalities.last() is Text {
            1nat
        } else {
            0
        }
    }
}

/// How many of the modalities are interim text.
pub open spec fn count_interim(modalities: Seq<OutputModality>) -> nat
    decreases modalities.len(),
{
    if modalities.len() == 0 {
        0
    } else {
        count_interim(modalities.drop_last()) + if modalities.last() is InterimText {
            1nat
        } else {
            0
        }
    }
}

/// The first modality that repeats a kind of text.
pub open spec fn first_repeated(modalities: Seq<OutputModality>) -> Option<Seq<char>>
    decreases modalities.len(),
{
    if modalities.len() == 0 {
        None
    } else {
        let before = modalities.drop_last();
        match first_repeated(before) {
            Some(message) => Some(message),
            None => match modalities.last() {
                OutputModality::Text if count_text(before) > 0 => Some(
                    "Expecting at most one text output"@,
                ),
                OutputModality::InterimText if count_interim(before) > 0 => Some(
                    "Expecting at most one interim text output"@,
                ),
                _ => None,
            },
        }
    }
}

proof fn lemma_first_repeated(modalities: Seq<OutputModality>, n: int)
    requires
        0 <= n <= modalities.len(),
    ensures
        first_repeated(modalities.take(n)) is Some ==> first_repeated(modalities)
            == first_repeated(modalities.take(n)),
    decreases modalities.len() - n,
{
    if n < modalities.len() {
        lemma_first_repeated(modalities, n + 1);
        assert(modalities.take(n + 1).drop_last() =~= modalities.take(n));
    } else {
        assert(modalities.take(n) =~= modalities);
    }
}

impl TextOutputs {
    /// The texts that the modalities ask for, each at most once.
    pub fn from_modalities(output_modalities: &Vec<OutputModality>) -> (r: Result<
        TextOutputs,
        Error,
    >)
        ensures
            r is Ok <==> first_repeated(output_modalities@) is None,
            r matches Ok(outputs) ==> outputs == (TextOutputs {
                text: count_text(output_modalities@) > 0,
                interim: count_interim(output_modalities@) > 0,
            }),
            r matches Err(e) ==> e@ == seq![first_repeated(output_modalities@)->0],
    {
        let mut text = false;
        let mut interim = false;
        let mut i: usize = 0;
        while i < output_modalities.len()
            invariant
                i <= output_modalities@.len(),
                text == (count_text(output_modalities@.take(i as int)) > 0),
                interim == (count_interim(output_modalities@.take(i as int)) > 0),
                first_repeated(output_modalities@.take(i as int)) is None,
            decreases output_modalities@.len() - i,
        {
            proof {
                let next = output_modalities@.take(i + 1);
                assert(next.drop_last() =~= output_modalities@.take(i as int));
                assert(next.last() == output_modalities@[i as int]);
                lemma_first_repeated(output_modalities@, i + 1);
            }
            match output_modalities[i] {
                OutputModality::Text => {
                    if text {
                        return Err(Error::new("Expecting at most one text output"));
                    }
                    text = true;
                },
                OutputModality::InterimText => {
                    if interim {
                        return Err(Error::new("Expecting at most one interim text output"));
                    }
                    interim = true;
                },
                OutputModality::Audio { .. } => {},
            }
            i += 1;
        }
        assert(output_modalities@.take(i as int) =~= output_modalities@);
        Ok(TextOutputs { text, interim })
    }
}

/// Where the model is reached.
pub enum Endpoint {
    /// The public endpoint.
    GeminiApi,
    /// The endpoint of a location of the Agent Platform.
    VertexAi { location: String },
    /// Any other, by its URL.
    Custom(String),
}

/// Where the model is reached, as mathematical values.
pub enum EndpointView {
    GeminiApi,
    VertexAi { location: Seq<char> },
    Custom(Seq<char>),
}

impl View for Endpoint {
    type V = EndpointView;

    open spec fn view(&self) -> EndpointView {
        match *self {
            Endpoint::GeminiApi => EndpointView::GeminiApi,
            Endpoint::VertexAi { location } => EndpointView::VertexAi { location: location@ },
            Endpoint::Custom(url) => EndpointView::Custom(url@),
        }
    }
}

/// How one direction of the audio is transcribed.
pub struct AudioTranscription {
    pub language_codes: Vec<String>,
    pub mode: TranscriptionMode,
}

/// What the model answers with.
#[derive(Debug, Clone, Copy, PartialEq, Eq, Structural)]
pub enum Modality {
    Audio,
    Text,
}

/// The settings of a session.
pub struct SetupConfig {
    pub model: String,
    pub response_modalities: Vec<Modality>,
    /// Whether the server sends handles by which a session that was cut off is resumed.
    pub session_resumption: bool,
    pub voice: Option<String>,
    pub thinking_level: Option<ThinkingLevel>,
    pub temperature_bits: Option<u32>,
    pub instructions: Option<String>,
    pub tools: Option<Vec<Tool>>,
    pub realtime_input_config: Option<Value>,
    pub context_window_compression: bool,
    pub input_audio_transcription: Option<AudioTranscription>,
    pub output_audio_transcription: Option<AudioTranscription>,
}

/// The settings of a session, as mathematical values.
pub struct SetupView {
    pub model: Seq<char>,
    pub response_modalities: Seq<Modality>,
    pub session_resumption: bool,
    pub voice: Option<Seq<char>>,
    pub thinking_level: Option<ThinkingLevel>,
    pub temperature_bits: Option<u32>,
    pub instructions: Option<Seq<char>>,
    pub tools: Option<Seq<ToolView>>,
    pub realtime_input_config: Option<Seq<char>>,
    pub context_window_compression: bool,
    pub input_audio_transcription: Option<(Seq<Seq<char>>, TranscriptionMode)>,
    pub output_audio_transcription: Option<(Seq<Seq<char>>, TranscriptionMode)>,
}

/// The view of how one direction is transcribed.
pub open spec fn transcription_view(t: Option<AudioTranscription>) -> Option<
    (Seq<Seq<char>>, TranscriptionMode),
> {
    match t {
        Some(t) => Some((texts(t.language_codes@), t.mode)),
        None => None,
    }
}

impl View for SetupConfig {
    type V = SetupView;

    open spec fn view(&self) -> SetupView {
        SetupView {
            model: self.model@,
            response_modalities: self.response_modalities@,
            session_resumption: self.session_resumption,
            voice: opt_view(self.voice),
            thinking_level: self.thinking_level,
            temperature_bits: self.temperature_bits,
            instructions: opt_view(self.instructions),
            tools: match self.tools {
                Some(tools) => Some(tools_view(tools@)),
                None => None,
            },
            realtime_input_config: opt_json_text(self.realtime_input_config),
            context_window_compression: self.context_window_compression,
            input_audio_transcription: transcription_view(self.input_audio_transcription),
            output_audio_transcription: transcription_view(self.output_audio_transcription),
        }
    }
}

/// What is needed to connect.
pub struct SessionConfig {
    pub endpoint: Endpoint,
    pub api_key: Option<String>,
    pub setup: SetupConfig,
}

/// The resource name of a model at the public endpoint.
pub open spec fn resource_name(model: Seq<char>) -> Seq<char> {
    if "models/"@.is_prefix_of(model) {
        model
    } else {
        "models/"@ + model
    }
}

/// The resource name of a model at the public endpoint.
pub fn model_resource_name(model: &str) -> (r: String)
    ensures
        r@ == resource_name(model@),
{
    if starts_with(model, "models/") {
        model.to_owned()
    } else {
        concat2("models/", model)
    }
}

/// The resource name of a model on the Agent Platform.
pub open spec fn platform_resource_name(
    project: Seq<char>,
    location: Seq<char>,
    model: Seq<char>,
) -> Seq<char> {
    "projects/"@ + project + "/locations/"@ + location + "/publishers/google/models/"@ + model
}

/// The resource name of the model that the parameters mean: on the Agent Platform if both a project
/// and a location are given.
pub open spec fn addressed_model(params: Params) -> Seq<char> {
    match (params.project, params.location) {
        (Some(project), Some(location)) => platform_resource_name(
            project@,
            location@,
            params.model@,
        ),
        _ => resource_name(params.model@),
    }
}

/// The endpoint that the parameters mean. An explicit one comes first.
pub open spec fn addressed_endpoint(params: Params) -> EndpointView {
    match (params.endpoint, params.project, params.location) {
        (Some(url), _, _) => EndpointView::Custom(url@),
        (None, Some(_), Some(location)) => EndpointView::VertexAi { location: location@ },
        _ => EndpointView::GeminiApi,
    }
}

fn model_address(params: &Params) -> (r: String)
    ensures
        r@ == addressed_model(*params),
{
    match (&params.project, &params.location) {
        (Some(project), Some(location)) => {
            let mut name = concat3("projects/", project.as_str(), "/locations/");
            name.append(location.as_str());
            name.append("/publishers/google/models/");
            name.append(params.model.as_str());
            name
        },
        _ => model_resource_name(params.model.as_str()),
    }
}

fn endpoint_address(params: &Params) -> (r: Endpoint)
    ensures
        r@ == addressed_endpoint(*params),
{
    match &params.endpoint {
        Some(url) => Endpoint::Custom(url.clone()),
        None => match (&params.project, &params.location) {
            (Some(_), Some(location)) => Endpoint::VertexAi { location: location.clone() },
            _ => Endpoint::GeminiApi,
        },
    }
}

/// The message for transcripts that have nowhere to go.
pub open spec fn no_text_output() -> Seq<char> {
    "Google dialog requires text output modality when transcription is enabled: if inputAudioTranscription or outputAudioTranscription is set, add OutputModality::Text or OutputModality::InterimText to the conversation output modalities, or set both transcription flags to false."@
}

/// What is wrong with the parameters, if anything.
pub open spec fn setup_error(params: Params, text_outputs: TextOutputs) -> Option<Seq<char>> {
    if !text_outputs.text && !text_outputs.interim && (params.input_audio_transcription
        || params.output_audio_transcription) {
        Some(no_text_output())
    } else if thinking_error(params.model@, params.thinking_level) is Some {
        thinking_error(params.model@, params.thinking_level)
    } else if non_blocking_only(params.model@) {
        tools_error(params.model@, tools_view(params.tools@))
    } else {
        None
    }
}

/// The tools of a session: those of the parameters, fitted to the model.
pub open spec fn session_tools(params: Params) -> Seq<ToolView> {
    if non_blocking_only(params.model@) {
        non_blocking_tools(tools_view(params.tools@))
    } else {
        tools_view(params.tools@)
    }
}

/// The settings that the parameters ask for. The model answers with audio alone: it does not take
/// text as well. Handles to resume the session are asked for, so that the context is kept when the
/// server has to be connected to again.
pub open spec fn setup_for(params: Params) -> SetupView {
    SetupView {
        model: addressed_model(params),
        response_modalities: seq![Modality::Audio],
        session_resumption: true,
        voice: opt_view(params.voice),
        thinking_level: params.thinking_level,
        temperature_bits: params.temperature_bits,
        instructions: opt_view(params.instructions),
        tools: if params.tools@.len() > 0 {
            Some(session_tools(params))
        } else {
            None
        },
        realtime_input_config: opt_json_text(params.realtime_input_config),
        context_window_compression: params.context_window_compression,
        input_audio_transcription: if params.input_audio_transcription {
            Some(
                (
                    texts(params.input_audio_transcription_language_codes@),
                    params.input_audio_transcription_mode,
                ),
            )
        } else {
            None
        },
        output_audio_transcription: if params.output_audio_transcription {
            Some((Seq::empty(), params.output_audio_transcription_mode))
        } else {
            None
        },
    }
}

fn clone_texts(list: &Vec<String>) -> (r: Vec<String>)
    ensures
        texts(r@) == texts(list@),
{
    let mut r: Vec<String> = Vec::new();
    let mut i: usize = 0;
    while i < list.len()
        invariant
            i <= list@.len(),
            r@ =~= list@.take(i as int),
        decreases list@.len() - i,
    {
        r.push(list[i].clone());
        i += 1;
    }
    assert(r@ =~= list@);
    r
}

/// The settings of a session for the parameters.
pub fn setup_config(params: &Params, text_outputs: TextOutputs) -> (r: Result<SetupConfig, Error>)
    ensures
        r is Ok <==> setup_error(*params, text_outputs) is None,
        r matches Ok(config) ==> config@ == setup_for(*params),
        r matches Err(e) ==> e@ == seq![setup_error(*params, text_outputs)->0],
{
    if !(text_outputs.text || text_outputs.interim) && (params.input_audio_transcription
        || params.output_audio_transcription) {
        return Err(
            Error::new(
                "Google dialog requires text output modality when transcription is enabled: if inputAudioTranscription or outputAudioTranscription is set, add OutputModality::Text or OutputModality::InterimText to the conversation output modalities, or set both transcription flags to false.",
            ),
        );
    }
    match validate_thinking_level(params) {
        Ok(()) => {},
        Err(error) => return Err(error),
    }
    let tools = match tools_for_model(params.model.as_str(), &params.tools) {
        Ok(tools) => tools,
        Err(error) => return Err(error),
    };
    let input_audio_transcription = if params.input_audio_transcription {
        Some(
            AudioTranscription {
                language_codes: clone_texts(&params.input_audio_transcription_language_codes),
                mode: params.input_audio_transcription_mode,
            },
        )
    } else {
        None
    };
    let output_audio_transcription = if params.output_audio_transcription {
        let language_codes: Vec<String> = Vec::new();
        assert(texts(language_codes@) =~= Seq::empty());
        Some(AudioTranscription { language_codes, mode: params.output_audio_transcription_mode })
    } else {
        None
    };
    let mut response_modalities: Vec<Modality> = Vec::new();
    response_modalities.push(Modality::Audio);
    assert(response_modalities@ =~= seq![Modality::Audio]);
    Ok(
        SetupConfig {
            model: model_address(params),
            response_modalities,
            session_resumption: true,
            voice: clone_opt(&params.voice),
            thinking_level: params.thinking_level,
            temperature_bits: params.temperature_bits,
            instructions: clone_opt(&params.instructions),
            tools: if params.tools.len() > 0 {
                Some(tools)
            } else {
                None
            },
            realtime_input_config: match &params.realtime_input_config {
                Some(config) => Some(clone_json(config)),
                None => None,
            },
            context_window_compression: params.context_window_compression,
            input_audio_transcription,
            output_audio_transcription,
        },
    )
}

/// What is needed to connect for the parameters.
pub fn session_config(params: &Params, text_outputs: TextOutputs) -> (r: Result<
    SessionConfig,
    Error,
>)
    ensures
        r is Ok <==> setup_error(*params, text_outputs) is None,
        r matches Ok(config) ==> config.setup@ == setup_for(*params) && config.endpoint@
            == addressed_endpoint(*params) && opt_view(config.api_key) == opt_view(params.api_key),
        r matches Err(e) ==> e@ == seq![setup_error(*params, text_outputs)->0],
{
    let setup = match setup_config(params, text_outputs) {
        Ok(setup) => setup,
        Err(error) => return Err(error),
    };
    Ok(
        SessionConfig {
            endpoint: endpoint_address(params),
            api_key: clone_opt(&params.api_key),
            setup,
        },
    )
}

/// The message that goes with a voice that is not known.
pub open spec fn unknown_voice(voice: Seq<char>) -> Seq<char> {
    "Configured voice `"@ + voice
        + "` is not a known Gemini prebuilt voice. Available voices: "@ + joined(
        voice_names(),
        ", "@,
    )
}

/// The error for a connection that failed. If the setup failed, a voice that is not known may be
/// the reason.
pub open spec fn connect_error(
    voice: Option<Seq<char>>,
    is_setup_failed: bool,
    cause: Seq<Seq<char>>,
) -> Seq<Seq<char>> {
    let base = seq!["Connecting to Gemini Live"@] + cause;
    if is_setup_failed && voice is Some && matching_name(voice_names(), voice->0) is None {
        seq![unknown_voice(voice->0)] + base
    } else {
        base
    }
}

/// Adds to the error of a connection that failed what may be the reason.
pub fn connect_error_with_voice_context(
    params: &Params,
    is_setup_failed: bool,
    error: Error,
) -> (r: Error)
    ensures
        r@ == connect_error(opt_view(params.voice), is_setup_failed, error@),
{
    let base = error.context("Connecting to Gemini Live");
    if !is_setup_failed {
        return base;
    }
    match &params.voice {
        None => base,
        Some(voice) => {
            if parse_voice_value(voice.as_str()).is_ok() {
                base
            } else {
                let names = voices();
                let available = join(&names, ", ");
                let mut message = concat3(
                    "Configured voice `",
                    voice.as_str(),
                    "` is not a known Gemini prebuilt voice. Available voices: ",
                );
                message.append(available.as_str());
                base.context(message.as_str())
            }
        },
    }
}

} // verus!

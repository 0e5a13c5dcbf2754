//! Speech synthesis.

use vstd::prelude::*;

use azure_speech::synthesizer::ssml::ssml;
use azure_speech::synthesizer::ssml::ssml::Serialize;

use crate::audio::samples_of;
use crate::audio::AudioFormat;
use crate::audio::AudioFrame;
use crate::audio::FrameView;
use crate::azure::host::addressed;
use crate::azure::host::Host;
use crate::error::Error;
use crate::input::Input;
use crate::output::duration_record;
use crate::output::emissions;
use crate::output::emit;
use crate::output::records_view;
use crate::output::BillingRecord;
use crate::output::BillingSchedule;
use crate::output::Emission;
use crate::output::EmissionView;
use crate::text::clone_opt;
use crate::text::concat3;
use crate::text::decimal;
use crate::text::decimal_text;
use crate::text::ends_with;
use crate::text::opt_view;
use crate::text::same_text;

verus! {

/// The synthesis service.
#[derive(Debug, Clone, Copy, PartialEq, Eq, Structural)]
pub struct AzureSynthesize;

/// The parameters of the service.
pub struct Params {
    pub host: Option<String>,
    pub region: Option<String>,
    pub subscription_key: String,
    pub language: String,
    pub voice: Option<String>,
}

/// The audio formats of the service that are used: 16 bit samples in one channel.
#[derive(Debug, Clone, Copy, PartialEq, Eq, Structural)]
pub enum OutputFormat {
    Raw8Khz16BitMonoPcm,
    Raw16Khz16BitMonoPcm,
    Raw22050Hz16BitMonoPcm,
    Raw24Khz16BitMonoPcm,
    Raw44100Hz16BitMonoPcm,
    Raw48Khz16BitMonoPcm,
}

/// The format of the service for a sample rate, if there is one.
pub open spec fn raw_format(sample_rate: u32) -> Option<OutputFormat> {
    if sample_rate == 8000 {
        Some(OutputFormat::Raw8Khz16BitMonoPcm)
    } else if sample_rate == 16000 {
        Some(OutputFormat::Raw16Khz16BitMonoPcm)
    } else if sample_rate == 22050 {
        Some(OutputFormat::Raw22050Hz16BitMonoPcm)
    } else if sample_rate == 24000 {
        Some(OutputFormat::Raw24Khz16BitMonoPcm)
    } else if sample_rate == 44100 {
        Some(OutputFormat::Raw44100Hz16BitMonoPcm)
    } else if sample_rate == 48000 {
        Some(OutputFormat::Raw48Khz16BitMonoPcm)
    } else {
        None
    }
}

/// What is wrong with a format, if anything.
pub open spec fn output_format_error(format: AudioFormat) -> Option<Seq<char>> {
    if format.channels != 1 {
        Some("Only mono supported"@)
    } else if raw_format(format.sample_rate) is None {
        Some(
            "Unsupported sample rate: "@ + decimal(format.sample_rate as nat)
                + ". Supported rates are: 8000, 16000, 22050, 24000, 44100, 48000 Hz"@,
        )
    } else {
        None
    }
}

/// The format of the service for a format.
pub fn import_output_audio_format(audio_format: AudioFormat) -> (r: Result<OutputFormat, Error>)
    ensures
        r is Ok <==> output_format_error(audio_format) is None,
        r matches Ok(format) ==> Some(format) == raw_format(audio_format.sample_rate),
        r matches Err(e) ==> e@ == seq![output_format_error(audio_format)->0],
{
    if audio_format.channels != 1 {
        return Err(Error::new("Only mono supported"));
    }
    match audio_format.sample_rate {
        8000 => Ok(OutputFormat::Raw8Khz16BitMonoPcm),
        16000 => Ok(OutputFormat::Raw16Khz16BitMonoPcm),
        22050 => Ok(OutputFormat::Raw22050Hz16BitMonoPcm),
        24000 => Ok(OutputFormat::Raw24Khz16BitMonoPcm),
        44100 => Ok(OutputFormat::Raw44100Hz16BitMonoPcm),
        48000 => Ok(OutputFormat::Raw48Khz16BitMonoPcm),
        _ => {
            let rate = decimal_text(audio_format.sample_rate as u64);
            Err(
                Error::from_text(
                    concat3(
                        "Unsupported sample rate: ",
                        rate.as_str(),
                        ". Supported rates are: 8000, 16000, 22050, 24000, 44100, 48000 Hz",
                    ),
                ),
            )
        },
    }
}

/// The voice for a language, if there is one.
pub open spec fn default_voice(language: Seq<char>) -> Option<Seq<char>> {
    if language == "en-US"@ {
        Some("en-US-JennyNeural"@)
    } else if language == "en-GB"@ {
        Some("en-GB-LibbyNeural"@)
    } else if language == "de-DE"@ {
        Some("de-DE-KatjaNeural"@)
    } else {
        None
    }
}

/// The message for a language without a voice.
pub open spec fn no_default_voice() -> Seq<char> {
    "No default voice for this language defined, select one from here: <https://learn.microsoft.com/en-us/azure/ai-services/speech-service/language-support?tabs=tts>"@
}

/// The voice for a language if none is chosen.
pub fn resolve_default_voice(language: &str) -> (r: Result<&'static str, Error>)
    ensures
        r is Ok <==> default_voice(language@) is Some,
        r matches Ok(voice) ==> Some(voice@) == default_voice(language@),
        r matches Err(e) ==> e@ == seq![no_default_voice()],
{
    if same_text(language, "en-US") {
        Ok("en-US-JennyNeural")
    } else if same_text(language, "en-GB") {
        Ok("en-GB-LibbyNeural")
    } else if same_text(language, "de-DE") {
        Ok("de-DE-KatjaNeural")
    } else {
        Err(
            Error::new(
                "No default voice for this language defined, select one from here: <https://learn.microsoft.com/en-us/azure/ai-services/speech-service/language-support?tabs=tts>",
            ),
        )
    }
}

/// What a voice is billed as.
#[derive(Debug, Clone, Copy, PartialEq, Eq, Structural)]
pub enum BillingScope {
    TurboMultilingualNeural,
    MultilingualNeuralHD,
    MultilingualNeural,
    DragonHDFlashLatestNeural,
    DragonHDLatestNeural,
    Neural,
}

/// The name of a billing scope.
pub open spec fn scope_name(scope: BillingScope) -> Seq<char> {
    match scope {
        BillingScope::TurboMultilingualNeural => "TurboMultilingualNeural"@,
        BillingScope::MultilingualNeuralHD => "MultilingualNeuralHD"@,
        BillingScope::MultilingualNeural => "MultilingualNeural"@,
        BillingScope::DragonHDFlashLatestNeural => "DragonHDFlashLatestNeural"@,
        BillingScope::DragonHDLatestNeural => "DragonHDLatestNeural"@,
        BillingScope::Neural => "Neural"@,
    }
}

impl Default for BillingScope {
    fn default() -> (r: BillingScope)
        ensures
            r == BillingScope::TurboMultilingualNeural,
    {
        BillingScope::TurboMultilingualNeural
    }
}

impl BillingScope {
    /// The name of the scope.
    pub fn to_string(&self) -> (r: String)
        ensures
            r@ == scope_name(*self),
    {
        let name = match self {
            BillingScope::TurboMultilingualNeural => "TurboMultilingualNeural",
            BillingScope::MultilingualNeuralHD => "MultilingualNeuralHD",
            BillingScope::MultilingualNeural => "MultilingualNeural",
            BillingScope::DragonHDFlashLatestNeural => "DragonHDFlashLatestNeural",
            BillingScope::DragonHDLatestNeural => "DragonHDLatestNeural",
            BillingScope::Neural => "Neural",
        };
        name.to_owned()
    }
}

/// The scope that the ending of a voice's name tells, if it tells one. Longer endings come first.
pub open spec fn scope_of(voice: Seq<char>) -> Option<BillingScope> {
    if "TurboMultilingualNeural"@.is_suffix_of(voice) {
        Some(BillingScope::TurboMultilingualNeural)
    } else if "MultilingualNeuralHD"@.is_suffix_of(voice) {
        Some(BillingScope::MultilingualNeuralHD)
    } else if "MultilingualNeural"@.is_suffix_of(voice) {
        Some(BillingScope::MultilingualNeural)
    } else if ":DragonHDFlashLatestNeural"@.is_suffix_of(voice) {
        Some(BillingScope::DragonHDFlashLatestNeural)
    } else if ":DragonHDLatestNeural"@.is_suffix_of(voice) {
        Some(BillingScope::DragonHDLatestNeural)
    } else if "Neural"@.is_suffix_of(voice) {
        Some(BillingScope::Neural)
    } else {
        None
    }
}

/// The message for a voice without a scope.
pub open spec fn unknown_voice(voice: Seq<char>) -> Seq<char> {
    "Unknown voice format: "@ + voice + ". Cannot determine billing scope."@
}

/// The scope that a voice is billed as.
pub fn voice_to_billing_scope(voice: &str) -> (r: Result<BillingScope, Error>)
    ensures
        r is Ok <==> scope_of(voice@) is Some,
        r matches Ok(scope) ==> Some(scope) == scope_of(voice@),
        r matches Err(e) ==> e@ == seq![unknown_voice(voice@)],
{
    if ends_with(voice, "TurboMultilingualNeural") {
        Ok(BillingScope::TurboMultilingualNeural)
    } else if ends_with(voice, "MultilingualNeuralHD") {
        Ok(BillingScope::MultilingualNeuralHD)
    } else if ends_with(voice, "MultilingualNeural") {
        Ok(BillingScope::MultilingualNeural)
    } else if ends_with(voice, ":DragonHDFlashLatestNeural") {
        Ok(BillingScope::DragonHDFlashLatestNeural)
    } else if ends_with(voice, ":DragonHDLatestNeural") {
        Ok(BillingScope::DragonHDLatestNeural)
    } else if ends_with(voice, "Neural") {
        Ok(BillingScope::Neural)
    } else {
        Err(
            Error::from_text(
                concat3("Unknown voice format: ", voice, ". Cannot determine billing scope."),
            ),
        )
    }
}

/// A character as it is written in XML: those with a meaning of their own are escaped.
pub open spec fn escaped_char(c: char) -> Seq<char> {
    match c {
        '"' => "&quot;"@,
        '\'' => "&apos;"@,
        '<' => "&lt;"@,
        '>' => "&gt;"@,
        '&' => "&amp;"@,
        _ => seq![c],
    }
}

/// A text as it is written in XML.
pub open spec fn escaped(text: Seq<char>) -> Seq<char> {
    text.map_values(|c: char| escaped_char(c)).flatten()
}

/// The document for a text in a language, spoken by a voice.
pub open spec fn ssml_document(
    language: Seq<char>,
    voice: Seq<char>,
    text: Seq<char>,
) -> Seq<char> {
    "<speak version=\"1.0\" xmlns=\"http://www.w3.org/2001/10/synthesis\" xml:lang=\""@ + escaped(
        language,
    ) + "\" xmlns:mstts=\"http://www.w3.org/2001/mstts\"><voice name=\""@ + escaped(voice)
        + "\">"@ + escaped(text) + "</voice></speak>"@
}

/// Calls `speak`, `voice` and `Serialize::serialize_to_string` of the `ssml` crate that the
/// `azure-speech` crate hands on, with the options for Azure. They write one element in another,
/// without spaces between them, and escape the language, the voice and the text. Writing to a
/// string does not fail.
#[verifier::external_body]
fn write_ssml(language: &str, voice: &str, text: &str) -> (r: Result<String, String>)
    ensures
        r is Ok,
        r matches Ok(document) ==> document@ == ssml_document(language@, voice@, text@),
{
    let document = ssml::speak(Some(language), [ssml::voice(voice, [text])]);
    let flavor = ssml::Flavor::MicrosoftAzureCognitiveSpeechServices;
    match document.serialize_to_string(&ssml::SerializeOptions::default().flavor(flavor)) {
        Ok(text) => Ok(text),
        Err(error) => Err(azure_speech::Error::InternalError(error.to_string()).to_string()),
    }
}

/// A text to synthesize. It goes to the service as a document, so that any language and any voice
/// can be named.
pub struct AzureSynthesizeRequest {
    pub language: String,
    pub voice: String,
    pub text: String,
}

impl AzureSynthesizeRequest {
    /// The document for the text.
    pub fn to_ssml(&self) -> (r: Result<String, Error>)
        ensures
            r is Ok,
            r matches Ok(document) ==> document@ == ssml_document(
                self.language@,
                self.voice@,
                self.text@,
            ),
    {
        match write_ssml(self.language.as_str(), self.voice.as_str(), self.text.as_str()) {
            Ok(document) => Ok(document),
            Err(message) => Err(Error::from_text(message)),
        }
    }
}

/// What a conversation is held with.
pub struct SynthesisPlan {
    pub host: Host,
    pub format: OutputFormat,
    pub language: String,
    pub voice: String,
    pub billing_scope: BillingScope,
    /// Whether the service finds out the language itself.
    pub auto_detect_language: bool,
    /// Whether the service reports the end of a session, which the bill is made from.
    pub session_end: bool,
}

/// The voice that the parameters mean, if there is one.
pub open spec fn chosen_voice(params: Params) -> Option<Seq<char>> {
    match opt_view(params.voice) {
        Some(voice) => Some(voice),
        None => default_voice(params.language@),
    }
}

/// What is wrong with the parameters, if anything.
pub open spec fn plan_error(params: Params, output_format: AudioFormat) -> Option<Seq<char>> {
    let address = addressed(
        opt_view(params.host),
        opt_view(params.region),
        "Neither host nor region is defined in params"@,
    );
    if output_format_error(output_format) is Some {
        output_format_error(output_format)
    } else if chosen_voice(params) is None {
        Some(no_default_voice())
    } else if scope_of(chosen_voice(params)->0) is None {
        Some(unknown_voice(chosen_voice(params)->0))
    } else if address is Err {
        Some(address->Err_0)
    } else {
        None
    }
}

/// An event in the course of a synthesis.
pub enum Event {
    /// Audio, in the bytes of 16 bit samples.
    Synthesising(Vec<u8>),
    AudioMetadata(Vec<Metadata>),
    /// Any other event.
    Other,
}

/// Something about the audio.
#[derive(Debug, Clone, Copy, PartialEq, Eq, Structural)]
pub enum Metadata {
    /// The end of the audio, in units of 100 nanoseconds.
    SessionEnd { offset: u64 },
    /// Anything else.
    Other,
}

/// The bill at the end of the audio.
pub open spec fn session_bill(
    request_id: Option<Seq<char>>,
    scope: BillingScope,
    offset: u64,
) -> EmissionView<()> {
    EmissionView::BillingRecords {
        request_id,
        scope: Some(scope_name(scope)),
        records: seq![duration_record("audio:synthesized"@, (offset * 100) as u128)],
        schedule: BillingSchedule::Media,
    }
}

/// The bills for metadata.
pub open spec fn metadata_bills(
    request_id: Option<Seq<char>>,
    scope: BillingScope,
    metadata: Seq<Metadata>,
) -> Seq<EmissionView<()>>
    decreases metadata.len(),
{
    if metadata.len() == 0 {
        Seq::empty()
    } else {
        let before = metadata_bills(request_id, scope, metadata.drop_last());
        match metadata.last() {
            Metadata::SessionEnd { offset } => before.push(
                session_bill(request_id, scope, offset),
            ),
            Metadata::Other => before,
        }
    }
}

/// What is put out for an event.
pub open spec fn event_out(
    event: Event,
    output_format: AudioFormat,
    request_id: Option<Seq<char>>,
    scope: BillingScope,
) -> Seq<EmissionView<()>> {
    match event {
        Event::Synthesising(bytes) => seq![
            EmissionView::Audio(FrameView { format: output_format, samples: samples_of(bytes@) }),
        ],
        Event::AudioMetadata(metadata) => metadata_bills(request_id, scope, metadata@),
        Event::Other => Seq::empty(),
    }
}

fn bill_metadata(
    request_id: &Option<String>,
    scope: BillingScope,
    metadata: &Vec<Metadata>,
    out: &mut Vec<Emission<()>>,
)
    ensures
        emissions(final(out)@) == emissions(old(out)@) + metadata_bills(
            opt_view(*request_id),
            scope,
            metadata@,
        ),
{
    let mut i: usize = 0;
    assert(metadata@.take(0).len() == 0);
    assert(emissions(out@) + Seq::empty() =~= emissions(out@));
    while i < metadata.len()
        invariant
            i <= metadata@.len(),
            emissions(out@) == emissions(old(out)@) + metadata_bills(
                opt_view(*request_id),
                scope,
                metadata@.take(i as int),
            ),
        decreases metadata@.len() - i,
    {
        let ghost before = metadata_bills(opt_view(*request_id), scope, metadata@.take(i as int));
        proof {
            assert(metadata@.take(i + 1).drop_last() =~= metadata@.take(i as int));
            assert(metadata@.take(i + 1).last() == metadata@[i as int]);
        }
        match metadata[i] {
            Metadata::SessionEnd { offset } => {
                let mut records: Vec<BillingRecord> = Vec::new();
                records.push(BillingRecord::duration("audio:synthesized", offset as u128 * 100));
                assert(records_view(records@) =~= seq![
                    duration_record("audio:synthesized"@, (offset * 100) as u128),
                ]);
                emit(
                    out,
                    Emission::BillingRecords {
                        request_id: clone_opt(request_id),
                        scope: Some(scope.to_string()),
                        records,
                        schedule: BillingSchedule::Media,
                    },
                );
                assert(emissions(out@) =~= emissions(old(out)@) + before.push(
                    session_bill(opt_view(*request_id), scope, offset),
                ));
            },
            Metadata::Other => {},
        }
        i += 1;
    }
    assert(metadata@.take(i as int) =~= metadata@);
}

/// A request that is being synthesized.
pub struct ActiveRequest {
    pub request_id: Option<String>,
    pub request: AzureSynthesizeRequest,
}

impl AzureSynthesize {
    /// Decides how a conversation is held.
    pub fn plan(&self, params: Params, output_format: AudioFormat) -> (r: Result<
        SynthesisPlan,
        Error,
    >)
        ensures
            r is Ok <==> plan_error(params, output_format) is None,
            r matches Ok(plan) ==> {
                &&& Some(plan.format) == raw_format(output_format.sample_rate)
                &&& plan.language@ == params.language@
                &&& Some(plan.voice@) == chosen_voice(params)
                &&& Some(plan.billing_scope) == scope_of(plan.voice@)
                &&& plan.host.address@ == addressed(
                    opt_view(params.host),
                    opt_view(params.region),
                    "Neither host nor region is defined in params"@,
                )->Ok_0
                &&& plan.host.subscription_key@ == params.subscription_key@
                &&& !plan.auto_detect_language
                &&& plan.session_end
            },
            r matches Err(e) ==> e@ == seq![plan_error(params, output_format)->0],
    {
        let format = match import_output_audio_format(output_format) {
            Ok(format) => format,
            Err(error) => return Err(error),
        };
        let voice = match params.voice {
            Some(voice) => voice,
            None => match resolve_default_voice(params.language.as_str()) {
                Ok(voice) => voice.to_owned(),
                Err(error) => return Err(error),
            },
        };
        let billing_scope = match voice_to_billing_scope(voice.as_str()) {
            Ok(scope) => scope,
            Err(error) => return Err(error),
        };
        match Host::from_params(
            params.host,
            params.region,
            params.subscription_key,
            "Neither host nor region is defined in params",
        ) {
            Ok(host) => Ok(
                SynthesisPlan {
                    host,
                    format,
                    language: params.language,
                    voice,
                    billing_scope,
                    auto_detect_language: false,
                    session_end: true,
                },
            ),
            Err(error) => Err(error),
        }
    }

    /// Takes an input, which has to be text, as a request. At the end of the input there is none.
    pub fn conversation(&self, plan: &SynthesisPlan, input: Option<Input<()>>) -> (r: Result<
        Option<ActiveRequest>,
        Error,
    >)
        ensures
            match input {
                None => r == Ok::<Option<ActiveRequest>, Error>(None),
                Some(Input::Text { request_id, text, .. }) => {
                    &&& r matches Ok(Some(active))
                    &&& opt_view(active.request_id) == opt_view(request_id)
                    &&& active.request.language@ == plan.language@
                    &&& active.request.voice@ == plan.voice@
                    &&& active.request.text@ == text@
                },
                Some(_) => r matches Err(e) && e@ == seq!["Unexpected input"@],
            },
    {
        match input {
            None => Ok(None),
            Some(Input::Text { request_id, text, .. }) => Ok(
                Some(
                    ActiveRequest {
                        request_id,
                        request: AzureSynthesizeRequest {
                            language: plan.language.clone(),
                            voice: plan.voice.clone(),
                            text,
                        },
                    },
                ),
            ),
            Some(_) => Err(Error::new("Unexpected input")),
        }
    }

    /// Processes what comes next for a request: an event, a failure, or the end, which completes
    /// the request. Returns whether more is to come.
    pub fn process_event(
        &self,
        plan: &SynthesisPlan,
        request_id: &Option<String>,
        event: Option<Result<Event, Error>>,
        output_format: AudioFormat,
        out: &mut Vec<Emission<()>>,
    ) -> (r: Result<bool, Error>)
        ensures
            match event {
                Some(Ok(event)) => {
                    &&& r == Ok::<bool, Error>(true)
                    &&& emissions(final(out)@) == emissions(old(out)@) + event_out(
                        event,
                        output_format,
                        opt_view(*request_id),
                        plan.billing_scope,
                    )
                },
                Some(Err(error)) => {
                    &&& r matches Err(e)
                    &&& e@ == seq!["Azure synthesizer event error"@] + error@
                    &&& final(out)@ == old(out)@
                },
                None => {
                    &&& r == Ok::<bool, Error>(false)
                    &&& emissions(final(out)@) == emissions(old(out)@).push(
                        EmissionView::RequestCompleted { request_id: opt_view(*request_id) },
                    )
                },
            },
    {
        match event {
            Some(Ok(event)) => {
                match event {
                    Event::Synthesising(bytes) => {
                        emit(out, Emission::Audio(AudioFrame::from_le_bytes(output_format, &bytes)));
                        assert(emissions(out@) =~= emissions(old(out)@) + seq![
                            EmissionView::Audio(
                                FrameView { format: output_format, samples: samples_of(bytes@) },
                            ),
                        ]);
                    },
                    Event::AudioMetadata(metadata) => {
                        bill_metadata(request_id, plan.billing_scope, &metadata, out);
                    },
                    Event::Other => {
                        assert(emissions(out@) =~= emissions(old(out)@) + Seq::empty());
                    },
                }
                Ok(true)
            },
            Some(Err(error)) => Err(error.context("Azure synthesizer event error")),
            None => {
                emit(out, Emission::RequestCompleted { request_id: clone_opt(request_id) });
                Ok(false)
            },
        }
    }
}

} // verus!

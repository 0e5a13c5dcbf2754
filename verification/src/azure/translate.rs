//! Translation of speech.

use vstd::prelude::*;

use crate::audio::le_bytes;
use crate::audio::AudioFormat;
use crate::audio::AudioFrame;
use crate::audio::FrameView;
use crate::azure::host::addressed;
use crate::azure::host::Host;
use crate::azure::transcribe::OutputDetail;
use crate::azure::transcribe::Profanity;
use crate::azure::wav::has_header;
use crate::azure::wav::infinite_header;
use crate::azure::wav::wav_header;
use crate::error::Error;
use crate::input::Input;
use crate::modality::OutputModality;
use crate::openai_dialog::session::describe_format;
use crate::openai_dialog::session::format_text;
use crate::output::emissions;
use crate::output::emit;
use crate::output::plain_text;
use crate::output::Emission;
use crate::output::EmissionView;
use crate::text::concat3;
use crate::text::opt_view;

verus! {

/// The translation service.
#[derive(Debug, Clone, Copy, PartialEq, Eq, Structural)]
pub struct AzureTranslate;

/// The parameters of the service.
pub struct Params {
    pub host: Option<String>,
    pub region: Option<String>,
    pub subscription_key: String,
    pub recognition_language: String,
    pub target_language: String,
}

/// What a conversation puts out.
#[derive(Debug, Clone, Copy, PartialEq, Eq, Structural)]
pub struct OutputModalities {
    pub text: bool,
    pub interim_text: bool,
    pub audio: Option<AudioFormat>,
}

/// What the modalities ask for, up to the first that repeats one, or the message about that one.
pub open spec fn collected(modalities: Seq<OutputModality>) -> Result<OutputModalities, Seq<char>>
    decreases modalities.len(),
{
    if modalities.len() == 0 {
        Ok(OutputModalities { text: false, interim_text: false, audio: None })
    } else {
        match collected(modalities.drop_last()) {
            Err(message) => Err(message),
            Ok(before) => match modalities.last() {
                OutputModality::Audio { format } => if before.audio is Some {
                    Err("At most one audio output is supported"@)
                } else {
                    Ok(OutputModalities { audio: Some(format), ..before })
                },
                OutputModality::Text => if before.text {
                    Err("at most one text output is supported"@)
                } else {
                    Ok(OutputModalities { text: true, ..before })
                },
                OutputModality::InterimText => if before.interim_text {
                    Err("At most one interim text modality is supported"@)
                } else {
                    Ok(OutputModalities { interim_text: true, ..before })
                },
            },
        }
    }
}

/// What is wrong with a combination of outputs, if anything.
pub open spec fn combination_error(modalities: OutputModalities) -> Option<Seq<char>> {
    if modalities.interim_text && !modalities.text {
        Some("OutputModalities: InterimText requested without Text in output modalities"@)
    } else if !modalities.text && !modalities.interim_text && modalities.audio is None {
        Some("At least Text or Audio must be requested in output modalities"@)
    } else {
        None
    }
}

/// The outputs that the modalities ask for, or why they do not go together.
pub open spec fn accepted(modalities: Seq<OutputModality>) -> Result<OutputModalities, Seq<char>> {
    match collected(modalities) {
        Err(message) => Err(message),
        Ok(outputs) => match combination_error(outputs) {
            Some(message) => Err(message),
            None => Ok(outputs),
        },
    }
}

proof fn lemma_collected_stops(modalities: Seq<OutputModality>, n: int)
    requires
        0 <= n <= modalities.len(),
    ensures
        collected(modalities.take(n)) is Err ==> collected(modalities) == collected(
            modalities.take(n),
        ),
    decreases modalities.len() - n,
{
    if n < modalities.len() {
        lemma_collected_stops(modalities, n + 1);
        assert(modalities.take(n + 1).drop_last() =~= modalities.take(n));
    } else {
        assert(modalities.take(n) =~= modalities);
    }
}

impl OutputModalities {
    /// The outputs that the modalities ask for, each at most once.
    pub fn from_modalities(output_modalities: &Vec<OutputModality>) -> (r: Result<
        OutputModalities,
        Error,
    >)
        ensures
            r is Ok <==> accepted(output_modalities@) is Ok,
            r matches Ok(outputs) ==> accepted(output_modalities@)->Ok_0 == outputs,
            r matches Err(e) ==> e@ == seq![accepted(output_modalities@)->Err_0],
    {
        let mut modalities = OutputModalities { text: false, interim_text: false, audio: None };
        let mut i: usize = 0;
        assert(output_modalities@.take(0).len() == 0);
        while i < output_modalities.len()
            invariant
                i <= output_modalities@.len(),
                collected(output_modalities@.take(i as int)) == Ok::<OutputModalities, Seq<char>>(
                    modalities,
                ),
            decreases output_modalities@.len() - i,
        {
            proof {
                let next = output_modalities@.take(i + 1);
                assert(next.drop_last() =~= output_modalities@.take(i as int));
                assert(next.last() == output_modalities@[i as int]);
                lemma_collected_stops(output_modalities@, i + 1);
            }
            match output_modalities[i] {
                OutputModality::Audio { format } => {
                    if modalities.audio.is_some() {
                        return Err(Error::new("At most one audio output is supported"));
                    }
                    modalities.audio = Some(format);
                },
                OutputModality::Text => {
                    if modalities.text {
                        return Err(Error::new("at most one text output is supported"));
                    }
                    modalities.text = true;
                },
                OutputModality::InterimText => {
                    if modalities.interim_text {
                        return Err(Error::new("At most one interim text modality is supported"));
                    }
                    modalities.interim_text = true;
                },
            }
            i += 1;
        }
        assert(output_modalities@.take(i as int) =~= output_modalities@);
        match modalities.validate() {
            Ok(()) => Ok(modalities),
            Err(error) => Err(error),
        }
    }

    /// Checks that the outputs go together.
    pub fn validate(&self) -> (r: Result<(), Error>)
        ensures
            r is Ok <==> combination_error(*self) is None,
            r matches Err(e) ==> e@ == seq![combination_error(*self)->0],
    {
        if self.interim_text && !self.text {
            return Err(
                Error::new(
                    "OutputModalities: InterimText requested without Text in output modalities",
                ),
            );
        }
        if !self.text && !self.interim_text && self.audio.is_none() {
            return Err(
                Error::new("At least Text or Audio must be requested in output modalities"),
            );
        }
        Ok(())
    }
}

/// The one format that audio comes out in.
pub open spec fn translated_format() -> AudioFormat {
    AudioFormat { channels: 1, sample_rate: 16000 }
}

/// What a conversation is held with.
pub struct TranslatePlan {
    pub host: Host,
    pub recognition_language: String,
    pub target_language: String,
    pub profanity: Profanity,
    pub output_detail: OutputDetail,
    /// Whether the translation is spoken.
    pub synthesize: bool,
    pub outputs: OutputModalities,
    /// What the stream of audio begins with.
    pub wav_header: Vec<u8>,
}

/// What is wrong with the parameters, if anything.
pub open spec fn plan_error(params: Params, modalities: Seq<OutputModality>) -> Option<Seq<char>> {
    let address = addressed(
        opt_view(params.host),
        opt_view(params.region),
        "Neither host nor region defined in params"@,
    );
    match accepted(modalities) {
        Err(message) => Some(message),
        Ok(outputs) => if outputs.audio is Some && outputs.audio->0 != translated_format() {
            Some(
                "Only "@ + format_text(translated_format())
                    + " is supported, but output modalities contains "@ + format_text(
                    outputs.audio->0,
                ),
            )
        } else if address is Err {
            Some(address->Err_0)
        } else {
            None
        },
    }
}

/// An event of the service.
pub enum Event {
    SessionStarted,
    SessionEnded,
    StartDetected,
    EndDetected,
    /// What was translated so far.
    Translating { text: String },
    /// What was translated in the end.
    Translated { text: String },
    /// The spoken translation.
    TranslationSynthesis { samples: Vec<i16> },
    NoMatch,
}

/// What is put out for an event.
pub open spec fn event_out(event: Event, outputs: OutputModalities) -> Seq<EmissionView<()>> {
    match event {
        Event::Translating { text } => if outputs.interim_text {
            seq![plain_text(false, text@)]
        } else {
            Seq::empty()
        },
        Event::Translated { text } => if outputs.interim_text {
            seq![plain_text(true, text@)]
        } else {
            Seq::empty()
        },
        Event::TranslationSynthesis { samples } => seq![
            EmissionView::Audio(FrameView { format: translated_format(), samples: samples@ }),
        ],
        _ => Seq::empty(),
    }
}

impl AzureTranslate {
    /// Decides how a conversation is held.
    pub fn plan(
        &self,
        params: Params,
        input_format: AudioFormat,
        output_modalities: &Vec<OutputModality>,
    ) -> (r: Result<TranslatePlan, Error>)
        requires
            has_header(input_format),
        ensures
            r is Ok <==> plan_error(params, output_modalities@) is None,
            r matches Ok(plan) ==> {
                &&& plan.outputs == accepted(output_modalities@)->Ok_0
                &&& plan.synthesize == (plan.outputs.audio is Some)
                &&& plan.recognition_language@ == params.recognition_language@
                &&& plan.target_language@ == params.target_language@
                &&& plan.profanity == Profanity::Raw
                &&& plan.output_detail == OutputDetail::Detailed
                &&& plan.host.subscription_key@ == params.subscription_key@
                &&& plan.host.address@ == addressed(
                    opt_view(params.host),
                    opt_view(params.region),
                    "Neither host nor region defined in params"@,
                )->Ok_0
                &&& plan.wav_header@ == wav_header(input_format)
            },
            r matches Err(e) ==> e@ == seq![plan_error(params, output_modalities@)->0],
    {
        let outputs = match OutputModalities::from_modalities(output_modalities) {
            Ok(outputs) => outputs,
            Err(error) => return Err(error),
        };
        let only = AudioFormat::new(1, 16000);
        match outputs.audio {
            Some(format) => {
                if format != only {
                    let supported = describe_format(only);
                    let actual = describe_format(format);
                    let mut message = concat3(
                        "Only ",
                        supported.as_str(),
                        " is supported, but output modalities contains ",
                    );
                    message.append(actual.as_str());
                    return Err(Error::from_text(message));
                }
            },
            None => {},
        }
        match Host::from_params(
            params.host,
            params.region,
            params.subscription_key,
            "Neither host nor region defined in params",
        ) {
            Ok(host) => Ok(
                TranslatePlan {
                    host,
                    recognition_language: params.recognition_language,
                    target_language: params.target_language,
                    profanity: Profanity::Raw,
                    output_detail: OutputDetail::Detailed,
                    synthesize: outputs.audio.is_some(),
                    outputs,
                    wav_header: infinite_header(input_format),
                },
            ),
            Err(error) => Err(error),
        }
    }

    /// The bytes to send for an input. Anything but audio ends the stream of audio.
    pub fn send_audio(&self, input: Option<Input<()>>) -> (r: Option<Vec<u8>>)
        ensures
            match input {
                Some(Input::Audio { frame }) => r is Some && r->0@ == le_bytes(frame@.samples),
                _ => r is None,
            },
    {
        match input {
            Some(Input::Audio { frame }) => Some(frame.to_le_bytes()),
            _ => None,
        }
    }

    /// Processes an event of the service.
    pub fn conversation(
        &self,
        event: Event,
        outputs: &OutputModalities,
        out: &mut Vec<Emission<()>>,
    )
        ensures
            emissions(final(out)@) == emissions(old(out)@) + event_out(event, *outputs),
    {
        match event {
            Event::Translating { text } => {
                if outputs.interim_text {
                    emit(
                        out,
                        Emission::Text { is_final: false, text, language: None, speaker: None },
                    );
                }
            },
            Event::Translated { text } => {
                if outputs.interim_text {
                    emit(
                        out,
                        Emission::Text { is_final: true, text, language: None, speaker: None },
                    );
                }
            },
            Event::TranslationSynthesis { samples } => {
                emit(
                    out,
                    Emission::Audio(AudioFrame { format: AudioFormat::new(1, 16000), samples }),
                );
            },
            _ => {},
        }
        assert(emissions(out@) =~= emissions(old(out)@) + event_out(event, *outputs));
    }
}

} // verus!

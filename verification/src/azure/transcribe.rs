//! Transcription.

use vstd::prelude::*;

use crate::audio::duration_nanos;
use crate::audio::le_bytes;
use crate::audio::AudioFormat;
use crate::azure::host::addressed;
use crate::azure::host::Host;
use crate::azure::wav::has_header;
use crate::azure::wav::infinite_header;
use crate::azure::wav::wav_header;
use crate::error::Error;
use crate::input::Input;
use crate::output::bill_now;
use crate::output::duration_record;
use crate::output::emissions;
use crate::output::emit;
use crate::output::emit_duration_bill;
use crate::output::plain_text;
use crate::output::Emission;
use crate::output::EmissionView;
use crate::text::opt_view;

verus! {

/// The transcription service.
#[derive(Debug, Clone, Copy, PartialEq, Eq, Structural)]
pub struct AzureTranscribe;

/// The parameters of the service.
pub struct Params {
    pub host: Option<String>,
    pub region: Option<String>,
    pub subscription_key: String,
    pub language: String,
    /// Whether quiet audio is silenced before it is sent.
    pub speech_gate: bool,
}

/// What becomes of profanity.
#[derive(Debug, Clone, Copy, PartialEq, Eq, Structural)]
pub enum Profanity {
    Masked,
    Removed,
    Raw,
}

/// How much the service tells of what it recognized.
#[derive(Debug, Clone, Copy, PartialEq, Eq, Structural)]
pub enum OutputDetail {
    Simple,
    Detailed,
}

/// What a conversation is held with.
pub struct TranscribePlan {
    pub host: Host,
    pub language: String,
    pub profanity: Profanity,
    pub output_detail: OutputDetail,
    pub speech_gate: bool,
    /// What the stream of audio begins with.
    pub wav_header: Vec<u8>,
}

/// An event of the service.
pub enum Event {
    SessionStarted,
    SessionEnded,
    StartDetected,
    EndDetected,
    /// What was recognized so far.
    Recognizing { text: String },
    /// What was recognized in the end.
    Recognized { text: String },
    UnMatch,
}

/// What is put out for an event.
pub open spec fn event_out(event: Event) -> Seq<EmissionView<()>> {
    match event {
        Event::Recognizing { text } => seq![plain_text(false, text@)],
        Event::Recognized { text } => seq![plain_text(true, text@)],
        _ => Seq::empty(),
    }
}

impl AzureTranscribe {
    /// Decides how a conversation is held.
    pub fn plan(&self, params: Params, input_format: AudioFormat) -> (r: Result<
        TranscribePlan,
        Error,
    >)
        requires
            has_header(input_format),
        ensures
            ({
                let address = addressed(
                    opt_view(params.host),
                    opt_view(params.region),
                    "Neither host nor region defined in params"@,
                );
                &&& r is Ok <==> address is Ok
                &&& r matches Ok(plan) ==> {
                    &&& plan.host.address@ == address->Ok_0
                    &&& plan.host.subscription_key@ == params.subscription_key@
                    &&& plan.language@ == params.language@
                    &&& plan.profanity == Profanity::Raw
                    &&& plan.output_detail == OutputDetail::Detailed
                    &&& plan.speech_gate == params.speech_gate
                    &&& plan.wav_header@ == wav_header(input_format)
                }
                &&& r matches Err(e) ==> e@ == seq![address->Err_0]
            }),
    {
        match Host::from_params(
            params.host,
            params.region,
            params.subscription_key,
            "Neither host nor region defined in params",
        ) {
            Ok(host) => Ok(
                TranscribePlan {
                    host,
                    language: params.language,
                    profanity: Profanity::Raw,
                    output_detail: OutputDetail::Detailed,
                    speech_gate: params.speech_gate,
                    wav_header: infinite_header(input_format),
                },
            ),
            Err(error) => Err(error),
        }
    }

    /// The bytes to send for an input, which is billed as it is sent. Anything but audio ends the
    /// stream of audio.
    pub fn send_audio(&self, input: Option<Input<()>>, out: &mut Vec<Emission<()>>) -> (r: Option<
        Vec<u8>,
    >)
        requires
            input matches Some(Input::Audio { frame }) ==> frame.format.valid(),
        ensures
            match input {
                Some(Input::Audio { frame }) => {
                    &&& r matches Some(bytes)
                    &&& bytes@ == le_bytes(frame@.samples)
                    &&& emissions(final(out)@) == emissions(old(out)@).push(
                        bill_now(
                            None,
                            None,
                            seq![
                                duration_record(
                                    "input:audio"@,
                                    duration_nanos(frame.format, frame@.samples.len()) as u128,
                                ),
                            ],
                        ),
                    )
                },
                _ => r is None && final(out)@ == old(out)@,
            },
    {
        match input {
            Some(Input::Audio { frame }) => {
                let bytes = frame.to_le_bytes();
                let duration: u128 = frame.duration();
                emit_duration_bill(out, None, None, "input:audio", duration);
                Some(bytes)
            },
            _ => None,
        }
    }

    /// Processes an event of the service.
    pub fn conversation(&self, event: Event, out: &mut Vec<Emission<()>>)
        ensures
            emissions(final(out)@) == emissions(old(out)@) + event_out(event),
    {
        match event {
            Event::Recognizing { text } => emit(
                out,
                Emission::Text { is_final: false, text, language: None, speaker: None },
            ),
            Event::Recognized { text } => emit(
                out,
                Emission::Text { is_final: true, text, language: None, speaker: None },
            ),
            _ => {},
        }
        assert(emissions(out@) =~= emissions(old(out)@) + event_out(event));
    }
}

} // verus!

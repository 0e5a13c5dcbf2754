//! Speech synthesis.

use vstd::prelude::*;

use crate::audio::samples_of;
use crate::audio::AudioFormat;
use crate::audio::AudioFrame;
use crate::audio::FrameView;
use crate::error::Error;
use crate::input::Input;
use crate::output::emissions;
use crate::output::emit;
use crate::output::Emission;
use crate::output::EmissionView;
use crate::text::clone_opt;
use crate::text::concat3;
use crate::text::opt_view;
use crate::text::same_text;

verus! {

/// The synthesis service.
#[derive(Debug, Clone, Copy, PartialEq, Eq, Structural)]
pub struct AristechSynthesize;

/// The parameters of the service.
pub struct Params {
    pub endpoint: String,
    pub voice: Option<String>,
    pub token: String,
    pub secret: String,
}

/// What authorizes a connection.
pub struct TlsOptions {
    /// The certificate of an authority other than the usual ones.
    pub ca_certificate: Option<String>,
    pub token: String,
    pub secret: String,
}

/// What authorizes a connection.
pub fn get_tls_options(token: String, secret: String) -> (r: TlsOptions)
    ensures
        r.ca_certificate is None,
        r.token@ == token@ && r.secret@ == secret@,
{
    TlsOptions { ca_certificate: None, token, secret }
}

/// A voice of the service.
pub struct Voice {
    pub voice_id: String,
    /// The sample rate of its audio, if the service tells it.
    pub samplerate: Option<i32>,
}

/// What audio is wrapped in.
#[derive(Debug, Clone, Copy, PartialEq, Eq, Structural)]
pub enum Container {
    Raw,
    Wav,
    Flac,
    Ogg,
    Mp3,
    Speex,
}

/// How samples are encoded.
#[derive(Debug, Clone, Copy, PartialEq, Eq, Structural)]
pub enum Codec {
    Pcm,
    MuLaw,
    ALaw,
}

/// The format that audio is asked for in.
#[derive(Debug, Clone, Copy, PartialEq, Eq, Structural)]
pub struct SpeechAudioFormat {
    pub container: Container,
    pub codec: Codec,
    pub channels: u16,
    pub samplerate: u32,
}

/// The format that audio is asked for in: raw samples.
pub fn import_output_audio_format(audio_format: AudioFormat) -> (r: SpeechAudioFormat)
    ensures
        r == (SpeechAudioFormat {
            container: Container::Raw,
            codec: Codec::Pcm,
            channels: audio_format.channels,
            samplerate: audio_format.sample_rate,
        }),
{
    SpeechAudioFormat {
        container: Container::Raw,
        codec: Codec::Pcm,
        channels: audio_format.channels,
        samplerate: audio_format.sample_rate,
    }
}

/// The voice that the parameters mean.
pub open spec fn chosen_voice(params: Params) -> Seq<char> {
    match opt_view(params.voice) {
        Some(voice) => voice,
        None => "anne_de_DE"@,
    }
}

/// The first of the voices with the given id.
pub open spec fn found_voice(voices: Seq<Voice>, voice_id: Seq<char>) -> Option<Voice>
    decreases voices.len(),
{
    if voices.len() == 0 {
        None
    } else if voices[0].voice_id@ == voice_id {
        Some(voices[0])
    } else {
        found_voice(voices.drop_first(), voice_id)
    }
}

/// The sample rate of a voice, as an unsigned number; zero if it is not told.
pub open spec fn rate_of(voice: Voice) -> u32 {
    match voice.samplerate {
        Some(rate) => if rate >= 0 {
            rate as u32
        } else {
            (rate + 0x1_0000_0000) as u32
        },
        None => 0,
    }
}

/// What a conversation is held with.
pub struct SynthesisPlan {
    pub voice: String,
    /// The format that audio comes in, with the sample rate of the voice.
    pub output_format: AudioFormat,
    pub audio: SpeechAudioFormat,
}

/// A text that is being synthesized.
pub struct SpeechRequest {
    pub request_id: Option<String>,
    pub text: String,
}

fn find_voice<'a>(voices: &'a Vec<Voice>, voice_id: &str) -> (r: Option<&'a Voice>)
    ensures
        r is Some <==> found_voice(voices@, voice_id@) is Some,
        r matches Some(voice) ==> Some(*voice) == found_voice(voices@, voice_id@),
{
    let mut i: usize = 0;
    assert(voices@.skip(0) =~= voices@);
    while i < voices.len()
        invariant
            i <= voices@.len(),
            found_voice(voices@, voice_id@) == found_voice(voices@.skip(i as int), voice_id@),
        decreases voices@.len() - i,
    {
        proof {
            assert(voices@.skip(i as int)[0] == voices@[i as int]);
            assert(voices@.skip(i as int).drop_first() =~= voices@.skip(i + 1));
        }
        if same_text(voices[i].voice_id.as_str(), voice_id) {
            return Some(&voices[i]);
        }
        i += 1;
    }
    None
}

impl AristechSynthesize {
    /// Decides how a conversation is held, with the voices that the service has.
    pub fn plan(&self, params: &Params, output_format: AudioFormat, voices: &Vec<Voice>) -> (r:
        Result<SynthesisPlan, Error>)
        ensures
            ({
                let found = found_voice(voices@, chosen_voice(*params));
                &&& r is Ok <==> found is Some
                &&& r matches Ok(plan) ==> {
                    &&& plan.voice@ == chosen_voice(*params)
                    &&& plan.output_format == (AudioFormat {
                        channels: output_format.channels,
                        sample_rate: rate_of(found->0),
                    })
                    &&& plan.audio == (SpeechAudioFormat {
                        container: Container::Raw,
                        codec: Codec::Pcm,
                        channels: output_format.channels,
                        samplerate: rate_of(found->0),
                    })
                }
                &&& r matches Err(e) ==> e@ == seq![
                    "Voice "@ + chosen_voice(*params) + " not available"@,
                ]
            }),
    {
        let voice = match &params.voice {
            Some(voice) => voice.clone(),
            None => "anne_de_DE".to_owned(),
        };
        match find_voice(voices, voice.as_str()) {
            None => Err(
                Error::from_text(concat3("Voice ", voice.as_str(), " not available")),
            ),
            Some(found) => {
                let sample_rate: u32 = match found.samplerate {
                    Some(rate) => {
                        if rate >= 0 {
                            rate as u32
                        } else {
                            (rate as i64 + 0x1_0000_0000) as u32
                        }
                    },
                    None => 0,
                };
                let format = AudioFormat::new(output_format.channels, sample_rate);
                Ok(
                    SynthesisPlan {
                        voice,
                        output_format: format,
                        audio: import_output_audio_format(format),
                    },
                )
            },
        }
    }

    /// Takes an input, which has to be text, as a request. At the end of the input there is none.
    pub fn conversation(&self, input: Option<Input<()>>) -> (r: Result<
        Option<SpeechRequest>,
        Error,
    >)
        ensures
            match input {
                None => r == Ok::<Option<SpeechRequest>, Error>(None),
                Some(Input::Text { request_id, text, .. }) => r == Ok::<
                    Option<SpeechRequest>,
                    Error,
                >(Some(SpeechRequest { request_id, text })),
                Some(_) => r matches Err(e) && e@ == seq!["Unexpected input"@],
            },
    {
        match input {
            None => Ok(None),
            Some(Input::Text { request_id, text, .. }) => Ok(
                Some(SpeechRequest { request_id, text }),
            ),
            Some(_) => Err(Error::new("Unexpected input")),
        }
    }

    /// Processes what comes next for a request: a piece of audio, or the end, which completes the
    /// request.
    pub fn process_chunk(
        &self,
        output_format: AudioFormat,
        request_id: &Option<String>,
        chunk: Option<Vec<u8>>,
        out: &mut Vec<Emission<()>>,
    )
        ensures
            emissions(final(out)@) == emissions(old(out)@).push(
                match chunk {
                    Some(bytes) => EmissionView::Audio(
                        FrameView { format: output_format, samples: samples_of(bytes@) },
                    ),
                    None => EmissionView::RequestCompleted { request_id: opt_view(*request_id) },
                },
            ),
    {
        match chunk {
            Some(bytes) => emit(
                out,
                Emission::Audio(AudioFrame::from_le_bytes(output_format, &bytes)),
            ),
            None => emit(out, Emission::RequestCompleted { request_id: clone_opt(request_id) }),
        }
    }
}

/// The voice is the one that is asked for, or else the default one. The first voice with its id tells
/// the sample rate, which is none if the voice does not tell it.
pub proof fn law_voices(
    params: Params,
    voices: Seq<Voice>,
    voice: Voice,
    voice_id: Seq<char>,
)
    ensures
        params.voice is Some ==> chosen_voice(params) == params.voice->0@,
        params.voice is None ==> chosen_voice(params) == "anne_de_DE"@,
        found_voice(Seq::empty(), voice_id) is None,
        voice.voice_id@ == voice_id ==> found_voice(seq![voice] + voices, voice_id) == Some(voice),
        voice.voice_id@ != voice_id ==> found_voice(seq![voice] + voices, voice_id) == found_voice(
            voices,
            voice_id,
        ),
        voice.samplerate is None ==> rate_of(voice) == 0,
        voice.samplerate matches Some(rate) ==> (rate >= 0 ==> rate_of(voice) == rate),
{
    assert((seq![voice] + voices).drop_first() =~= voices);
}

/// Audio is asked for as raw samples, in the channels of the output and at the rate of the voice, and
/// put out in that format. A voice that is not there is refused.
pub proof fn law_planned_synthesis(
    params: Params,
    format: AudioFormat,
    voices: Vec<Voice>,
    r: Result<SynthesisPlan, Error>,
)
    requires
        call_ensures(AristechSynthesize::plan, (&AristechSynthesize, &params, format, &voices), r),
    ensures
        ({
            let found = found_voice(voices@, chosen_voice(params));
            &&& r is Ok <==> found is Some
            &&& r is Err ==> r->Err_0@ == seq![
                "Voice "@ + chosen_voice(params) + " not available"@,
            ]
            &&& r matches Ok(plan) ==> {
                &&& plan.voice@ == chosen_voice(params)
                &&& plan.output_format.channels == format.channels
                &&& plan.output_format.sample_rate == plan.audio.samplerate
                &&& plan.audio.channels == format.channels
                &&& plan.audio.container is Raw
                &&& plan.audio.codec is Pcm
                &&& found->0.samplerate is None ==> plan.audio.samplerate == 0
                &&& found->0.samplerate matches Some(rate) ==> (rate >= 0
                    ==> plan.audio.samplerate == rate)
            }
        }),
{
}

/// A text is taken as it is, with its request. Any other input is refused, and at the end of the input
/// there is no request.
pub proof fn law_synthesis_requests(
    input: Option<Input<()>>,
    r: Result<Option<SpeechRequest>, Error>,
)
    requires
        call_ensures(AristechSynthesize::conversation, (&AristechSynthesize, input), r),
    ensures
        input is None ==> r is Ok && r->Ok_0 is None,
        input matches Some(Input::Text { request_id, text, .. }) ==> r is Ok && r->Ok_0 is Some
            && r->Ok_0->0.text == text && r->Ok_0->0.request_id == request_id,
        input is Some && !(input->0 is Text) ==> r is Err && r->Err_0@ == seq!["Unexpected input"@],
{
}

/// Each piece of audio is put out in the format of the plan, two bytes for each sample with the low
/// one first. At the end the request is complete.
pub proof fn law_pieces_are_put_out(
    format: AudioFormat,
    request_id: Option<String>,
    chunk: Option<Vec<u8>>,
    out: &mut Vec<Emission<()>>,
)
    requires
        call_ensures(
            AristechSynthesize::process_chunk,
            (&AristechSynthesize, format, &request_id, chunk, out),
            (),
        ),
    ensures
        ({
            let o = emissions(final(out)@);
            let n = old(out)@.len() as int;
            &&& o.len() == n + 1
            &&& o.take(n) == emissions(old(out)@)
            &&& chunk is None ==> {
                &&& o[n] is RequestCompleted
                &&& o[n]->RequestCompleted_request_id is Some <==> request_id is Some
                &&& request_id is Some ==> o[n]->RequestCompleted_request_id->0 == request_id->0@
            }
            &&& chunk matches Some(bytes) ==> {
                &&& o[n] is Audio
                &&& o[n]->Audio_0.format == format
                &&& bytes@.len() - 1 <= 2 * o[n]->Audio_0.samples.len() <= bytes@.len()
                &&& forall|i: int|
                    0 <= i < o[n]->Audio_0.samples.len() ==> {
                        let code = bytes@[2 * i] as int + 256 * (bytes@[2 * i + 1] as int);
                        let sample = #[trigger] o[n]->Audio_0.samples[i];
                        sample == code || sample == code - 65536
                    }
            }
        }),
{
    let n = old(out)@.len() as int;
    assert(emissions(old(out)@).len() == n);
    assert(emissions(final(out)@).take(n) =~= emissions(old(out)@));
    if let Some(data) = chunk {
        crate::audio::law_samples_of_bytes(data@);
    }
}

/// A connection is authorized by the token and the secret, without a certificate of its own.
pub proof fn law_authorizations(token: String, secret: String, r: TlsOptions)
    requires
        call_ensures(get_tls_options, (token, secret), r),
    ensures
        r.token@ == token@,
        r.secret@ == secret@,
        r.ca_certificate is None,
{
}

} // verus!

//! Transcription.

use vstd::prelude::*;

use crate::audio::le_bytes;
use crate::audio::AudioFormat;
use crate::input::Input;
use crate::output::emissions;
use crate::output::emit;
use crate::output::plain_text;
use crate::output::Emission;
use crate::output::EmissionView;

verus! {

/// The transcription service.
#[derive(Debug, Clone, Copy, PartialEq, Eq, Structural)]
pub struct AristechTranscribe;

/// Access by a key, which says where the service is, too.
#[derive(Debug)]
pub struct ApiKeyAuth {
    pub api_key: String,
}

/// Access by a token and a secret.
#[derive(Debug)]
pub struct CredentialsAuth {
    pub host: String,
    pub token: String,
    pub secret: String,
}

/// The ways to get access.
#[derive(Debug)]
pub enum AuthConfig {
    ApiKey(ApiKeyAuth),
    Credentials(CredentialsAuth),
}

/// The parameters of the service.
#[derive(Debug)]
pub struct Params {
    pub auth_config: AuthConfig,
    /// A locale such as `en_GB`, not a BCP 47 tag.
    pub language: String,
    pub model: Option<String>,
    pub prompt: Option<String>,
}

/// How samples are encoded.
#[derive(Debug, Clone, Copy, PartialEq, Eq, Structural)]
pub enum AudioEncoding {
    /// What the service takes by default, which are 16 bit numbers, low bytes first.
    Unspecified,
    Linear16Pcm,
}

/// What the recognition is configured with.
pub struct RecognitionSpec {
    pub audio_encoding: AudioEncoding,
    pub sample_rate_hertz: i64,
    pub locale: String,
    pub partial_results: bool,
    pub single_utterance: bool,
    pub model: String,
    pub prompt: String,
}

/// The text of an option; empty if there is none.
pub open spec fn or_empty(text: Option<String>) -> Seq<char> {
    match text {
        Some(t) => t@,
        None => Seq::empty(),
    }
}

fn unwrap_or_empty(text: Option<String>) -> (r: String)
    ensures
        r@ == or_empty(text),
{
    match text {
        Some(text) => text,
        None => {
            let empty = String::new();
            assert(empty@ =~= Seq::empty());
            empty
        },
    }
}

/// A piece of the recognition, with its transcripts, the best one first.
pub struct SpeechChunk {
    pub end_of_utterance: bool,
    pub alternatives: Vec<String>,
}

/// The texts that are put out for some pieces: the first transcript of each, if it has one.
pub open spec fn chunk_texts(chunks: Seq<SpeechChunk>) -> Seq<EmissionView<()>>
    decreases chunks.len(),
{
    if chunks.len() == 0 {
        Seq::empty()
    } else {
        let before = chunk_texts(chunks.drop_last());
        let chunk = chunks.last();
        if chunk.alternatives@.len() > 0 {
            before.push(plain_text(chunk.end_of_utterance, chunk.alternatives@[0]@))
        } else {
            before
        }
    }
}

impl AristechTranscribe {
    /// The configuration that a stream begins with. Results come as they grow, over many
    /// utterances.
    pub fn initial_request(
        &self,
        language: String,
        model: Option<String>,
        prompt: Option<String>,
        input_format: AudioFormat,
    ) -> (r: RecognitionSpec)
        ensures
            r.audio_encoding == AudioEncoding::Unspecified,
            r.sample_rate_hertz == input_format.sample_rate,
            r.locale@ == language@,
            r.partial_results,
            !r.single_utterance,
            r.model@ == or_empty(model),
            r.prompt@ == or_empty(prompt),
    {
        RecognitionSpec {
            audio_encoding: AudioEncoding::Unspecified,
            sample_rate_hertz: input_format.sample_rate as i64,
            locale: language,
            partial_results: true,
            single_utterance: false,
            model: unwrap_or_empty(model),
            prompt: unwrap_or_empty(prompt),
        }
    }

    /// The bytes to send for an input. Anything but audio ends the stream of audio.
    pub fn send_audio(&self, input: Option<Input<()>>) -> (r: Option<Vec<u8>>)
        ensures
            match input {
                Some(Input::Audio { frame }) => r is Some && r->0@ == le_bytes(frame@.samples),
                _ => r is None,
            },
    {
        match input {
            Some(Input::Audio { frame }) => Some(frame.to_le_bytes()),
            _ => None,
        }
    }

    /// Processes a response of the service. A text is final at the end of an utterance.
    pub fn conversation(&self, chunks: &Vec<SpeechChunk>, out: &mut Vec<Emission<()>>)
        ensures
            emissions(final(out)@) == emissions(old(out)@) + chunk_texts(chunks@),
    {
        let mut i: usize = 0;
        proof {
            assert(chunks@.take(0).len() == 0);
            assert(emissions(out@) + Seq::empty() =~= emissions(out@));
        }
        while i < chunks.len()
            invariant
                i <= chunks@.len(),
                emissions(out@) == emissions(old(out)@) + chunk_texts(chunks@.take(i as int)),
            decreases chunks@.len() - i,
        {
            let ghost before = chunk_texts(chunks@.take(i as int));
            proof {
                assert(chunks@.take(i + 1).drop_last() =~= chunks@.take(i as int));
                assert(chunks@.take(i + 1).last() == chunks@[i as int]);
            }
            if chunks[i].alternatives.len() > 0 {
                let is_final = chunks[i].end_of_utterance;
                let text = chunks[i].alternatives[0].clone();
                emit(out, Emission::Text { is_final, text, language: None, speaker: None });
                assert(emissions(out@) =~= emissions(old(out)@) + before.push(
                    plain_text(is_final, text@),
                ));
            }
            i += 1;
        }
        assert(chunks@.take(i as int) =~= chunks@);
    }
}

/// The first transcript of each piece is put out, in order: as a final text at the end of an
/// utterance, and else as one that is not final.
pub proof fn law_pieces_are_put_out(chunks: Seq<SpeechChunk>, chunk: SpeechChunk)
    ensures
        chunk_texts(Seq::empty()).len() == 0,
        chunk.alternatives@.len() == 0 ==> chunk_texts(chunks.push(chunk)) == chunk_texts(chunks),
        chunk.alternatives@.len() > 0 ==> {
            let before = chunk_texts(chunks);
            let after = chunk_texts(chunks.push(chunk));
            &&& after.len() == before.len() + 1
            &&& after.drop_last() == before
            &&& after.last() is Text
            &&& after.last()->is_final == chunk.end_of_utterance
            &&& after.last()->text == chunk.alternatives@[0]@
            &&& after.last()->language is None
            &&& after.last()->speaker is None
        },
{
    assert(chunks.push(chunk).drop_last() =~= chunks);
    if chunk.alternatives@.len() > 0 {
        assert(chunk_texts(chunks.push(chunk)).drop_last() =~= chunk_texts(chunks));
    }
}

/// A text that is absent is empty.
pub proof fn law_absent_texts_are_empty(text: String)
    ensures
        or_empty(Some(text)) == text@,
        or_empty(None).len() == 0,
{
}

/// A stream begins with the language, the model and the prompt that are asked for, at the rate of the
/// audio. Results come as they grow, over many utterances.
pub proof fn law_streams_begin_as_asked(
    language: String,
    model: Option<String>,
    prompt: Option<String>,
    format: AudioFormat,
    r: RecognitionSpec,
)
    requires
        call_ensures(
            AristechTranscribe::initial_request,
            (&AristechTranscribe, language, model, prompt, format),
            r,
        ),
    ensures
        r.audio_encoding is Unspecified,
        r.sample_rate_hertz == format.sample_rate,
        r.locale@ == language@,
        r.partial_results == true,
        r.single_utterance == false,
        model is Some ==> r.model@ == model->0@,
        model is None ==> r.model@.len() == 0,
        prompt is Some ==> r.prompt@ == prompt->0@,
        prompt is None ==> r.prompt@.len() == 0,
{
}

/// Audio is sent as it comes, two bytes for each sample with the low one first. Anything else ends
/// the audio.
pub proof fn law_sent_audio(input: Option<Input<()>>, r: Option<Vec<u8>>)
    requires
        call_ensures(AristechTranscribe::send_audio, (&AristechTranscribe, input), r),
    ensures
        !(input matches Some(Input::Audio { .. })) ==> r is None,
        input matches Some(Input::Audio { frame }) ==> {
            &&& r is Some
            &&& r->0@.len() == 2 * frame.samples@.len()
            &&& forall|i: int|
                0 <= i < frame.samples@.len() ==> {
                    let code = r->0@[2 * i] as int + 256 * (r->0@[2 * i + 1] as int);
                    let sample = #[trigger] frame.samples@[i];
                    code == sample || code == sample + 65536
                }
        },
{
    if let Some(Input::Audio { frame }) = input {
        assert(frame@.samples == frame.samples@);
        crate::audio::law_bytes_of_samples(frame.samples@);
    }
}

/// What is put out for some pieces comes after what was put out before.
pub proof fn law_texts_are_added(chunks: Vec<SpeechChunk>, out: &mut Vec<Emission<()>>)
    requires
        call_ensures(AristechTranscribe::conversation, (&AristechTranscribe, &chunks, out), ()),
    ensures
        emissions(old(out)@).is_prefix_of(emissions(final(out)@)),
        emissions(final(out)@).skip(old(out)@.len() as int) == chunk_texts(chunks@),
{
    let n = old(out)@.len() as int;
    assert(emissions(old(out)@).len() == n);
    assert(emissions(final(out)@).subrange(0, n) =~= emissions(old(out)@));
    assert(emissions(final(out)@).skip(n) =~= chunk_texts(chunks@));
}

} // verus!

//! Requests to the recognizer.

use vstd::prelude::*;

use crate::audio::byte_seqs;
use crate::audio::chunk_8192;
use crate::audio::chunks_8192;
use crate::audio::le_bytes;
use crate::audio::to_le_bytes;
use crate::audio::AudioFormat;
use crate::error::Error;
use crate::google_transcribe::class_tokens::OOV_CLASS_DIGIT_SEQUENCE;
use crate::google_transcribe::params::TranscribeParams;
use crate::language::listed_codes;
use crate::text::concat3;
use crate::text::texts;

verus! {

/// How samples are encoded.
#[derive(Debug, Clone, Copy, PartialEq, Eq, Structural)]
pub enum AudioEncoding {
    /// As 16 bit numbers, low bytes first.
    Linear16,
    Mulaw,
    Alaw,
}

/// How many speakers to tell apart; zeros leave that to the recognizer.
#[derive(Debug, Clone, Copy, PartialEq, Eq, Structural)]
pub struct SpeakerDiarization {
    pub min_speaker_count: i32,
    pub max_speaker_count: i32,
}

/// The first request of a stream, which configures it.
pub struct StreamConfig {
    pub recognizer: String,
    pub model: String,
    pub language_codes: Vec<String>,
    pub diarization: Option<SpeakerDiarization>,
    /// How many transcripts each result has at most.
    pub max_alternatives: i32,
    /// A class of values to bias the recognition toward, and how much.
    pub phrase: Option<(String, u32)>,
    pub encoding: AudioEncoding,
    pub sample_rate: u32,
    pub channels: u16,
    pub interim_results: bool,
}

/// The first request of a stream, as mathematical values.
pub struct StreamConfigView {
    pub recognizer: Seq<char>,
    pub model: Seq<char>,
    pub language_codes: Seq<Seq<char>>,
    pub diarization: Option<SpeakerDiarization>,
    pub max_alternatives: i32,
    pub phrase: Option<(Seq<char>, u32)>,
    pub encoding: AudioEncoding,
    pub sample_rate: u32,
    pub channels: u16,
    pub interim_results: bool,
}

impl View for StreamConfig {
    type V = StreamConfigView;

    open spec fn view(&self) -> StreamConfigView {
        StreamConfigView {
            recognizer: self.recognizer@,
            model: self.model@,
            language_codes: texts(self.language_codes@),
            diarization: self.diarization,
            max_alternatives: self.max_alternatives,
            phrase: match self.phrase {
                Some(phrase) => Some((phrase.0@, phrase.1)),
                None => None,
            },
            encoding: self.encoding,
            sample_rate: self.sample_rate,
            channels: self.channels,
            interim_results: self.interim_results,
        }
    }
}

/// A client of the recognizer of a project at a location.
pub struct TranscribeClient {
    pub project_id: String,
    pub location: String,
}

/// The name of the recognizer.
pub open spec fn recognizer_name(project_id: Seq<char>, location: Seq<char>) -> Seq<char> {
    "projects/"@ + project_id + "/locations/"@ + location + "/recognizers/_"@
}

/// The first request of a stream. One alternative is asked for, since no other is ever used and
/// further ones come without a confidence to compare.
pub open spec fn requested(
    client: TranscribeClient,
    params: TranscribeParams,
    interim_results: bool,
    audio_format: AudioFormat,
) -> StreamConfigView {
    StreamConfigView {
        recognizer: recognizer_name(client.project_id@, client.location@),
        model: params.model@,
        language_codes: listed_codes(params.language@),
        diarization: if params.diarization {
            Some(SpeakerDiarization { min_speaker_count: 0, max_speaker_count: 0 })
        } else {
            None
        },
        max_alternatives: 1,
        phrase: if params.numerals {
            Some(("$OOV_CLASS_DIGIT_SEQUENCE"@, 20))
        } else {
            None
        },
        encoding: AudioEncoding::Linear16,
        sample_rate: audio_format.sample_rate,
        channels: audio_format.channels,
        interim_results,
    }
}

impl TranscribeClient {
    /// A client for a project at a location.
    pub fn new(project_id: String, location: String) -> (r: TranscribeClient)
        ensures
            r.project_id@ == project_id@ && r.location@ == location@,
    {
        TranscribeClient { project_id, location }
    }

    /// The request that begins a stream.
    pub fn transcribe(
        &self,
        params: &TranscribeParams,
        interim_results: bool,
        audio_format: AudioFormat,
    ) -> (r: Result<StreamConfig, Error>)
        ensures
            r is Ok <==> listed_codes(params.language@).len() > 0,
            r matches Ok(config) ==> config@ == requested(
                *self,
                *params,
                interim_results,
                audio_format,
            ),
            r matches Err(e) ==> e@ == seq!["language must contain at least one locale code"@],
    {
        let languages = match params.languages() {
            Ok(languages) => languages,
            Err(error) => return Err(error),
        };
        let mut recognizer = concat3(
            "projects/",
            self.project_id.as_str(),
            "/locations/",
        );
        recognizer.append(self.location.as_str());
        recognizer.append("/recognizers/_");
        Ok(
            StreamConfig {
                recognizer,
                model: params.model.clone(),
                language_codes: languages.to_vec(),
                diarization: if params.diarization {
                    Some(SpeakerDiarization { min_speaker_count: 0, max_speaker_count: 0 })
                } else {
                    None
                },
                max_alternatives: 1,
                phrase: if params.numerals {
                    Some((OOV_CLASS_DIGIT_SEQUENCE.to_owned(), 20))
                } else {
                    None
                },
                encoding: AudioEncoding::Linear16,
                sample_rate: audio_format.sample_rate,
                channels: audio_format.channels,
                interim_results,
            },
        )
    }

    /// The audio of the requests that follow for some samples.
    pub fn audio_requests(samples: &Vec<i16>) -> (r: Vec<Vec<u8>>)
        ensures
            byte_seqs(r@) == chunks_8192(le_bytes(samples@)),
    {
        chunk_8192(to_le_bytes(samples))
    }
}

} // verus!

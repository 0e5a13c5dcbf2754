//! What is played, and how.

use vstd::prelude::*;

use serde_json::Value;

use crate::audio::byte_seqs;
use crate::audio::duration_nanos;
use crate::audio::AudioFormat;
use crate::audio::AudioFrame;
use crate::audio::FrameView;
use crate::error::Error;
use crate::input::Input;
use crate::json::clone_json;
use crate::json::json_text;
use crate::output::duration_record;
use crate::output::emissions;
use crate::output::emit;
use crate::output::records_view;
use crate::output::BillingRecord;
use crate::output::BillingSchedule;
use crate::output::Emission;
use crate::output::EmissionView;
use crate::text::as_opt_str;
use crate::text::clone_opt;
use crate::text::concat2;
use crate::text::concat3;
use crate::text::lines;
use crate::text::lines_of;
use crate::text::opt_str_view;
use crate::text::opt_view;
use crate::text::same_text;
use crate::text::starts_with;
use crate::text::texts;
use crate::text::trim;
use crate::text::trimmed;
use crate::urls::path_of;
use crate::urls::read_url;
use crate::urls::scheme_of;
use crate::urls::text_of;
use crate::urls::url_path;
use crate::urls::url_read;
use crate::urls::url_scheme;

verus! {

/// The parameters of the service: the service that texts are synthesized by, with its parameters.
pub struct Params {
    pub synthesizer_service: String,
    pub synthesizer_params: Value,
}

/// The playback service.
pub struct Playback {
    /// The directory that local files are played from. Without it there is no playback of local
    /// files.
    pub local_files: Option<String>,
}

/// How a request is played.
pub enum PlaybackMethod {
    /// By synthesizing a text.
    Synthesize { text: String, text_type: String },
    /// From a file, by its path in the directory for local files.
    File { path: String },
    /// From a URL.
    Remote { url: String, path: String },
}

/// How a request is played, as mathematical values.
pub enum MethodView {
    Synthesize { text: Seq<char>, text_type: Seq<char> },
    File { path: Seq<char> },
    Remote { url: Seq<char>, path: Seq<char> },
}

impl View for PlaybackMethod {
    type V = MethodView;

    open spec fn view(&self) -> MethodView {
        match *self {
            PlaybackMethod::Synthesize { text, text_type } => MethodView::Synthesize {
                text: text@,
                text_type: text_type@,
            },
            PlaybackMethod::File { path } => MethodView::File { path: path@ },
            PlaybackMethod::Remote { url, path } => MethodView::Remote { url: url@, path: path@ },
        }
    }
}

/// How a list of URIs is played: it has one line, with an HTTP address.
pub open spec fn uri_method(text: Seq<char>) -> Result<MethodView, Seq<Seq<char>>> {
    let lines = lines_of(text);
    if lines.len() != 1 {
        Err(seq!["Invalid input: Expected a single line in text/uri-list"@])
    } else {
        match url_read(lines[0]) {
            Err(cause) => Err(seq!["Failed to parse URI in text/uri-list"@, cause]),
            Ok(url) => if url_scheme(url) == "http"@ || url_scheme(url) == "https"@ {
                Ok(MethodView::Remote { url, path: url_path(url) })
            } else {
                Err(
                    seq![
                        "Unsupported URI scheme in text/uri-list, expecting either `http://` or `https://`"@,
                    ],
                )
            },
        }
    }
}

/// How a file path is played: it is relative, to a directory that has to be there. Paths are those
/// of Unix, so that the ones that begin with a slash are absolute.
pub open spec fn file_method(text: Seq<char>, has_local_root: bool) -> Result<
    MethodView,
    Seq<Seq<char>>,
> {
    if !has_local_root {
        Err(seq!["Can't play back a local audio file: No local root path configured"@])
    } else if "/"@.is_prefix_of(trimmed(text)) {
        Err(seq!["Absolute paths are not supported in local audio file playback"@])
    } else {
        Ok(MethodView::File { path: trimmed(text) })
    }
}

/// How a text of the given type is played, or why it is not.
pub open spec fn method_for(text: Seq<char>, mime: Seq<char>, has_local_root: bool) -> Result<
    MethodView,
    Seq<Seq<char>>,
> {
    if mime == "text/plain"@ || mime == "application/ssml+xml"@ {
        Ok(MethodView::Synthesize { text, text_type: mime })
    } else if mime == "text/uri-list"@ {
        uri_method(text)
    } else if mime == "application/x-file-path"@ {
        file_method(text, has_local_root)
    } else {
        Err(
            seq![
                "Unsupported text type, expecting `text/plain`, `text/uri-list`, or `application/x-file-path`"@,
            ],
        )
    }
}

/// A URL, by what playback needs of it.
pub struct RemoteUrl {
    pub url: String,
    pub scheme: String,
    pub path: String,
}

/// How what was read from a URI is played, or why it is not.
pub open spec fn remote_method(read: Result<RemoteUrl, String>) -> Result<
    MethodView,
    Seq<Seq<char>>,
> {
    match read {
        Err(cause) => Err(seq!["Failed to parse URI in text/uri-list"@, cause@]),
        Ok(url) => if url.scheme@ == "http"@ || url.scheme@ == "https"@ {
            Ok(MethodView::Remote { url: url.url@, path: url.path@ })
        } else {
            Err(
                seq![
                    "Unsupported URI scheme in text/uri-list, expecting either `http://` or `https://`"@,
                ],
            )
        },
    }
}

/// How what was read from a URI is played: it has to be an HTTP address.
pub fn method_for_url(read: Result<RemoteUrl, String>) -> (r: Result<PlaybackMethod, Error>)
    ensures
        r is Ok <==> remote_method(read) is Ok,
        r matches Ok(method) ==> remote_method(read)->Ok_0 == method@,
        r matches Err(e) ==> remote_method(read)->Err_0 == e@,
{
    let url = match read {
        Ok(url) => url,
        Err(cause) => {
            let error = Error::from_text(cause).context("Failed to parse URI in text/uri-list");
            assert(error@ =~= seq!["Failed to parse URI in text/uri-list"@, cause@]);
            return Err(error);
        },
    };
    if same_text(url.scheme.as_str(), "http") || same_text(url.scheme.as_str(), "https") {
        Ok(PlaybackMethod::Remote { url: url.url, path: url.path })
    } else {
        Err(
            Error::new(
                "Unsupported URI scheme in text/uri-list, expecting either `http://` or `https://`",
            ),
        )
    }
}

fn method_for_uri(text: &str) -> (r: Result<PlaybackMethod, Error>)
    ensures
        r is Ok <==> uri_method(text@) is Ok,
        r matches Ok(method) ==> uri_method(text@)->Ok_0 == method@,
        r matches Err(e) ==> uri_method(text@)->Err_0 == e@,
{
    let all = lines(text);
    assert(texts(all@).len() == all@.len());
    if all.len() != 1 {
        return Err(Error::new("Invalid input: Expected a single line in text/uri-list"));
    }
    assert(texts(all@)[0] == all@[0]@);
    match read_url(all[0].as_str()) {
        Ok(url) => method_for_url(
            Ok(RemoteUrl { url: text_of(&url), scheme: scheme_of(&url), path: path_of(&url) }),
        ),
        Err(cause) => method_for_url(Err(cause)),
    }
}

impl PlaybackMethod {
    /// How a text of the given type is played. A path has to be resolved before it is used.
    pub fn from_text_and_mime_type(text: String, mime: &str, local_root: Option<&str>) -> (r:
        Result<PlaybackMethod, Error>)
        ensures
            ({
                let method = method_for(text@, mime@, local_root is Some);
                &&& r is Ok <==> method is Ok
                &&& r matches Ok(m) ==> method->Ok_0 == m@
                &&& r matches Err(e) ==> method->Err_0 == e@
            }),
    {
        if same_text(mime, "text/plain") || same_text(mime, "application/ssml+xml") {
            Ok(PlaybackMethod::Synthesize { text, text_type: mime.to_owned() })
        } else if same_text(mime, "text/uri-list") {
            method_for_uri(text.as_str())
        } else if same_text(mime, "application/x-file-path") {
            if local_root.is_none() {
                return Err(
                    Error::new(
                        "Can't play back a local audio file: No local root path configured",
                    ),
                );
            }
            let path = trim(text.as_str());
            if starts_with(path.as_str(), "/") {
                return Err(
                    Error::new("Absolute paths are not supported in local audio file playback"),
                );
            }
            Ok(PlaybackMethod::File { path })
        } else {
            Err(
                Error::new(
                    "Unsupported text type, expecting `text/plain`, `text/uri-list`, or `application/x-file-path`",
                ),
            )
        }
    }
}

/// Whether two components of paths are the same, byte by byte.
fn same_component(a: &Vec<u8>, b: &Vec<u8>) -> (r: bool)
    ensures
        r == (a@ == b@),
{
    if a.len() != b.len() {
        return false;
    }
    let mut i: usize = 0;
    while i < a.len()
        invariant
            i <= a@.len() == b@.len(),
            forall|j: int| 0 <= j < i ==> a@[j] == b@[j],
        decreases a@.len() - i,
    {
        if a[i] != b[i] {
            return false;
        }
        i += 1;
    }
    assert(a@ =~= b@);
    true
}

/// Whether a path, by the bytes of its components, leads to what is in a directory.
pub open spec fn is_within(resolved: Seq<Vec<u8>>, root: Seq<Vec<u8>>) -> bool {
    byte_seqs(root).is_prefix_of(byte_seqs(resolved))
}

/// Checks that a resolved path, by the bytes of its components, does not lead out of the directory
/// for local files.
pub fn check_within_root(resolved: &Vec<Vec<u8>>, root: &Vec<Vec<u8>>) -> (r: Result<(), Error>)
    ensures
        r is Ok <==> is_within(resolved@, root@),
        r matches Err(e) ==> e@ == seq!["Access to the specified path is not allowed"@],
{
    let ghost a = byte_seqs(resolved@);
    let ghost b = byte_seqs(root@);
    if resolved.len() < root.len() {
        return Err(Error::new("Access to the specified path is not allowed"));
    }
    let mut i: usize = 0;
    while i < root.len()
        invariant
            i <= root@.len() <= resolved@.len(),
            a == byte_seqs(resolved@),
            b == byte_seqs(root@),
            forall|j: int| 0 <= j < i ==> a[j] == b[j],
        decreases root@.len() - i,
    {
        if !same_component(&resolved[i], &root[i]) {
            assert(a[i as int] != b[i as int]);
            assert(!b.is_prefix_of(a)) by {
                if b.is_prefix_of(a) {
                    assert(a.subrange(0, b.len() as int)[i as int] == b[i as int]);
                }
            }
            return Err(Error::new("Access to the specified path is not allowed"));
        }
        i += 1;
    }
    assert(a.subrange(0, b.len() as int) =~= b);
    Ok(())
}

/// The kinds of audio that can be played.
#[derive(Debug, Clone, Copy, PartialEq, Eq, Structural)]
pub enum AudioType {
    Wav,
    MP3,
}

/// The MIME type that the ending of a path tells, if it tells one.
pub uninterp spec fn guessed_mime(path: Seq<char>) -> Option<Seq<char>>;

/// Calls `mime_guess2::from_path`, `MimeGuess::first` and `Mime::essence_str`, which look the ending
/// of a path up in a table. The ending is that of a Unix path, whose components are parted by
/// slashes.
#[verifier::external_body]
fn guess_mime(path: &str) -> (r: Option<String>)
    ensures
        opt_view(r) == guessed_mime(path@),
{
    mime_guess2::from_path(path).first().map(|mime| mime.essence_str().to_string())
}

/// The kind of audio that a MIME type names, or why it names none.
pub open spec fn audio_type(mime: Seq<char>) -> Result<AudioType, Seq<char>> {
    if mime == "audio/wav"@ {
        Ok(AudioType::Wav)
    } else if mime == "audio/mpeg"@ {
        Ok(AudioType::MP3)
    } else {
        Err("Invalid audio url, guessed or provided mime type: "@ + mime)
    }
}

/// The kind of audio at a path with a MIME type that is given or, if not, told by the path.
pub open spec fn supported_type(mime: Option<Seq<char>>, guessed: Option<Seq<char>>) -> Result<
    AudioType,
    Seq<char>,
> {
    match (mime, guessed) {
        (Some(mime), _) => audio_type(mime),
        (None, Some(mime)) => audio_type(mime),
        (None, None) => Err("Invalid audio url (should end in `.mp3` or `.wav`)"@),
    }
}

/// The kind of audio that a MIME type names.
pub fn audio_type_of_mime(mime: &str) -> (r: Result<AudioType, Error>)
    ensures
        r is Ok <==> audio_type(mime@) is Ok,
        r matches Ok(kind) ==> audio_type(mime@)->Ok_0 == kind,
        r matches Err(e) ==> e@ == seq![audio_type(mime@)->Err_0],
{
    if same_text(mime, "audio/wav") {
        Ok(AudioType::Wav)
    } else if same_text(mime, "audio/mpeg") {
        Ok(AudioType::MP3)
    } else {
        Err(
            Error::from_text(
                concat2("Invalid audio url, guessed or provided mime type: ", mime),
            ),
        )
    }
}

/// The kind of audio with a MIME type that is given or, if not, guessed.
pub fn supported_audio_type(mime: Option<&str>, guessed: Option<String>) -> (r: Result<
    AudioType,
    Error,
>)
    ensures
        ({
            let kind = supported_type(opt_str_view(mime), opt_view(guessed));
            &&& r is Ok <==> kind is Ok
            &&& r matches Ok(k) ==> kind->Ok_0 == k
            &&& r matches Err(e) ==> e@ == seq![kind->Err_0]
        }),
{
    match mime {
        Some(mime) => audio_type_of_mime(mime),
        None => match guessed {
            Some(mime) => audio_type_of_mime(mime.as_str()),
            None => Err(Error::new("Invalid audio url (should end in `.mp3` or `.wav`)")),
        },
    }
}

/// The kind of audio at a path. A MIME type that is given comes before the one that the path tells.
pub fn check_supported_audio_type(path: &str, mime_type_override: Option<&str>) -> (r: Result<
    AudioType,
    Error,
>)
    ensures
        ({
            let kind = supported_type(opt_str_view(mime_type_override), guessed_mime(path@));
            &&& r is Ok <==> kind is Ok
            &&& r matches Ok(k) ==> kind->Ok_0 == k
            &&& r matches Err(e) ==> e@ == seq![kind->Err_0]
        }),
{
    supported_audio_type(mime_type_override, guess_mime(path))
}

/// Checks the answer to a download, and the kind of audio that it brings.
pub fn check_download(
    url: &str,
    path: &str,
    is_success: bool,
    status: &str,
    mime_type: Option<&str>,
) -> (r: Result<AudioType, Error>)
    ensures
        ({
            let kind = supported_type(opt_str_view(mime_type), guessed_mime(path@));
            &&& r is Ok <==> is_success && kind is Ok
            &&& r matches Ok(k) ==> kind->Ok_0 == k
            &&& r matches Err(e) ==> e@ == if is_success {
                seq![kind->Err_0]
            } else {
                seq!["Download of `"@ + url@ + "` failed with status "@ + status@]
            }
        }),
{
    if !is_success {
        let mut message = concat3("Download of `", url, "` failed with status ");
        message.append(status);
        return Err(Error::from_text(message));
    }
    check_supported_audio_type(path, mime_type)
}

/// The samples in parts of one second each; the last part holds what is left.
pub open spec fn seconds(samples: Seq<i16>, rate: nat) -> Seq<Seq<i16>>
    decreases samples.len(),
{
    if rate == 0 || samples.len() == 0 {
        Seq::empty()
    } else if samples.len() <= rate {
        seq![samples]
    } else {
        seq![samples.take(rate as int)] + seconds(samples.skip(rate as int), rate)
    }
}

/// The views of a list of frames.
pub open spec fn frames_view(frames: Seq<AudioFrame>) -> Seq<FrameView> {
    frames.map_values(|f: AudioFrame| f@)
}

/// Frames in one format.
pub open spec fn frames_of(parts: Seq<Seq<i16>>, format: AudioFormat) -> Seq<FrameView> {
    parts.map_values(|s: Seq<i16>| FrameView { format, samples: s })
}

/// Cuts samples of one channel into frames of one second.
pub fn read_to_one_second_frames(samples: Vec<i16>, format: AudioFormat) -> (r: Result<
    Vec<AudioFrame>,
    Error,
>)
    ensures
        r is Ok <==> format.channels == 1,
        r matches Ok(frames) ==> frames_view(frames@) == frames_of(
            seconds(samples@, format.sample_rate as nat),
            format,
        ),
        r matches Err(e) ==> e@ == seq!["Only mono output is supported"@],
{
    if format.channels != 1 {
        return Err(Error::new("Only mono output is supported"));
    }
    let rate: usize = format.sample_rate as usize;
    let mut frames: Vec<AudioFrame> = Vec::new();
    let ghost all = samples@;
    let mut rest = samples;
    if rate == 0 {
        assert(frames_view(frames@) =~= frames_of(seconds(all, 0), format));
        return Ok(frames);
    }
    assert(frames_view(frames@) + frames_of(seconds(all, rate as nat), format) =~= frames_of(
        seconds(all, rate as nat),
        format,
    ));
    while rest.len() > rate
        invariant
            rate == format.sample_rate,
            rate > 0,
            frames_view(frames@) + frames_of(seconds(rest@, rate as nat), format) == frames_of(
                seconds(all, rate as nat),
                format,
            ),
        decreases rest@.len(),
    {
        let ghost before = frames_view(frames@);
        let ghost whole = rest@;
        let tail = rest.split_off(rate);
        frames.push(AudioFrame { format, samples: rest });
        proof {
            assert(rest@ =~= whole.take(rate as int));
            assert(tail@ =~= whole.skip(rate as int));
            assert(frames_view(frames@) =~= before.push(FrameView { format, samples: rest@ }));
            assert(frames_of(seconds(whole, rate as nat), format) =~= seq![
                FrameView { format, samples: rest@ },
            ] + frames_of(seconds(tail@, rate as nat), format));
            assert(frames_view(frames@) + frames_of(seconds(tail@, rate as nat), format) =~= before
                + frames_of(seconds(whole, rate as nat), format));
        }
        rest = tail;
    }
    let ghost before = frames_view(frames@);
    if rest.len() > 0 {
        frames.push(AudioFrame { format, samples: rest });
        proof {
            assert(frames_view(frames@) =~= before.push(FrameView { format, samples: rest@ }));
            assert(frames_of(seconds(rest@, rate as nat), format) =~= seq![
                FrameView { format, samples: rest@ },
            ]);
            assert(frames_view(frames@) =~= before + seq![FrameView { format, samples: rest@ }]);
        }
    } else {
        assert(frames_view(frames@) =~= before + frames_of(seconds(rest@, rate as nat), format));
    }
    Ok(frames)
}

/// How long frames last together, in nanoseconds.
pub open spec fn total_nanos(frames: Seq<FrameView>) -> int
    decreases frames.len(),
{
    if frames.len() == 0 {
        0
    } else {
        total_nanos(frames.drop_last()) + duration_nanos(
            frames.last().format,
            frames.last().samples.len(),
        )
    }
}

/// What is put out for audio that is played: its frames, the bill for them, and that the request is
/// complete.
pub open spec fn played(
    frames: Seq<FrameView>,
    request_id: Option<Seq<char>>,
    record: Seq<char>,
) -> Seq<EmissionView<()>> {
    frames.map_values(|f: FrameView| EmissionView::<()>::Audio(f)) + seq![
        EmissionView::BillingRecords {
            request_id,
            scope: None,
            records: seq![duration_record(record, total_nanos(frames) as u128)],
            schedule: BillingSchedule::Media,
        },
        EmissionView::RequestCompleted { request_id },
    ]
}

/// How many samples frames have together.
pub open spec fn total_samples(frames: Seq<FrameView>) -> nat
    decreases frames.len(),
{
    if frames.len() == 0 {
        0
    } else {
        total_samples(frames.drop_last()) + frames.last().samples.len()
    }
}

/// Where played audio comes from.
#[derive(Debug, Clone, Copy, PartialEq, Eq, Structural)]
pub enum AudioOrigin {
    File,
    Remote,
}

/// The name of the billing record for played audio.
pub open spec fn record_name(origin: AudioOrigin) -> Seq<char> {
    match origin {
        AudioOrigin::File => "playback:file"@,
        AudioOrigin::Remote => "playback:remote"@,
    }
}

proof fn lemma_part_duration(format: AudioFormat, count: nat)
    requires
        format.valid(),
    ensures
        0 <= duration_nanos(format, count) <= count * 1_000_000_000,
{
    let a = (count * 1_000_000_000) as int;
    let d = format.channels * format.sample_rate;
    assert(d >= 1) by (nonlinear_arith)
        requires
            d == format.channels * format.sample_rate,
            format.channels >= 1,
            format.sample_rate >= 1,
    ;
    assert(0 <= a / d <= a) by (nonlinear_arith)
        requires
            a >= 0,
            d >= 1,
    ;
}

proof fn lemma_prefix_samples(parts: Seq<Seq<i16>>, format: AudioFormat, n: int)
    requires
        0 <= n <= parts.len(),
    ensures
        total_samples(frames_of(parts, format).take(n)) <= total_samples(frames_of(parts, format)),
    decreases parts.len() - n,
{
    let all = frames_of(parts, format);
    if n < parts.len() {
        lemma_prefix_samples(parts, format, n + 1);
        assert(all.take(n + 1).drop_last() =~= all.take(n));
    } else {
        assert(all.take(n) =~= all);
    }
}

/// Cutting samples into seconds keeps their number.
proof fn lemma_seconds_samples(samples: Seq<i16>, rate: nat, format: AudioFormat)
    requires
        rate > 0,
    ensures
        total_samples(frames_of(seconds(samples, rate), format)) == samples.len(),
    decreases samples.len(),
{
    let all = frames_of(seconds(samples, rate), format);
    if samples.len() == 0 {
        assert(all.len() == 0);
    } else if samples.len() <= rate {
        assert(all =~= seq![FrameView { format, samples }]);
        assert(all.drop_last() =~= Seq::<FrameView>::empty());
        assert(all.last().samples.len() == samples.len());
        assert(total_samples(all.drop_last()) == 0);
    } else {
        let rest = samples.skip(rate as int);
        let head = FrameView { format, samples: samples.take(rate as int) };
        lemma_seconds_samples(rest, rate, format);
        assert(all =~= seq![head] + frames_of(seconds(rest, rate), format));
        lemma_total_samples_front(head, frames_of(seconds(rest, rate), format));
    }
}

proof fn lemma_total_samples_front(head: FrameView, rest: Seq<FrameView>)
    ensures
        total_samples(seq![head] + rest) == head.samples.len() + total_samples(rest),
    decreases rest.len(),
{
    let all = seq![head] + rest;
    if rest.len() == 0 {
        assert(all.drop_last() =~= Seq::<FrameView>::empty());
        assert(all.last() == head);
        assert(total_samples(all.drop_last()) == 0);
        assert(total_samples(rest) == 0);
    } else {
        lemma_total_samples_front(head, rest.drop_last());
        assert(all.drop_last() =~= seq![head] + rest.drop_last());
        assert(all.last() == rest.last());
    }
}

/// Plays samples: puts out their frames, the bill for them, and that the request is complete.
pub fn play(
    request_id: Option<String>,
    samples: Vec<i16>,
    format: AudioFormat,
    origin: AudioOrigin,
    out: &mut Vec<Emission<()>>,
) -> (r: Result<(), Error>)
    requires
        format.channels == 1 ==> format.sample_rate > 0,
    ensures
        r is Ok <==> format.channels == 1,
        r is Ok ==> emissions(final(out)@) == emissions(old(out)@) + played(
            frames_of(seconds(samples@, format.sample_rate as nat), format),
            opt_view(request_id),
            record_name(origin),
        ),
        r matches Err(e) ==> final(out)@ == old(out)@ && e@ == seq![
            "Only mono output is supported"@,
        ],
{
    let ghost parts = seconds(samples@, format.sample_rate as nat);
    let ghost all = frames_of(parts, format);
    let count: usize = samples.len();
    let frames = match read_to_one_second_frames(samples, format) {
        Ok(frames) => frames,
        Err(error) => return Err(error),
    };
    proof {
        lemma_seconds_samples(samples@, format.sample_rate as nat, format);
    }
    let mut duration: u128 = 0;
    let ghost listed = frames@;
    let ghost before = emissions(out@);
    proof {
        assert(frames_view(listed) == all);
        assert(before + all.take(0).map_values(|f: FrameView| EmissionView::<()>::Audio(f))
            =~= before);
    }
    for frame in iter: frames
        invariant
            iter.seq() == listed,
            frames_view(listed) == all,
            all == frames_of(parts, format),
            format.channels == 1,
            format.sample_rate > 0,
            count <= usize::MAX,
            total_samples(all) == count,
            duration == total_nanos(all.take(iter.index() as int)),
            duration <= total_samples(all.take(iter.index() as int)) * 1_000_000_000,
            emissions(out@) == before + all.take(iter.index() as int).map_values(
                |f: FrameView| EmissionView::<()>::Audio(f),
            ),
    {
        let ghost i = iter.index() as int;
        proof {
            assert(frames_view(listed)[i] == frame@);
            assert(all.take(i + 1).drop_last() =~= all.take(i));
            assert(all.take(i + 1).last() == frame@);
            assert(frame.format == format);
            lemma_part_duration(format, frame@.samples.len());
            lemma_prefix_samples(parts, format, i + 1);
            assert(total_samples(all.take(i + 1)) == total_samples(all.take(i))
                + frame@.samples.len());
            assert(total_samples(all.take(i + 1)) * 1_000_000_000 <= usize::MAX * 1_000_000_000);
        }
        duration = duration + frame.duration();
        let ghost shown = emissions(out@);
        let ghost view = frame@;
        emit(out, Emission::Audio(frame));
        assert(emissions(out@) =~= before + all.take(i + 1).map_values(
            |f: FrameView| EmissionView::<()>::Audio(f),
        )) by {
            assert(emissions(out@) =~= shown.push(EmissionView::Audio(view)));
            assert(all.take(i + 1) =~= all.take(i).push(view));
        }
    }
    assert(all.take(all.len() as int) =~= all);
    let name = match origin {
        AudioOrigin::File => "playback:file",
        AudioOrigin::Remote => "playback:remote",
    };
    let mut records: Vec<BillingRecord> = Vec::new();
    records.push(BillingRecord::duration(name, duration));
    assert(records_view(records@) =~= seq![duration_record(name@, duration)]);
    emit(
        out,
        Emission::BillingRecords {
            request_id: clone_opt(&request_id),
            scope: None,
            records,
            schedule: BillingSchedule::Media,
        },
    );
    emit(out, Emission::RequestCompleted { request_id });
    assert(emissions(out@) =~= before + played(all, opt_view(request_id), record_name(origin)));
    Ok(())
}

/// Plays the samples of a file, by the components of its resolved path, but only if it is in the
/// directory for local files.
pub fn play_file(
    request_id: Option<String>,
    resolved: &Vec<Vec<u8>>,
    root: &Vec<Vec<u8>>,
    samples: Vec<i16>,
    format: AudioFormat,
    out: &mut Vec<Emission<()>>,
) -> (r: Result<(), Error>)
    requires
        format.channels == 1 ==> format.sample_rate > 0,
    ensures
        r is Ok <==> is_within(resolved@, root@) && format.channels == 1,
        r is Ok ==> emissions(final(out)@) == emissions(old(out)@) + played(
            frames_of(seconds(samples@, format.sample_rate as nat), format),
            opt_view(request_id),
            record_name(AudioOrigin::File),
        ),
        r matches Err(e) ==> final(out)@ == old(out)@ && e@ == seq![
            if !is_within(resolved@, root@) {
                "Access to the specified path is not allowed"@
            } else {
                "Only mono output is supported"@
            },
        ],
{
    match check_within_root(resolved, root) {
        Ok(()) => play(request_id, samples, format, AudioOrigin::File, out),
        Err(error) => Err(error),
    }
}

/// What to do about a request.
pub enum PlaybackAction {
    /// Hold a conversation with the service that texts are synthesized by.
    Converse { service: String, params: Value, input: Input<()> },
    /// Play a file, by its path in the directory for local files.
    PlayFile { request_id: Option<String>, path: String },
    /// Play what is at a URL.
    PlayRemote { request_id: Option<String>, url: String, path: String },
    /// End the conversation.
    End,
}

/// Whether an action is the one for a request that is played in the given way.
pub open spec fn carries_out(
    action: PlaybackAction,
    method: MethodView,
    request_id: Option<String>,
    params: Params,
) -> bool {
    match method {
        MethodView::Synthesize { text, text_type } => match action {
            PlaybackAction::Converse { service, params: p, input } => {
                &&& service@ == params.synthesizer_service@
                &&& json_text(p) == json_text(params.synthesizer_params)
                &&& input is Text
                &&& input->request_id == request_id
                &&& input->text@ == text
                &&& opt_view(input->text_type) == Some(text_type)
                &&& input->is_final
            },
            _ => false,
        },
        MethodView::File { path } => action is PlayFile && action->PlayFile_request_id == request_id
            && action->PlayFile_path@ == path,
        MethodView::Remote { url, path } => action is PlayRemote && action->PlayRemote_request_id
            == request_id && action->url@ == url && action->PlayRemote_path@ == path,
    }
}

/// The type of a text; plain text if nothing is said about it.
pub open spec fn text_type_or_plain(text_type: Option<Seq<char>>) -> Seq<char> {
    match text_type {
        Some(mime) => mime,
        None => "text/plain"@,
    }
}

impl Playback {
    /// Decides how a request is played. A request is a text; at the end of the input there is none.
    pub fn conversation(&self, params: &Params, request: Option<Input<()>>) -> (r: Result<
        PlaybackAction,
        Error,
    >)
        ensures
            match request {
                None => r == Ok::<PlaybackAction, Error>(PlaybackAction::End),
                Some(Input::Text { request_id, text, text_type, .. }) => {
                    let method = method_for(
                        text@,
                        text_type_or_plain(opt_view(text_type)),
                        self.local_files is Some,
                    );
                    &&& r is Ok <==> method is Ok
                    &&& r matches Ok(action) ==> carries_out(
                        action,
                        method->Ok_0,
                        request_id,
                        *params,
                    )
                    &&& r matches Err(e) ==> method->Err_0 == e@
                },
                Some(Input::Audio { .. }) => r matches Err(e) && e@ == seq![
                    "Audio input is not supported"@,
                ],
                Some(Input::ServiceEvent { .. }) => r matches Err(e) && e@ == seq![
                    "Service events are not supported"@,
                ],
            },
    {
        match request {
            None => Ok(PlaybackAction::End),
            Some(Input::Text { request_id, text, text_type, .. }) => {
                let mime = match &text_type {
                    Some(mime) => mime.as_str(),
                    None => "text/plain",
                };
                let local_root = as_opt_str(&self.local_files);
                match PlaybackMethod::from_text_and_mime_type(text, mime, local_root) {
                    Ok(PlaybackMethod::Synthesize { text, text_type }) => Ok(
                        PlaybackAction::Converse {
                            service: params.synthesizer_service.clone(),
                            params: clone_json(&params.synthesizer_params),
                            input: Input::Text {
                                request_id,
                                text,
                                text_type: Some(text_type),
                                is_final: true,
                            },
                        },
                    ),
                    Ok(PlaybackMethod::File { path }) => Ok(
                        PlaybackAction::PlayFile { request_id, path },
                    ),
                    Ok(PlaybackMethod::Remote { url, path }) => Ok(
                        PlaybackAction::PlayRemote { request_id, url, path },
                    ),
                    Err(error) => Err(error),
                }
            },
            Some(Input::Audio { .. }) => Err(Error::new("Audio input is not supported")),
            Some(Input::ServiceEvent { .. }) => Err(Error::new("Service events are not supported")),
        }
    }
}

/// Playing audio leaves out no sample and adds none: the frames hold the samples in order, each but
/// the last holds a second, and none is empty.
pub proof fn law_frames_hold_the_samples(samples: Seq<i16>, rate: nat)
    requires
        rate > 0,
    ensures
        seconds(samples, rate).flatten() == samples,
        forall|i: int|
            0 <= i < seconds(samples, rate).len() ==> 0 < #[trigger] seconds(samples, rate)[i].len()
                <= rate,
        forall|i: int|
            0 <= i < seconds(samples, rate).len() - 1 ==> #[trigger] seconds(
                samples,
                rate,
            )[i].len() == rate,
    decreases samples.len(),
{
    let parts = seconds(samples, rate);
    if samples.len() == 0 {
        assert(parts.flatten() =~= samples);
    } else if samples.len() <= rate {
        assert(parts.drop_first() =~= Seq::<Seq<i16>>::empty());
        assert(parts.first() == samples);
        assert(parts.drop_first().flatten() =~= Seq::<i16>::empty());
        assert(parts.flatten() =~= samples);
    } else {
        let rest = samples.skip(rate as int);
        law_frames_hold_the_samples(rest, rate);
        assert(parts.drop_first() =~= seconds(rest, rate));
        assert(parts.first() == samples.take(rate as int));
        assert(parts.flatten() =~= samples.take(rate as int) + rest);
        assert(parts.flatten() =~= samples);
        assert forall|i: int| 0 <= i < parts.len() implies 0 < #[trigger] parts[i].len() <= rate by {
            if i > 0 {
                assert(parts[i] == seconds(rest, rate)[i - 1]);
            }
        }
        assert forall|i: int| 0 <= i < parts.len() - 1 implies #[trigger] parts[i].len() == rate by {
            if i > 0 {
                assert(parts[i] == seconds(rest, rate)[i - 1]);
            }
        }
    }
}

} // verus!

//! What holds of playback.

use vstd::prelude::*;

use bytes::Bytes;

use crate::audio::duration_nanos;
use crate::audio::AudioFormat;
use crate::audio::AudioFrame;
use crate::audio::FrameView;
use crate::error::Error;
use crate::input::Input;
use crate::json::json_text;
use crate::output::emissions;
use crate::output::BillingSchedule;
use crate::output::Emission;
use crate::playback::method::audio_type;
use crate::playback::method::carries_out;
use crate::playback::method::check_download;
use crate::playback::method::check_supported_audio_type;
use crate::playback::method::check_within_root;
use crate::playback::method::frames_of;
use crate::playback::method::frames_view;
use crate::playback::method::guessed_mime;
use crate::playback::method::is_within;
use crate::playback::method::law_frames_hold_the_samples;
use crate::playback::method::method_for;
use crate::playback::method::play;
use crate::playback::method::play_file;
use crate::playback::method::played;
use crate::playback::method::read_to_one_second_frames;
use crate::playback::method::record_name;
use crate::playback::method::remote_method;
use crate::playback::method::seconds;
use crate::playback::method::supported_type;
use crate::playback::method::text_type_or_plain;
use crate::playback::method::total_nanos;
use crate::playback::method::AudioOrigin;
use crate::playback::method::AudioType;
use crate::playback::method::MethodView;
use crate::playback::method::Params;
use crate::playback::method::Playback;
use crate::playback::method::PlaybackAction;
use crate::playback::method::PlaybackMethod;
use crate::playback::method::RemoteUrl;
use crate::playback::stream_reader::chunk_bytes;
use crate::playback::stream_reader::StreamReader;
use crate::text::is_space;
use crate::text::is_without_space_around;
use crate::text::law_trimming;
use crate::text::lines_of;
use crate::urls::url_path;
use crate::urls::url_read;
use crate::urls::url_scheme;

verus! {

proof fn lemma_types_differ()
    ensures
        "text/plain"@ != "text/uri-list"@,
        "text/plain"@ != "application/x-file-path"@,
        "application/ssml+xml"@ != "text/uri-list"@,
        "application/ssml+xml"@ != "application/x-file-path"@,
        "text/uri-list"@ != "application/x-file-path"@,
{
    reveal_strlit("text/plain");
    reveal_strlit("application/ssml+xml");
    reveal_strlit("text/uri-list");
    reveal_strlit("application/x-file-path");
    assert("text/plain"@.len() == 10 && "text/uri-list"@.len() == 13);
    assert("application/ssml+xml"@.len() == 20 && "application/x-file-path"@.len() == 23);
}

/// Plain text and markup are synthesized as they are, each as what it is.
pub proof fn law_texts_are_synthesized(text: Seq<char>, mime: Seq<char>, has_root: bool)
    requires
        mime == "text/plain"@ || mime == "application/ssml+xml"@,
    ensures
        method_for(text, mime, has_root) is Ok,
        method_for(text, mime, has_root)->Ok_0 is Synthesize,
        method_for(text, mime, has_root)->Ok_0->text == text,
        method_for(text, mime, has_root)->Ok_0->text_type == mime,
{
}

/// A list of URIs has to be a single line with an HTTP address, which is then downloaded.
pub proof fn law_addresses_are_downloaded(text: Seq<char>, has_root: bool)
    ensures
        ({
            let r = method_for(text, "text/uri-list"@, has_root);
            let lines = lines_of(text);
            &&& lines.len() != 1 ==> r == Err::<MethodView, Seq<Seq<char>>>(
                seq!["Invalid input: Expected a single line in text/uri-list"@],
            )
            &&& lines.len() == 1 ==> match url_read(lines[0]) {
                Err(cause) => r == Err::<MethodView, Seq<Seq<char>>>(
                    seq!["Failed to parse URI in text/uri-list"@, cause],
                ),
                Ok(url) => {
                    let http = url_scheme(url) == "http"@ || url_scheme(url) == "https"@;
                    &&& http ==> r is Ok && r->Ok_0 is Remote && r->Ok_0->url == url
                        && r->Ok_0->Remote_path == url_path(url)
                    &&& !http ==> r == Err::<MethodView, Seq<Seq<char>>>(
                        seq![
                            "Unsupported URI scheme in text/uri-list, expecting either `http://` or `https://`"@,
                        ],
                    )
                },
            }
        }),
{
    lemma_types_differ();
}

/// A file path is played if there is a directory for local files and it does not begin with a slash.
/// White space around it is dropped. Other types of text are refused.
pub proof fn law_files_are_played(text: Seq<char>, mime: Seq<char>, has_root: bool)
    ensures
        ({
            let r = method_for(text, "application/x-file-path"@, has_root);
            &&& !has_root ==> r == Err::<MethodView, Seq<Seq<char>>>(
                seq!["Can't play back a local audio file: No local root path configured"@],
            )
            &&& has_root && r is Ok ==> {
                &&& r->Ok_0 is File
                &&& is_without_space_around(r->Ok_0->File_path, text)
                &&& r->Ok_0->File_path.len() > 0 ==> r->Ok_0->File_path[0] != '/'
            }
            &&& has_root && r is Err ==> r == Err::<MethodView, Seq<Seq<char>>>(
                seq!["Absolute paths are not supported in local audio file playback"@],
            )
            &&& has_root && text.len() > 0 && !is_space(text[0]) && !is_space(text[text.len() - 1])
                ==> (r is Ok <==> text[0] != '/')
            &&& has_root && text.len() > 0 && !is_space(text[0]) && !is_space(text[text.len() - 1])
                && text[0] != '/' ==> r->Ok_0->File_path == text
        }),
        mime != "text/plain"@ && mime != "application/ssml+xml"@ && mime != "text/uri-list"@ && mime
            != "application/x-file-path"@ ==> method_for(text, mime, has_root) == Err::<
            MethodView,
            Seq<Seq<char>>,
        >(
            seq![
                "Unsupported text type, expecting `text/plain`, `text/uri-list`, or `application/x-file-path`"@,
            ],
        ),
{
    lemma_types_differ();
    law_trimming(text);
    reveal_strlit("/");
    let path = crate::text::trimmed(text);
    let slash = "/"@;
    assert(slash.len() == 1 && slash[0] == '/');
    if path.len() > 0 {
        assert(slash.is_prefix_of(path) <==> path[0] == '/') by {
            if path[0] == '/' {
                assert(path.subrange(0, 1) =~= slash);
            }
            if slash.is_prefix_of(path) {
                assert(path.subrange(0, 1)[0] == '/');
            }
        }
    }
}

/// An address that was read is downloaded if it is an HTTP address.
pub proof fn law_read_addresses(read: Result<RemoteUrl, String>)
    ensures
        match read {
            Err(cause) => remote_method(read) == Err::<MethodView, Seq<Seq<char>>>(
                seq!["Failed to parse URI in text/uri-list"@, cause@],
            ),
            Ok(url) => {
                let http = url.scheme@ == "http"@ || url.scheme@ == "https"@;
                let r = remote_method(read);
                &&& http ==> r is Ok && r->Ok_0 is Remote && r->Ok_0->url == url.url@
                    && r->Ok_0->Remote_path == url.path@
                &&& !http ==> r == Err::<MethodView, Seq<Seq<char>>>(
                    seq![
                        "Unsupported URI scheme in text/uri-list, expecting either `http://` or `https://`"@,
                    ],
                )
            },
        },
{
}

/// A path leads to what is in a directory if it begins with all components of the directory.
pub proof fn law_paths_within(resolved: Seq<Vec<u8>>, root: Seq<Vec<u8>>)
    ensures
        is_within(resolved, root) <==> root.len() <= resolved.len() && forall|i: int|
            0 <= i < root.len() ==> (#[trigger] root[i])@ == resolved[i]@,
{
    let a = crate::audio::byte_seqs(resolved);
    let b = crate::audio::byte_seqs(root);
    if is_within(resolved, root) {
        assert forall|i: int| 0 <= i < root.len() implies (#[trigger] root[i])@ == resolved[i]@ by {
            assert(a.subrange(0, b.len() as int)[i] == b[i]);
        }
    } else if root.len() <= resolved.len() {
        if forall|i: int| 0 <= i < root.len() ==> (#[trigger] root[i])@ == resolved[i]@ {
            assert forall|i: int| 0 <= i < b.len() implies #[trigger] a.subrange(
                0,
                b.len() as int,
            )[i] == b[i] by {
                assert(root[i]@ == resolved[i]@);
            }
            assert(a.subrange(0, b.len() as int) =~= b);
        }
    }
}

/// WAV and MP3 audio is supported, by the type that is told, or else by the one that is guessed.
pub proof fn law_supported_audio(mime: Seq<char>, told: Option<Seq<char>>, guess: Option<Seq<char>>)
    ensures
        audio_type("audio/wav"@) == Ok::<AudioType, Seq<char>>(AudioType::Wav),
        audio_type("audio/mpeg"@) == Ok::<AudioType, Seq<char>>(AudioType::MP3),
        mime != "audio/wav"@ && mime != "audio/mpeg"@ ==> audio_type(mime) == Err::<
            AudioType,
            Seq<char>,
        >("Invalid audio url, guessed or provided mime type: "@ + mime),
        supported_type(Some(mime), guess) == audio_type(mime),
        supported_type(None, Some(mime)) == audio_type(mime),
        supported_type(None, None) == Err::<AudioType, Seq<char>>(
            "Invalid audio url (should end in `.mp3` or `.wav`)"@,
        ),
{
    reveal_strlit("audio/wav");
    reveal_strlit("audio/mpeg");
    assert("audio/wav"@.len() != "audio/mpeg"@.len());
}

/// Audio that is played is put out frame by frame, then billed with the media for the time of all
/// frames, and then the request is complete.
pub proof fn law_played_audio(
    frames: Seq<FrameView>,
    frame: FrameView,
    request_id: Option<Seq<char>>,
    record: Seq<char>,
)
    requires
        0 <= total_nanos(frames) <= u128::MAX,
    ensures
        ({
            let out = played(frames, request_id, record);
            let n = frames.len() as int;
            &&& out.len() == n + 2
            &&& forall|i: int|
                0 <= i < n ==> (#[trigger] out[i]) is Audio && out[i]->Audio_0 == frames[i]
            &&& out[n] is BillingRecords
            &&& out[n]->BillingRecords_request_id == request_id
            &&& out[n]->scope is None
            &&& out[n]->schedule == BillingSchedule::Media
            &&& out[n]->records.len() == 1
            &&& out[n]->records[0].name == record
            &&& out[n]->records[0].value is Duration
            &&& out[n]->records[0].value->Duration_0 == total_nanos(frames)
            &&& out[n + 1] is RequestCompleted
            &&& out[n + 1]->RequestCompleted_request_id == request_id
        }),
        total_nanos(Seq::empty()) == 0,
        total_nanos(frames.push(frame)) == total_nanos(frames) + duration_nanos(
            frame.format,
            frame.samples.len(),
        ),
        record_name(AudioOrigin::File) == "playback:file"@,
        record_name(AudioOrigin::Remote) == "playback:remote"@,
{
    assert(frames.push(frame).drop_last() =~= frames);
}

/// Frames hold the parts of the audio in order, in the format of the output.
pub proof fn law_frames(parts: Seq<Seq<i16>>, frames: Seq<AudioFrame>, format: AudioFormat)
    ensures
        frames_of(parts, format).len() == parts.len(),
        forall|i: int|
            0 <= i < parts.len() ==> (#[trigger] frames_of(parts, format)[i]).samples == parts[i]
                && frames_of(parts, format)[i].format == format,
        frames_view(frames).len() == frames.len(),
        forall|i: int|
            0 <= i < frames.len() ==> (#[trigger] frames_view(frames)[i]).samples
                == frames[i].samples@ && frames_view(frames)[i].format == frames[i].format,
{
}

/// A text is handed to the synthesizer whole, with its type and its request. Files and downloads are
/// played for their request. A text without a type is plain.
pub proof fn law_requests_are_carried_out(
    action: PlaybackAction,
    method: MethodView,
    request_id: Option<String>,
    params: Params,
    mime: Seq<char>,
)
    ensures
        text_type_or_plain(Some(mime)) == mime,
        text_type_or_plain(None) == "text/plain"@,
        carries_out(action, method, request_id, params) <==> match action {
            PlaybackAction::Converse { service, params: p, input } => {
                &&& method is Synthesize
                &&& service@ == params.synthesizer_service@
                &&& json_text(p) == json_text(params.synthesizer_params)
                &&& input is Text
                &&& input->text@ == method->text
                &&& input->text_type is Some
                &&& input->text_type->0@ == method->text_type
                &&& input->request_id == request_id
                &&& input->is_final
            },
            PlaybackAction::PlayFile { request_id: r, path } => method is File && r == request_id
                && path@ == method->File_path,
            PlaybackAction::PlayRemote { request_id: r, url, path } => method is Remote && r
                == request_id && url@ == method->url && path@ == method->Remote_path,
            PlaybackAction::End => false,
        },
{
}

/// How something is played is shown as it is.
pub proof fn law_methods_are_shown(method: PlaybackMethod)
    ensures
        match method {
            PlaybackMethod::Synthesize { text, text_type } => method@ is Synthesize && method@->text
                == text@ && method@->text_type == text_type@,
            PlaybackMethod::File { path } => method@ is File && method@->File_path == path@,
            PlaybackMethod::Remote { url, path } => method@ is Remote && method@->url == url@
                && method@->Remote_path == path@,
        },
{
}

/// A request is played in the way that its type tells. Audio and events are refused, and the
/// conversation ends with its input.
pub proof fn law_played_requests(
    playback: Playback,
    params: Params,
    request: Option<Input<()>>,
    r: Result<PlaybackAction, Error>,
)
    requires
        call_ensures(Playback::conversation, (&playback, &params, request), r),
    ensures
        request is None ==> r is Ok && r->Ok_0 is End,
        request matches Some(Input::Audio { .. }) ==> r is Err && r->Err_0@ == seq![
            "Audio input is not supported"@,
        ],
        request matches Some(Input::ServiceEvent { .. }) ==> r is Err && r->Err_0@ == seq![
            "Service events are not supported"@,
        ],
        request matches Some(Input::Text { request_id, text, text_type, .. }) ==> {
            let plain = text_type is None || text_type->0@ == "text/plain"@ || text_type->0@
                == "application/ssml+xml"@;
            let file = text_type is Some && text_type->0@ == "application/x-file-path"@;
            &&& plain ==> {
                &&& r is Ok && r->Ok_0 is Converse
                &&& r->Ok_0->service@ == params.synthesizer_service@
                &&& json_text(r->Ok_0->params) == json_text(params.synthesizer_params)
                &&& r->Ok_0->input is Text
                &&& r->Ok_0->input->text@ == text@
                &&& r->Ok_0->input->request_id == request_id
                &&& r->Ok_0->input->is_final
                &&& r->Ok_0->input->text_type is Some
                &&& text_type is Some ==> r->Ok_0->input->text_type->0@ == text_type->0@
            }
            &&& file && playback.local_files is None ==> r is Err
            &&& file && r is Ok ==> r->Ok_0 is PlayFile && r->Ok_0->PlayFile_request_id == request_id
                && is_without_space_around(r->Ok_0->PlayFile_path@, text@)
        },
{
    lemma_types_differ();
    if let Some(Input::Text { request_id, text, text_type, .. }) = request {
        law_files_are_played(text@, "text/plain"@, playback.local_files is Some);
    }
}

/// Samples are played whole: in frames of a second each, but for the last one, in the format of the
/// output. Only one channel can be played.
pub proof fn law_played_samples(
    request_id: Option<String>,
    samples: Vec<i16>,
    format: AudioFormat,
    origin: AudioOrigin,
    out: &mut Vec<Emission<()>>,
    r: Result<(), Error>,
)
    requires
        format.channels == 1 ==> format.sample_rate > 0,
        call_ensures(play, (request_id, samples, format, origin, out), r),
    ensures
        format.channels != 1 ==> r is Err && final(out)@ == old(out)@ && r->Err_0@ == seq![
            "Only mono output is supported"@,
        ],
        format.channels == 1 ==> {
            let parts = seconds(samples@, format.sample_rate as nat);
            let o = emissions(final(out)@);
            let n = old(out)@.len() as int;
            let m = parts.len() as int;
            &&& r is Ok
            &&& parts.flatten() == samples@
            &&& o.len() == n + m + 2
            &&& o.take(n) == emissions(old(out)@)
            &&& forall|i: int|
                n <= i < n + m ==> (#[trigger] o[i]) is Audio && o[i]->Audio_0.format == format
                    && o[i]->Audio_0.samples == parts[i - n]
            &&& o[n + m] is BillingRecords
            &&& o[n + m]->schedule == BillingSchedule::Media
            &&& o[n + m]->records.len() == 1
            &&& origin is File ==> o[n + m]->records[0].name == "playback:file"@
            &&& origin is Remote ==> o[n + m]->records[0].name == "playback:remote"@
            &&& o[n + m + 1] is RequestCompleted
            &&& o[n + m + 1]->RequestCompleted_request_id is Some <==> request_id is Some
            &&& request_id is Some ==> o[n + m + 1]->RequestCompleted_request_id->0
                == request_id->0@
        },
{
    let n = old(out)@.len() as int;
    assert(emissions(old(out)@).len() == n);
    if format.channels == 1 {
        let rate = format.sample_rate as nat;
        law_frames_hold_the_samples(samples@, rate);
        assert(emissions(final(out)@).take(n) =~= emissions(old(out)@));
    }
}

/// A file is played only from the directory for local files.
pub proof fn law_played_files(
    request_id: Option<String>,
    resolved: Vec<Vec<u8>>,
    root: Vec<Vec<u8>>,
    samples: Vec<i16>,
    format: AudioFormat,
    out: &mut Vec<Emission<()>>,
    r: Result<(), Error>,
)
    requires
        call_ensures(play_file, (request_id, &resolved, &root, samples, format, out), r),
    ensures
        r is Ok ==> root@.len() <= resolved@.len() && forall|i: int|
            0 <= i < root@.len() ==> (#[trigger] root@[i])@ == resolved@[i]@,
        r is Err ==> final(out)@ == old(out)@,
        root@.len() > resolved@.len() ==> r is Err && r->Err_0@ == seq![
            "Access to the specified path is not allowed"@,
        ],
{
    law_paths_within(resolved@, root@);
}

/// A download is played if it succeeded and its type is supported, whether the server tells it or it is
/// guessed.
pub proof fn law_checked_downloads(
    url: &str,
    path: &str,
    is_success: bool,
    status: &str,
    mime: Option<&str>,
    r: Result<AudioType, Error>,
)
    requires
        call_ensures(check_download, (url, path, is_success, status, mime), r),
    ensures
        !is_success ==> r is Err && r->Err_0@ == seq![
            "Download of `"@ + url@ + "` failed with status "@ + status@,
        ],
        is_success && mime is Some ==> (r is Ok <==> mime->0@ == "audio/wav"@ || mime->0@
            == "audio/mpeg"@),
        is_success && mime is None ==> (r is Ok <==> guessed_mime(path@) == Some("audio/wav"@)
            || guessed_mime(path@) == Some("audio/mpeg"@)),
        r is Ok && mime is Some ==> (r->Ok_0 is Wav <==> mime->0@ == "audio/wav"@),
{
    reveal_strlit("audio/wav");
    reveal_strlit("audio/mpeg");
    assert("audio/wav"@.len() != "audio/mpeg"@.len());
}

/// A read takes from the front of what came in, and asks for the next chunk only if nothing is left.
pub proof fn law_reads(reader: &mut StreamReader, wanted: usize, r: Option<Vec<u8>>)
    requires
        call_ensures(StreamReader::read, (reader, wanted), r),
    ensures
        r is None <==> wanted > 0 && old(reader)@.len() == 0,
        r matches Some(bytes) ==> {
            &&& bytes@ + final(reader)@ == old(reader)@
            &&& bytes@.len() <= wanted
            &&& wanted > 0 ==> bytes@.len() > 0
            &&& bytes@.len() == wanted || final(reader)@.len() == 0
        },
{
    if let Some(read) = r {
        assert(read@ + final(reader)@ =~= old(reader)@);
    }
}

/// A text is played as what its type says, a path has to lie below the root, and the type of audio is
/// the one that is told, or else the one that the name of the file suggests.
pub proof fn law_chosen_methods(
    text: String,
    mime: &str,
    local_root: Option<&str>,
    method: Result<PlaybackMethod, Error>,
    resolved: Vec<Vec<u8>>,
    root: Vec<Vec<u8>>,
    within: Result<(), Error>,
    path: &str,
    told: Option<&str>,
    kind: Result<AudioType, Error>,
)
    requires
        call_ensures(
            PlaybackMethod::from_text_and_mime_type,
            (text, mime, local_root),
            method,
        ),
        call_ensures(check_within_root, (&resolved, &root), within),
        call_ensures(check_supported_audio_type, (path, told), kind),
    ensures
        mime@ == "text/plain"@ || mime@ == "application/ssml+xml"@ ==> method is Ok
            && method->Ok_0@ is Synthesize && method->Ok_0@->text == text@
            && method->Ok_0@->text_type == mime@,
        within is Ok <==> root@.len() <= resolved@.len() && forall|i: int|
            0 <= i < root@.len() ==> (#[trigger] root@[i])@ == resolved@[i]@,
        within is Err ==> within->Err_0@ == seq!["Access to the specified path is not allowed"@],
        told is Some && told->0@ == "audio/wav"@ ==> kind is Ok && kind->Ok_0 == AudioType::Wav,
        told is Some && told->0@ == "audio/mpeg"@ ==> kind is Ok && kind->Ok_0 == AudioType::MP3,
        told is Some && told->0@ != "audio/wav"@ && told->0@ != "audio/mpeg"@ ==> kind is Err
            && kind->Err_0@ == seq![
            "Invalid audio url, guessed or provided mime type: "@ + told->0@,
        ],
        told is None && guessed_mime(path@) is None ==> kind is Err && kind->Err_0@ == seq![
            "Invalid audio url (should end in `.mp3` or `.wav`)"@,
        ],
        told is None && guessed_mime(path@) == Some("audio/wav"@) ==> kind is Ok && kind->Ok_0
            == AudioType::Wav,
        told is None && guessed_mime(path@) == Some("audio/mpeg"@) ==> kind is Ok && kind->Ok_0
            == AudioType::MP3,
{
    if mime@ == "text/plain"@ || mime@ == "application/ssml+xml"@ {
        law_texts_are_synthesized(text@, mime@, local_root is Some);
    }
    law_paths_within(resolved@, root@);
    if told is Some {
        law_supported_audio(told->0@, None, guessed_mime(path@));
    } else {
        law_supported_audio("audio/wav"@, None, guessed_mime(path@));
        law_supported_audio("audio/mpeg"@, None, guessed_mime(path@));
    }
}

/// Audio is cut into frames of one second, of which only the last can be shorter, and none is lost.
pub proof fn law_cut_audio(
    samples: Vec<i16>,
    format: AudioFormat,
    r: Result<Vec<AudioFrame>, Error>,
)
    requires
        format.sample_rate > 0,
        call_ensures(read_to_one_second_frames, (samples, format), r),
    ensures
        r is Ok <==> format.channels == 1,
        r is Err ==> r->Err_0@ == seq!["Only mono output is supported"@],
        r matches Ok(frames) ==> {
            &&& forall|i: int|
                0 <= i < frames@.len() ==> (#[trigger] frames@[i]).format == format && 0
                    < frames@[i].samples@.len() <= format.sample_rate
            &&& forall|i: int|
                0 <= i < frames@.len() - 1 ==> (#[trigger] frames@[i]).samples@.len()
                    == format.sample_rate
            &&& frames_view(frames@).map_values(|f: FrameView| f.samples).flatten() == samples@
        },
{
    if let Ok(frames) = r {
        let parts = seconds(samples@, format.sample_rate as nat);
        law_frames(parts, frames@, format);
        law_frames_hold_the_samples(samples@, format.sample_rate as nat);
        assert(frames_view(frames@).map_values(|f: FrameView| f.samples) =~= parts);
        assert forall|i: int| 0 <= i < frames@.len() implies (#[trigger] frames@[i]).samples@
            == parts[i] && frames@[i].format == format by {
            assert(frames_view(frames@)[i].samples == frames@[i].samples@);
            assert(frames_of(parts, format)[i].samples == parts[i]);
        }
    }
}

/// A read of the next chunk hands out its first bytes and keeps the others. An error of the stream is
/// handed out as it is, and at the end of the stream there is nothing more.
pub proof fn law_reads_of_chunks(
    reader: &mut StreamReader,
    next: Option<Result<Bytes, Error>>,
    wanted: usize,
    r: Result<Vec<u8>, Error>,
)
    requires
        wanted > 0,
        old(reader)@.len() == 0,
        call_ensures(StreamReader::read_next, (reader, next, wanted), r),
    ensures
        next is None ==> r is Ok && r->Ok_0@.len() == 0 && final(reader)@.len() == 0,
        next matches Some(Err(error)) ==> r is Err && r->Err_0 == error && final(reader)@.len()
            == 0,
        next matches Some(Ok(chunk)) ==> {
            &&& r is Ok
            &&& r->Ok_0@ + final(reader)@ == chunk_bytes(chunk)
            &&& r->Ok_0@.len() <= wanted
            &&& r->Ok_0@.len() == wanted || final(reader)@.len() == 0
        },
{
    if let Some(Ok(chunk)) = next {
        if let Ok(part) = r {
            let all = chunk_bytes(chunk);
            assert(all.take(part@.len() as int) + all.skip(part@.len() as int) =~= all);
        }
    }
}

} // verus!

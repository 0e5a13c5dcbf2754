use bytes::Bytes;
use context_switch::audio::{AudioFormat, AudioFrame};
use context_switch::azure;
use context_switch::azure::host::{Address, Host};
use context_switch::azure::synthesize::{
    import_output_audio_format, resolve_default_voice, voice_to_billing_scope, AzureSynthesize,
    AzureSynthesizeRequest, BillingScope, Metadata, OutputFormat,
};
use context_switch::azure::transcribe::{AzureTranscribe, OutputDetail, Profanity};
use context_switch::azure::translate::{AzureTranslate, OutputModalities};
use context_switch::error::Error;
use context_switch::input::Input;
use context_switch::modality::OutputModality;
use context_switch::output::{BillingValue, Emission};
use context_switch::playback::method::{
    check_download, check_supported_audio_type, check_within_root, play, play_file,
    read_to_one_second_frames, AudioOrigin, AudioType, Params, Playback, PlaybackAction, PlaybackMethod,
};
use context_switch::playback::stream_reader::StreamReader;
use url::Url;

const FORMAT: AudioFormat = AudioFormat { channels: 1, sample_rate: 16000 };

fn s(text: &str) -> String {
    text.to_string()
}

// Azure

#[test]
fn billing_scope_to_string() {
    assert_eq!(
        BillingScope::DragonHDFlashLatestNeural.to_string(),
        "DragonHDFlashLatestNeural"
    );
}

#[test]
fn billing_scopes_of_voices() {
    let scope = |voice: &str| voice_to_billing_scope(voice).unwrap().to_string();
    assert_eq!(scope("en-US-JennyNeural"), "Neural");
    assert_eq!(scope("en-US-JennyMultilingualNeural"), "MultilingualNeural");
    assert_eq!(scope("en-US-AlloyTurboMultilingualNeural"), "TurboMultilingualNeural");
    assert_eq!(scope("en-US-AlloyMultilingualNeuralHD"), "MultilingualNeuralHD");
    assert_eq!(scope("en-US-Ava:DragonHDLatestNeural"), "DragonHDLatestNeural");
    assert_eq!(scope("en-US-Ava:DragonHDFlashLatestNeural"), "DragonHDFlashLatestNeural");
    assert_eq!(
        voice_to_billing_scope("x").unwrap_err().chain,
        vec!["Unknown voice format: x. Cannot determine billing scope."]
    );
    assert_eq!(BillingScope::default(), BillingScope::TurboMultilingualNeural);
}

#[test]
fn azure_formats_and_voices() {
    assert_eq!(
        import_output_audio_format(AudioFormat::new(1, 48000)).unwrap(),
        OutputFormat::Raw48Khz16BitMonoPcm
    );
    assert_eq!(
        import_output_audio_format(AudioFormat::new(2, 48000)).unwrap_err().chain,
        vec!["Only mono supported"]
    );
    assert_eq!(
        import_output_audio_format(AudioFormat::new(1, 1)).unwrap_err().chain,
        vec!["Unsupported sample rate: 1. Supported rates are: 8000, 16000, 22050, 24000, 44100, 48000 Hz"]
    );
    assert_eq!(resolve_default_voice("de-DE").unwrap(), "de-DE-KatjaNeural");
    assert!(resolve_default_voice("fr-FR").unwrap_err().chain[0]
        .starts_with("No default voice for this language defined"));
}

#[test]
fn azure_hosts() {
    let host = Host::from_host(s("https://h"), s("k")).ok().unwrap();
    assert!(matches!(host.address, Address::Url(url) if url == "https://h/"));
    assert_eq!(Host::from_host(s("h"), s("k")).err().unwrap().chain.len(), 1);
    let host = Host::from_params(None, Some(s("westeurope")), s("k"), "missing").ok().unwrap();
    assert!(matches!(host.address, Address::Region(r) if r == "westeurope"));
    assert_eq!(
        Host::from_params(None, None, s("k"), "missing").err().unwrap().chain,
        vec!["missing"]
    );
}

fn synthesize_params(voice: Option<&str>) -> azure::synthesize::Params {
    azure::synthesize::Params {
        host: None,
        region: Some(s("westeurope")),
        subscription_key: s("k"),
        language: s("en-US"),
        voice: voice.map(s),
    }
}

#[test]
fn azure_documents() {
    let request = AzureSynthesizeRequest { language: s("en-US"), voice: s("v"), text: s("a < b") };
    assert_eq!(
        request.to_ssml().unwrap(),
        "<speak version=\"1.0\" xmlns=\"http://www.w3.org/2001/10/synthesis\" xml:lang=\"en-US\" xmlns:mstts=\"http://www.w3.org/2001/mstts\"><voice name=\"v\">a &lt; b</voice></speak>"
    );
    let odd = AzureSynthesizeRequest { language: s("\""), voice: s("'&"), text: s("") };
    assert_eq!(
        odd.to_ssml().unwrap(),
        "<speak version=\"1.0\" xmlns=\"http://www.w3.org/2001/10/synthesis\" xml:lang=\"&quot;\" xmlns:mstts=\"http://www.w3.org/2001/mstts\"><voice name=\"&apos;&amp;\"></voice></speak>"
    );
}

#[test]
fn azure_synthesis() {
    let azure = AzureSynthesize;
    let plan = azure.plan(synthesize_params(None), FORMAT).ok().unwrap();
    assert_eq!(plan.voice, "en-US-JennyNeural");
    assert_eq!(plan.billing_scope, BillingScope::Neural);
    assert!(plan.session_end && !plan.auto_detect_language);
    let failure = |params| azure.plan(params, FORMAT).err().unwrap().chain;
    assert_eq!(
        failure(synthesize_params(Some("odd"))),
        vec!["Unknown voice format: odd. Cannot determine billing scope."]
    );
    let mut nowhere = synthesize_params(None);
    nowhere.region = None;
    assert_eq!(failure(nowhere), vec!["Neither host nor region is defined in params"]);
    let input = Input::Text { request_id: Some(s("r")), text: s("hi"), text_type: None, is_final: true };
    let active = azure.conversation(&plan, Some(input)).ok().unwrap().unwrap();
    assert_eq!((active.request.text.as_str(), active.request.voice.as_str()), ("hi", "en-US-JennyNeural"));
    let mut out = Vec::new();
    let mut event = |e| azure.process_event(&plan, &active.request_id, e, FORMAT, &mut out);
    assert!(event(Some(Ok(azure::synthesize::Event::Synthesising(vec![1, 0])))).unwrap());
    let metadata = vec![Metadata::Other, Metadata::SessionEnd { offset: 15 }];
    assert!(event(Some(Ok(azure::synthesize::Event::AudioMetadata(metadata)))).unwrap());
    assert_eq!(
        event(Some(Err(Error::new("x")))).unwrap_err().chain,
        vec!["Azure synthesizer event error", "x"]
    );
    assert!(!event(None).unwrap());
    assert!(matches!(&out[1], Emission::BillingRecords { request_id: Some(id), scope: Some(scope), records, .. }
        if id == "r" && scope == "Neural" && records[0].name == "audio:synthesized" && records[0].value == BillingValue::Duration(1500)));
    assert!(matches!(&out[2], Emission::RequestCompleted { request_id: Some(id) } if id == "r"));
}

#[test]
fn azure_transcription() {
    let params = azure::transcribe::Params {
        host: None,
        region: Some(s("r")),
        subscription_key: s("k"),
        language: s("en-US"),
        speech_gate: true,
    };
    let plan = AzureTranscribe.plan(params, FORMAT).ok().unwrap();
    let mut header: Vec<u8> = b"RIFF\xff\xff\xff\xffWAVEfmt \x10\x00\x00\x00\x01\x00\x01\x00".to_vec();
    header.extend_from_slice(&16000u32.to_le_bytes());
    header.extend_from_slice(&32000u32.to_le_bytes());
    header.extend_from_slice(b"\x02\x00\x10\x00data\xff\xff\xff\xff");
    assert_eq!(plan.wav_header, header);
    assert!(plan.speech_gate);
    assert_eq!(plan.profanity, Profanity::Raw);
    assert_eq!(plan.output_detail, OutputDetail::Detailed);
    let mut out = Vec::new();
    let frame = AudioFrame { format: FORMAT, samples: vec![2; 16] };
    let bytes = AzureTranscribe.send_audio(Some(Input::Audio { frame }), &mut out).unwrap();
    assert_eq!(bytes.len(), 32);
    assert_eq!(AzureTranscribe.send_audio(None, &mut out), None);
    AzureTranscribe.conversation(azure::transcribe::Event::Recognizing { text: s("a") }, &mut out);
    AzureTranscribe.conversation(azure::transcribe::Event::Recognized { text: s("ab") }, &mut out);
    AzureTranscribe.conversation(azure::transcribe::Event::UnMatch, &mut out);
    assert!(matches!(&out[0], Emission::BillingRecords { records, .. } if records[0].value == BillingValue::Duration(1_000_000)));
    assert!(matches!(&out[1], Emission::Text { is_final: false, .. }));
    assert!(matches!(&out[2], Emission::Text { is_final: true, text, .. } if text == "ab"));
    assert_eq!(out.len(), 3);
}

#[test]
fn wav_headers_of_many_channels() {
    let params = azure::transcribe::Params {
        host: None,
        region: Some(s("r")),
        subscription_key: s("k"),
        language: s("en-US"),
        speech_gate: false,
    };
    let plan = AzureTranscribe.plan(params, AudioFormat::new(3, 8000)).ok().unwrap();
    let mut header: Vec<u8> = b"RIFF\xff\xff\xff\xffWAVEfmt \x28\x00\x00\x00\xfe\xff\x03\x00".to_vec();
    header.extend_from_slice(&8000u32.to_le_bytes());
    header.extend_from_slice(&48000u32.to_le_bytes());
    header.extend_from_slice(b"\x06\x00\x10\x00\x16\x00\x10\x00\x07\x00\x00\x00");
    header.extend_from_slice(&[1, 0, 0, 0, 0, 0, 0x10, 0, 0x80, 0, 0, 0xaa, 0, 0x38, 0x9b, 0x71]);
    header.extend_from_slice(b"data\xff\xff\xff\xff");
    assert_eq!(plan.wav_header, header);
}

#[test]
fn azure_translation_outputs() {
    let audio = OutputModality::Audio { format: FORMAT };
    let outputs = OutputModalities::from_modalities(&vec![audio, OutputModality::Text]).unwrap();
    assert_eq!(
        outputs,
        OutputModalities { text: true, interim_text: false, audio: Some(FORMAT) }
    );
    let failure = |m: Vec<OutputModality>| OutputModalities::from_modalities(&m).unwrap_err().chain;
    assert_eq!(failure(vec![audio, audio]), vec!["At most one audio output is supported"]);
    assert_eq!(
        failure(vec![OutputModality::Text, OutputModality::Text]),
        vec!["at most one text output is supported"]
    );
    assert_eq!(
        failure(vec![OutputModality::InterimText, OutputModality::InterimText]),
        vec!["At most one interim text modality is supported"]
    );
    assert_eq!(
        failure(vec![OutputModality::InterimText]),
        vec!["OutputModalities: InterimText requested without Text in output modalities"]
    );
    assert_eq!(
        failure(vec![]),
        vec!["At least Text or Audio must be requested in output modalities"]
    );
}

#[test]
fn azure_translation() {
    let params = || azure::translate::Params {
        host: None,
        region: Some(s("r")),
        subscription_key: s("k"),
        recognition_language: s("en-US"),
        target_language: s("de"),
    };
    let modalities = vec![
        OutputModality::Audio { format: FORMAT },
        OutputModality::Text,
        OutputModality::InterimText,
    ];
    let plan = AzureTranslate.plan(params(), FORMAT, &modalities).ok().unwrap();
    assert!(plan.synthesize);
    assert_eq!(plan.profanity, Profanity::Raw);
    assert_eq!(plan.output_detail, OutputDetail::Detailed);
    assert_eq!(plan.wav_header.len(), 44);
    let wrong = vec![OutputModality::Audio { format: AudioFormat::new(1, 8000) }];
    assert_eq!(
        AzureTranslate.plan(params(), FORMAT, &wrong).err().unwrap().chain,
        vec!["Only AudioFormat { channels: 1, sample_rate: 16000 } is supported, but output modalities contains AudioFormat { channels: 1, sample_rate: 8000 }"]
    );
    let mut out = Vec::new();
    for event in [
        azure::translate::Event::Translating { text: s("a") },
        azure::translate::Event::Translated { text: s("b") },
        azure::translate::Event::TranslationSynthesis { samples: vec![5] },
        azure::translate::Event::NoMatch,
    ] {
        AzureTranslate.conversation(event, &plan.outputs, &mut out);
    }
    assert!(matches!(&out[0], Emission::Text { is_final: false, .. }));
    assert!(matches!(&out[1], Emission::Text { is_final: true, text, .. } if text == "b"));
    assert!(matches!(&out[2], Emission::Audio(f) if f.samples == vec![5] && f.format == FORMAT));
    assert_eq!(out.len(), 3);
}

// Playback

fn supported(url: &str) -> bool {
    let url = Url::parse(url).unwrap();
    check_supported_audio_type(url.path(), None).is_ok()
}

#[test]
fn supported_file_formats() {
    assert!(!supported("http://test.wav"));
    assert!(supported("http://test.com/test.wav"));
    assert!(supported("http://test.com/test.mp3"));
    assert!(supported("http://test.com/test.mp3?query=10"));
    assert!(supported("http://test.com/test.MP3"));
    assert!(!supported("http://test.com/test.ogg"));
}

#[test]
fn mime_type_override() {
    for (url, mime, expected) in [
        ("http://test.com/audio-file", "audio/wav", AudioType::Wav),
        ("http://test.com/audio-file", "audio/mpeg", AudioType::MP3),
        ("http://test.com/audio.unknown", "audio/wav", AudioType::Wav),
        ("http://test.com/audio.ogg", "audio/mpeg", AudioType::MP3),
    ] {
        let url = Url::parse(url).unwrap();
        let result = check_supported_audio_type(url.path(), Some(mime));
        assert!(result.is_ok());
        assert_eq!(result.unwrap(), expected);
    }
}

#[test]
fn unsupported_audio() {
    assert_eq!(
        check_supported_audio_type("/", None).unwrap_err().chain,
        vec!["Invalid audio url (should end in `.mp3` or `.wav`)"]
    );
    assert_eq!(
        check_supported_audio_type("/x.wav", Some("text/html")).unwrap_err().chain,
        vec!["Invalid audio url, guessed or provided mime type: text/html"]
    );
    assert_eq!(
        check_download("http://h/x.wav", "/x.wav", false, "404 Not Found", None).unwrap_err().chain,
        vec!["Download of `http://h/x.wav` failed with status 404 Not Found"]
    );
    assert_eq!(
        check_download("http://h/x.wav", "/x.wav", true, "200 OK", None).unwrap(),
        AudioType::Wav
    );
}

#[test]
fn playback_methods() {
    let method = |text: &str, mime: &str, root: Option<&str>| {
        PlaybackMethod::from_text_and_mime_type(s(text), mime, root).map_err(|e| e.chain)
    };
    assert!(matches!(method("t", "application/ssml+xml", None),
        Ok(PlaybackMethod::Synthesize { text, text_type }) if text == "t" && text_type == "application/ssml+xml"));
    assert!(matches!(method("http://h/a.mp3?q#f\r\n", "text/uri-list", None),
        Ok(PlaybackMethod::Remote { url, path }) if url == "http://h/a.mp3?q#f" && path == "/a.mp3"));
    assert!(matches!(method(" a/b.wav\n", "application/x-file-path", Some("/root")),
        Ok(PlaybackMethod::File { path }) if path == "a/b.wav"));
    let failure = |text, mime, root| method(text, mime, root).err().unwrap();
    assert_eq!(
        failure("http://a\nhttp://b", "text/uri-list", None),
        vec!["Invalid input: Expected a single line in text/uri-list"]
    );
    assert_eq!(failure("x y", "text/uri-list", None)[0], "Failed to parse URI in text/uri-list");
    assert_eq!(
        failure("ftp://h/a", "text/uri-list", None),
        vec!["Unsupported URI scheme in text/uri-list, expecting either `http://` or `https://`"]
    );
    assert_eq!(
        failure("a", "application/x-file-path", None),
        vec!["Can't play back a local audio file: No local root path configured"]
    );
    assert_eq!(
        failure(" /etc/a.wav", "application/x-file-path", Some("/root")),
        vec!["Absolute paths are not supported in local audio file playback"]
    );
    assert_eq!(
        failure("a", "text/html", None),
        vec!["Unsupported text type, expecting `text/plain`, `text/uri-list`, or `application/x-file-path`"]
    );
}

#[test]
fn paths_stay_within_the_root() {
    let path = |parts: &[&str]| parts.iter().map(|p| p.as_bytes().to_vec()).collect::<Vec<_>>();
    let root = path(&["/", "srv", "audio"]);
    assert!(check_within_root(&path(&["/", "srv", "audio", "a.wav"]), &root).is_ok());
    assert!(check_within_root(&path(&["/", "srv", "audio2", "a.wav"]), &root).is_err());
    assert_eq!(
        check_within_root(&path(&["/", "srv"]), &root).unwrap_err().chain,
        vec!["Access to the specified path is not allowed"]
    );
    // Components that are no text are told apart.
    let odd = |byte: u8| vec![vec![byte]];
    assert!(check_within_root(&odd(0xfe), &odd(0xfe)).is_ok());
    assert!(check_within_root(&odd(0xfe), &odd(0xff)).is_err());
}

#[test]
fn files_are_played_within_the_root_only() {
    let path = |parts: &[&str]| parts.iter().map(|p| p.as_bytes().to_vec()).collect::<Vec<_>>();
    let root = path(&["/", "srv"]);
    let mut out = Vec::new();
    let outside = play_file(None, &path(&["/", "etc"]), &root, vec![1], FORMAT, &mut out);
    assert_eq!(outside.unwrap_err().chain, vec!["Access to the specified path is not allowed"]);
    assert!(out.is_empty());
    let stereo = AudioFormat::new(2, 0);
    let inside = path(&["/", "srv", "a.wav"]);
    let refused = play_file(None, &inside, &root, vec![1], stereo, &mut out);
    assert_eq!(refused.unwrap_err().chain, vec!["Only mono output is supported"]);
    play_file(Some(s("r")), &inside, &root, vec![1], FORMAT, &mut out).unwrap();
    assert_eq!(out.len(), 3);
    assert!(matches!(&out[0], Emission::Audio(frame) if frame.samples == vec![1]));
    assert!(matches!(&out[1], Emission::BillingRecords { records, .. }
        if records[0].name == "playback:file"));
    assert!(matches!(&out[2], Emission::RequestCompleted { request_id: Some(id) } if id == "r"));
}

#[test]
fn playback_requests() {
    let playback = Playback { local_files: Some(s("/srv")) };
    let params = Params {
        synthesizer_service: s("azure-synthesize"),
        synthesizer_params: serde_json::from_str("{\"language\":\"en-US\"}").unwrap(),
    };
    let text = |text: &str, text_type: Option<&str>| {
        Some(Input::Text {
            request_id: Some(s("r")),
            text: s(text),
            text_type: text_type.map(s),
            is_final: true,
        })
    };
    assert!(matches!(playback.conversation(&params, text("hi", None)),
        Ok(PlaybackAction::Converse { service, params, input: Input::Text { request_id: Some(id), text, text_type: Some(t), is_final: true } })
            if service == "azure-synthesize" && params.to_string() == "{\"language\":\"en-US\"}" && id == "r" && text == "hi" && t == "text/plain"));
    assert!(matches!(playback.conversation(&params, text("a.wav", Some("application/x-file-path"))),
        Ok(PlaybackAction::PlayFile { request_id: Some(id), path }) if id == "r" && path == "a.wav"));
    assert!(matches!(playback.conversation(&params, text("https://h/a.mp3", Some("text/uri-list"))),
        Ok(PlaybackAction::PlayRemote { url, path, .. }) if url == "https://h/a.mp3" && path == "/a.mp3"));
    assert!(matches!(playback.conversation(&params, None), Ok(PlaybackAction::End)));
    let audio = Input::Audio { frame: AudioFrame { format: FORMAT, samples: vec![] } };
    assert_eq!(
        playback.conversation(&params, Some(audio)).err().unwrap().chain,
        vec!["Audio input is not supported"]
    );
    let service = Input::ServiceEvent { value: () };
    assert_eq!(
        playback.conversation(&params, Some(service)).err().unwrap().chain,
        vec!["Service events are not supported"]
    );
}

#[test]
fn frames_of_one_second() {
    let format = AudioFormat::new(1, 4);
    let frames = read_to_one_second_frames((0..10).collect(), format).unwrap();
    let samples: Vec<Vec<i16>> = frames.into_iter().map(|f| f.samples).collect();
    assert_eq!(samples, vec![vec![0, 1, 2, 3], vec![4, 5, 6, 7], vec![8, 9]]);
    assert_eq!(read_to_one_second_frames(vec![0; 8], format).unwrap().len(), 2);
    assert!(read_to_one_second_frames(vec![], format).unwrap().is_empty());
    assert_eq!(
        read_to_one_second_frames(vec![], AudioFormat::new(2, 4)).unwrap_err().chain,
        vec!["Only mono output is supported"]
    );
}

#[test]
fn played_audio_is_billed() {
    let mut out = Vec::new();
    let format = AudioFormat::new(1, 4);
    play(Some(s("r")), vec![0; 10], format, AudioOrigin::Remote, &mut out).unwrap();
    assert_eq!(out.len(), 5);
    assert!(matches!(&out[3], Emission::BillingRecords { request_id: Some(id), scope: None, records, .. }
        if id == "r" && records[0].name == "playback:remote" && records[0].value == BillingValue::Duration(2_500_000_000)));
    assert!(matches!(&out[4], Emission::RequestCompleted { request_id: Some(id) } if id == "r"));
    let mut file = Vec::new();
    play(None, vec![0; 1], format, AudioOrigin::File, &mut file).unwrap();
    assert!(matches!(&file[1], Emission::BillingRecords { records, .. } if records[0].name == "playback:file"));
}

#[test]
fn streams_are_read_in_pieces() {
    let mut reader = StreamReader::new();
    assert_eq!(reader.read(0), Some(vec![]));
    assert_eq!(reader.read(2), None);
    let chunk = Bytes::from(vec![1, 2, 3, 4, 5]);
    assert_eq!(reader.read_next(Some(Ok(chunk)), 2).unwrap(), vec![1, 2]);
    assert_eq!(reader.read(2), Some(vec![3, 4]));
    assert_eq!(reader.read(9), Some(vec![5]));
    assert_eq!(reader.read(1), None);
    assert_eq!(reader.read_next(Some(Ok(Bytes::from(vec![6]))), 3).unwrap(), vec![6]);
    assert_eq!(reader.read_next(Some(Err(Error::new("reset"))), 3).unwrap_err().chain, vec!["reset"]);
    assert_eq!(reader.read_next(None, 3).unwrap(), Vec::<u8>::new());
}

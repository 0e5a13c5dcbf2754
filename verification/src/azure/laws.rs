//! What holds of synthesis, transcription and translation, event by event.

use vstd::prelude::*;

use crate::audio::law_bytes_of_samples;
use crate::audio::lemma_duration_fits;
use crate::audio::law_samples_of_bytes;
use crate::audio::AudioFormat;
use crate::azure::synthesize as tts;
use crate::azure::transcribe as stt;
use crate::azure::translate;
use crate::azure::host::addressed;
use crate::azure::host::Address;
use crate::azure::host::AddressView;
use crate::azure::host::Host;
use crate::azure::synthesize::BillingScope;
use crate::azure::synthesize::Metadata;
use crate::azure::synthesize::OutputFormat;
use crate::azure::translate::OutputModalities;
use crate::azure::wav::wav_header;
use crate::error::Error;
use crate::input::Input;
use crate::modality::OutputModality;
use crate::openai_dialog::session::format_text;
use crate::output::emissions;
use crate::output::BillingSchedule;
use crate::output::Emission;
use crate::text::decimal;
use crate::urls::url_read;

verus! {

/// The samples per second of a format of the synthesizer.
pub open spec fn samples_per_second(format: OutputFormat) -> int {
    match format {
        OutputFormat::Raw48Khz16BitMonoPcm => 48000,
        OutputFormat::Raw44100Hz16BitMonoPcm => 44100,
        OutputFormat::Raw24Khz16BitMonoPcm => 24000,
        OutputFormat::Raw22050Hz16BitMonoPcm => 22050,
        OutputFormat::Raw16Khz16BitMonoPcm => 16000,
        OutputFormat::Raw8Khz16BitMonoPcm => 8000,
    }
}

/// Audio is synthesized at the rate that was asked for, so that different rates get different
/// formats. One channel and six rates are supported.
pub proof fn law_synthesized_rates(format: AudioFormat)
    ensures
        ({
            let rate = format.sample_rate;
            let supported = rate == 8000 || rate == 16000 || rate == 22050 || rate == 24000 || rate
                == 44100 || rate == 48000;
            &&& tts::raw_format(rate) is Some <==> supported
            &&& tts::raw_format(rate) is Some ==> samples_per_second(tts::raw_format(rate)->0)
                == rate
            &&& tts::output_format_error(format) is None <==> format.channels == 1 && supported
            &&& format.channels != 1 ==> tts::output_format_error(format) == Some(
                "Only mono supported"@,
            )
            &&& format.channels == 1 && !supported ==> tts::output_format_error(format) == Some(
                "Unsupported sample rate: "@ + decimal(rate as nat)
                    + ". Supported rates are: 8000, 16000, 22050, 24000, 44100, 48000 Hz"@,
            )
        }),
{
}

/// A conversation has the voice that is asked for, or else one for its language.
pub proof fn law_voices(params: tts::Params, language: Seq<char>)
    ensures
        params.voice is Some ==> tts::chosen_voice(params) == Some(params.voice->0@),
        params.voice is None ==> tts::chosen_voice(params) == tts::default_voice(
            params.language@,
        ),
        tts::default_voice("en-US"@) == Some("en-US-JennyNeural"@),
        tts::default_voice("en-GB"@) == Some("en-GB-LibbyNeural"@),
        tts::default_voice("de-DE"@) == Some("de-DE-KatjaNeural"@),
        tts::default_voice(language) is Some ==> language == "en-US"@ || language == "en-GB"@
            || language == "de-DE"@,
        tts::default_voice(language) is Some ==> language.is_prefix_of(
            tts::default_voice(language)->0,
        ),
        tts::no_default_voice()
            == "No default voice for this language defined, select one from here: <https://learn.microsoft.com/en-us/azure/ai-services/speech-service/language-support?tabs=tts>"@,
{
    reveal_strlit("en-US");
    reveal_strlit("en-GB");
    reveal_strlit("de-DE");
    reveal_strlit("en-US-JennyNeural");
    reveal_strlit("en-GB-LibbyNeural");
    reveal_strlit("de-DE-KatjaNeural");
    assert("en-US"@[3] == 'U' && "en-GB"@[3] == 'G' && "de-DE"@[0] == 'd' && "en-US"@[0] == 'e'
        && "en-GB"@[0] == 'e');
    assert("en-US-JennyNeural"@.subrange(0, 5) =~= "en-US"@);
    assert("en-GB-LibbyNeural"@.subrange(0, 5) =~= "en-GB"@);
    assert("de-DE-KatjaNeural"@.subrange(0, 5) =~= "de-DE"@);
}

/// The end of a text that has another one at its end.
proof fn lemma_ends(text: Seq<char>, end: Seq<char>)
    ensures
        end.is_suffix_of(text + end),
        forall|s: Seq<char>, k: int|
            #[trigger] s.is_suffix_of(text) && 1 <= k <= s.len() ==> #[trigger] s[s.len() - k]
                == text[text.len() - k],
{
    let whole = text + end;
    assert(whole.subrange(whole.len() - end.len(), whole.len() as int) =~= end);
    assert forall|s: Seq<char>, k: int|
        #[trigger] s.is_suffix_of(text) && 1 <= k <= s.len() implies #[trigger] s[s.len() - k]
        == text[text.len() - k] by {
        assert(text.subrange(text.len() - s.len(), text.len() as int)[s.len() - k]
            == text[text.len() - k]);
    }
}

/// What a voice is billed as is told by the end of its name. The longer ends come first.
pub proof fn law_scopes_of_voices(name: Seq<char>, voice: Seq<char>)
    ensures
        tts::scope_of(name + "TurboMultilingualNeural"@) == Some(
            BillingScope::TurboMultilingualNeural,
        ),
        tts::scope_of(name + "MultilingualNeuralHD"@) == Some(BillingScope::MultilingualNeuralHD),
        name.len() > 0 && name[name.len() - 1] != 'o' ==> tts::scope_of(
            name + "MultilingualNeural"@,
        ) == Some(BillingScope::MultilingualNeural),
        tts::scope_of(name + ":DragonHDFlashLatestNeural"@) == Some(
            BillingScope::DragonHDFlashLatestNeural,
        ),
        tts::scope_of(name + ":DragonHDLatestNeural"@) == Some(BillingScope::DragonHDLatestNeural),
        name.len() > 0 && name[name.len() - 1] != 'l' && name[name.len() - 1] != 't'
            ==> tts::scope_of(name + "Neural"@) == Some(BillingScope::Neural),
        tts::scope_of(voice) is None <==> !"Neural"@.is_suffix_of(voice)
            && !"MultilingualNeuralHD"@.is_suffix_of(voice),
        tts::unknown_voice(voice) == "Unknown voice format: "@ + voice
            + ". Cannot determine billing scope."@,
{
    reveal_strlit("TurboMultilingualNeural");
    reveal_strlit("MultilingualNeuralHD");
    reveal_strlit("MultilingualNeural");
    reveal_strlit(":DragonHDFlashLatestNeural");
    reveal_strlit(":DragonHDLatestNeural");
    reveal_strlit("Neural");
    let (a, b, c) = (
        "TurboMultilingualNeural"@,
        "MultilingualNeuralHD"@,
        "MultilingualNeural"@,
    );
    let (d, e, f) = (":DragonHDFlashLatestNeural"@, ":DragonHDLatestNeural"@, "Neural"@);
    assert(a.len() == 23 && b.len() == 20 && c.len() == 18);
    assert(d.len() == 26 && e.len() == 21 && f.len() == 6);
    assert(a[22] == 'l' && b[19] == 'D' && c[17] == 'l' && d[25] == 'l' && e[20] == 'l' && f[5]
        == 'l');
    assert(a[4] == 'o' && a[16] == 'l' && c[11] == 'l' && d[19] == 't' && e[14] == 't');
    assert(d[13] == 'h' && e[8] == 'D');
    let va = name + a;
    let vb = name + b;
    let vc = name + c;
    let vd = name + d;
    let ve = name + e;
    let vf = name + f;
    lemma_ends(name, a);
    lemma_ends(name, b);
    lemma_ends(name, c);
    lemma_ends(name, d);
    lemma_ends(name, e);
    lemma_ends(name, f);
    lemma_ends(va, a);
    lemma_ends(vb, a);
    lemma_ends(vc, a);
    lemma_ends(vd, a);
    lemma_ends(ve, a);
    lemma_ends(vf, a);
    lemma_ends(voice, f);
    // No other end fits: one character of it tells.
    assert(vb[vb.len() - 1] == 'D');
    assert(a[a.len() - 1] == 'l');
    assert(!a.is_suffix_of(vb));
    assert(vc[vc.len() - 1] == 'l');
    assert(b[b.len() - 1] == 'D');
    assert(!b.is_suffix_of(vc));
    if name.len() > 0 && name[name.len() - 1] != 'o' {
        assert(vc[vc.len() - 19] == name[name.len() - 1]);
        assert(a[a.len() - 19] == 'o');
        assert(!a.is_suffix_of(vc));
    }
    assert(vd[vd.len() - 7] == 't' && vd[vd.len() - 1] == 'l');
    assert(a[a.len() - 7] == 'l' && c[c.len() - 7] == 'l');
    assert(!a.is_suffix_of(vd) && !b.is_suffix_of(vd) && !c.is_suffix_of(vd));
    assert(ve[ve.len() - 7] == 't' && ve[ve.len() - 1] == 'l' && ve[ve.len() - 13] == 'D');
    assert(d[d.len() - 13] == 'h');
    assert(!a.is_suffix_of(ve) && !b.is_suffix_of(ve) && !c.is_suffix_of(ve)
        && !d.is_suffix_of(ve));
    if name.len() > 0 && name[name.len() - 1] != 'l' && name[name.len() - 1] != 't' {
        assert(vf[vf.len() - 7] == name[name.len() - 1] && vf[vf.len() - 1] == 'l');
        assert(d[d.len() - 7] == 't' && e[e.len() - 7] == 't');
        assert(!a.is_suffix_of(vf) && !b.is_suffix_of(vf) && !c.is_suffix_of(vf));
        assert(!d.is_suffix_of(vf) && !e.is_suffix_of(vf));
    }
    lemma_longer_ends(voice);
}

proof fn lemma_longer_ends(voice: Seq<char>)
    ensures
        "TurboMultilingualNeural"@.is_suffix_of(voice) || "MultilingualNeural"@.is_suffix_of(voice)
            || ":DragonHDFlashLatestNeural"@.is_suffix_of(voice)
            || ":DragonHDLatestNeural"@.is_suffix_of(voice) ==> "Neural"@.is_suffix_of(voice),
{
    reveal_strlit("TurboMultilingualNeural");
    reveal_strlit("MultilingualNeural");
    reveal_strlit(":DragonHDFlashLatestNeural");
    reveal_strlit(":DragonHDLatestNeural");
    reveal_strlit("Neural");
    let f = "Neural"@;
    let n = voice.len() as int;
    let a = "TurboMultilingualNeural"@;
    let c = "MultilingualNeural"@;
    let d = ":DragonHDFlashLatestNeural"@;
    let e = ":DragonHDLatestNeural"@;
    assert(a.len() == 23 && c.len() == 18 && d.len() == 26 && e.len() == 21);
    if a.is_suffix_of(voice) {
        assert(voice.subrange(n - 6, n) =~= voice.subrange(n - 23, n).subrange(17, 23));
        assert(a.subrange(17, 23) =~= f);
    } else if c.is_suffix_of(voice) {
        assert(voice.subrange(n - 6, n) =~= voice.subrange(n - 18, n).subrange(12, 18));
        assert(c.subrange(12, 18) =~= f);
    } else if d.is_suffix_of(voice) {
        assert(voice.subrange(n - 6, n) =~= voice.subrange(n - 26, n).subrange(20, 26));
        assert(d.subrange(20, 26) =~= f);
    } else if e.is_suffix_of(voice) {
        assert(voice.subrange(n - 6, n) =~= voice.subrange(n - 21, n).subrange(15, 21));
        assert(e.subrange(15, 21) =~= f);
    }
}

/// The names of what is billed.
pub proof fn law_names_of_scopes()
    ensures
        tts::scope_name(BillingScope::TurboMultilingualNeural) == "TurboMultilingualNeural"@,
        tts::scope_name(BillingScope::MultilingualNeuralHD) == "MultilingualNeuralHD"@,
        tts::scope_name(BillingScope::MultilingualNeural) == "MultilingualNeural"@,
        tts::scope_name(BillingScope::DragonHDFlashLatestNeural) == "DragonHDFlashLatestNeural"@,
        tts::scope_name(BillingScope::DragonHDLatestNeural) == "DragonHDLatestNeural"@,
        tts::scope_name(BillingScope::Neural) == "Neural"@,
{
}

/// Parameters are refused for their format first, then for the voice, then for the address.
pub proof fn law_refused_synthesis(params: tts::Params, format: AudioFormat)
    ensures
        ({
            let error = tts::plan_error(params, format);
            let voice = tts::chosen_voice(params);
            let host = params.host;
            &&& tts::output_format_error(format) is Some ==> error == tts::output_format_error(
                format,
            )
            &&& tts::output_format_error(format) is None ==> {
                &&& voice is None ==> error == Some(tts::no_default_voice())
                &&& voice is Some && tts::scope_of(voice->0) is None ==> error == Some(
                    tts::unknown_voice(voice->0),
                )
                &&& voice is Some && tts::scope_of(voice->0) is Some ==> {
                    &&& host is Some ==> (error is None <==> url_read(host->0@) is Ok)
                    &&& host is Some && url_read(host->0@) is Err ==> error == Some(
                        url_read(host->0@)->Err_0,
                    )
                    &&& host is None && params.region is Some ==> error is None
                    &&& host is None && params.region is None ==> error == Some(
                        "Neither host nor region is defined in params"@,
                    )
                }
            }
        }),
{
}

/// A host is addressed by its URL, and else a region by its name.
pub proof fn law_addresses(
    host: Option<Seq<char>>,
    region: Option<Seq<char>>,
    missing: Seq<char>,
    address: Address,
)
    ensures
        host matches Some(h) ==> (url_read(h) matches Ok(url) ==> addressed(host, region, missing)
            == Ok::<AddressView, Seq<char>>(AddressView::Url(url))),
        host matches Some(h) ==> (url_read(h) matches Err(cause) ==> addressed(
            host,
            region,
            missing,
        ) == Err::<AddressView, Seq<char>>(cause)),
        host is None ==> (region matches Some(r) ==> addressed(host, region, missing) == Ok::<
            AddressView,
            Seq<char>,
        >(AddressView::Region(r))),
        host is None && region is None ==> addressed(host, region, missing) == Err::<
            AddressView,
            Seq<char>,
        >(missing),
        address matches Address::Url(url) ==> address@ == AddressView::Url(url@),
        address matches Address::Region(r) ==> address@ == AddressView::Region(r@),
{
}

/// Synthesized audio is put out in the format of the output, two bytes for each sample with the low
/// one first.
pub proof fn law_synthesized_audio_is_put_out(
    bytes: Vec<u8>,
    format: AudioFormat,
    request_id: Option<Seq<char>>,
    scope: BillingScope,
)
    ensures
        ({
            let out = tts::event_out(tts::Event::Synthesising(bytes), format, request_id, scope);
            &&& out.len() == 1
            &&& out[0] is Audio
            &&& out[0]->Audio_0.format == format
            &&& bytes@.len() - 1 <= 2 * out[0]->Audio_0.samples.len() <= bytes@.len()
            &&& forall|i: int|
                0 <= i < out[0]->Audio_0.samples.len() ==> {
                    let code = bytes@[2 * i] as int + 256 * (bytes@[2 * i + 1] as int);
                    let sample = #[trigger] out[0]->Audio_0.samples[i];
                    sample == code || sample == code - 65536
                }
        }),
        tts::event_out(tts::Event::Other, format, request_id, scope).len() == 0,
{
    law_samples_of_bytes(bytes@);
}

/// Each end of a session is billed with the media, for the request and under what the voice is billed
/// as: the time that was synthesized, which the service counts in steps of 100 nanoseconds.
pub proof fn law_synthesized_time_is_billed(
    list: Vec<Metadata>,
    metadata: Seq<Metadata>,
    one: Metadata,
    format: AudioFormat,
    request_id: Option<Seq<char>>,
    scope: BillingScope,
)
    ensures
        tts::event_out(tts::Event::AudioMetadata(list), format, request_id, scope)
            == tts::metadata_bills(request_id, scope, list@),
        tts::metadata_bills(request_id, scope, Seq::empty()).len() == 0,
        one is Other ==> tts::metadata_bills(request_id, scope, metadata.push(one))
            == tts::metadata_bills(request_id, scope, metadata),
        one matches Metadata::SessionEnd { offset } ==> {
            let before = tts::metadata_bills(request_id, scope, metadata);
            let after = tts::metadata_bills(request_id, scope, metadata.push(one));
            let bill = after.last();
            &&& after.len() == before.len() + 1
            &&& after.drop_last() == before
            &&& bill is BillingRecords
            &&& bill->BillingRecords_request_id == request_id
            &&& bill->scope == Some(tts::scope_name(scope))
            &&& bill->schedule == BillingSchedule::Media
            &&& bill->records.len() == 1
            &&& bill->records[0].name == "audio:synthesized"@
            &&& bill->records[0].value is Duration
            &&& bill->records[0].value->Duration_0 == offset * 100
        },
{
    assert(metadata.push(one).drop_last() =~= metadata);
    if one is SessionEnd {
        let after = tts::metadata_bills(request_id, scope, metadata.push(one));
        assert(after.drop_last() =~= tts::metadata_bills(request_id, scope, metadata));
    }
}

/// A document holds the language, the voice and the text, each character as it is but for those with
/// a meaning in XML.
pub proof fn law_documents(
    language: Seq<char>,
    voice: Seq<char>,
    text: Seq<char>,
    c: char,
)
    ensures
        tts::ssml_document(language, voice, text)
            == "<speak version=\"1.0\" xmlns=\"http://www.w3.org/2001/10/synthesis\" xml:lang=\""@
            + tts::escaped(language)
            + "\" xmlns:mstts=\"http://www.w3.org/2001/mstts\"><voice name=\""@ + tts::escaped(voice)
            + "\">"@ + tts::escaped(text) + "</voice></speak>"@,
        tts::escaped(Seq::empty()).len() == 0,
        tts::escaped(text.push(c)) == tts::escaped(text) + if c == '"' {
            "&quot;"@
        } else if c == '\'' {
            "&apos;"@
        } else if c == '<' {
            "&lt;"@
        } else if c == '>' {
            "&gt;"@
        } else if c == '&' {
            "&amp;"@
        } else {
            seq![c]
        },
{
    let f = |c: char| tts::escaped_char(c);
    let none = Seq::<char>::empty();
    assert(none.map_values(f) =~= Seq::<Seq<char>>::empty());
    assert(text.push(c).map_values(f) =~= text.map_values(f).push(tts::escaped_char(c)));
    let parts = text.map_values(f);
    lemma_flatten_push(parts, tts::escaped_char(c));
}

proof fn lemma_flatten_push(parts: Seq<Seq<char>>, last: Seq<char>)
    ensures
        parts.push(last).flatten() == parts.flatten() + last,
    decreases parts.len(),
{
    if parts.len() == 0 {
        let none = Seq::<Seq<char>>::empty();
        assert(none.flatten() =~= Seq::<char>::empty());
        assert(parts =~= none);
        assert(parts.push(last).drop_first() =~= none);
        assert(parts.push(last).first() == last);
        assert(parts.push(last).flatten() =~= parts.flatten() + last);
    } else {
        lemma_flatten_push(parts.drop_first(), last);
        assert(parts.push(last).drop_first() =~= parts.drop_first().push(last));
        assert(parts.push(last).first() == parts.first());
        assert(parts.flatten() == parts.first() + parts.drop_first().flatten());
        assert(parts.push(last).flatten() == parts.first() + parts.push(
            last,
        ).drop_first().flatten());
        assert(parts.push(last).flatten() =~= parts.flatten() + last);
    }
}

/// What is being recognized is put out as a text that is not final, and what was recognized as a
/// final one.
pub proof fn law_recognized_texts_are_put_out(text: String, event: stt::Event)
    ensures
        ({
            let out = stt::event_out(stt::Event::Recognizing { text });
            out.len() == 1 && out[0] is Text && out[0]->is_final == false && out[0]->text == text@
                && out[0]->language is None && out[0]->speaker is None
        }),
        ({
            let out = stt::event_out(stt::Event::Recognized { text });
            out.len() == 1 && out[0] is Text && out[0]->is_final == true && out[0]->text == text@
                && out[0]->language is None && out[0]->speaker is None
        }),
        !(event is Recognizing) && !(event is Recognized) ==> stt::event_out(event).len() == 0,
{
}

/// Translations are put out if interim texts are asked for: as a text that is not final while they
/// grow, and as a final one in the end. What is spoken of them is put out in any case, as one channel
/// of 16000 samples per second.
pub proof fn law_translations_are_put_out(
    text: String,
    samples: Vec<i16>,
    outputs: OutputModalities,
    event: translate::Event,
)
    ensures
        ({
            let a = translate::event_out(translate::Event::Translating { text }, outputs);
            let b = translate::event_out(translate::Event::Translated { text }, outputs);
            &&& !outputs.interim_text ==> a.len() == 0 && b.len() == 0
            &&& outputs.interim_text ==> {
                &&& a.len() == 1 && a[0] is Text && a[0]->is_final == false && a[0]->text == text@
                &&& a[0]->language is None && a[0]->speaker is None
                &&& b.len() == 1 && b[0] is Text && b[0]->is_final == true && b[0]->text == text@
                &&& b[0]->language is None && b[0]->speaker is None
            }
        }),
        ({
            let out = translate::event_out(
                translate::Event::TranslationSynthesis { samples },
                outputs,
            );
            &&& out.len() == 1
            &&& out[0] is Audio
            &&& out[0]->Audio_0.samples == samples@
            &&& out[0]->Audio_0.format.channels == 1
            &&& out[0]->Audio_0.format.sample_rate == 16000
        }),
        event is SessionStarted || event is SessionEnded || event is StartDetected
            || event is EndDetected || event is NoMatch ==> translate::event_out(
            event,
            outputs,
        ).len() == 0,
        translate::translated_format().channels == 1,
        translate::translated_format().sample_rate == 16000,
{
}

/// Each kind of output can be asked for once, in any order. Interim texts need texts, and something
/// has to be asked for.
pub proof fn law_translated_outputs(
    modalities: Seq<OutputModality>,
    modality: OutputModality,
    outputs: OutputModalities,
)
    ensures
        translate::collected(Seq::empty()) == Ok::<OutputModalities, Seq<char>>(
            OutputModalities { text: false, interim_text: false, audio: None },
        ),
        translate::collected(modalities) is Err ==> translate::collected(modalities.push(modality))
            == translate::collected(modalities),
        translate::collected(modalities) matches Ok(before) ==> {
            let after = translate::collected(modalities.push(modality));
            match modality {
                OutputModality::Audio { format } => {
                    &&& before.audio is Some ==> after == Err::<OutputModalities, Seq<char>>(
                        "At most one audio output is supported"@,
                    )
                    &&& before.audio is None ==> after is Ok && after->Ok_0.audio == Some(format)
                        && after->Ok_0.text == before.text && after->Ok_0.interim_text
                        == before.interim_text
                },
                OutputModality::Text => {
                    &&& before.text ==> after == Err::<OutputModalities, Seq<char>>(
                        "at most one text output is supported"@,
                    )
                    &&& !before.text ==> after is Ok && after->Ok_0.text && after->Ok_0.audio
                        == before.audio && after->Ok_0.interim_text == before.interim_text
                },
                OutputModality::InterimText => {
                    &&& before.interim_text ==> after == Err::<OutputModalities, Seq<char>>(
                        "At most one interim text modality is supported"@,
                    )
                    &&& !before.interim_text ==> after is Ok && after->Ok_0.interim_text
                        && after->Ok_0.audio == before.audio && after->Ok_0.text == before.text
                },
            }
        },
        translate::combination_error(outputs) is None <==> outputs.text || (!outputs.interim_text
            && outputs.audio is Some),
        outputs.interim_text && !outputs.text ==> translate::combination_error(outputs) == Some(
            "OutputModalities: InterimText requested without Text in output modalities"@,
        ),
        !outputs.interim_text && !outputs.text && outputs.audio is None
            ==> translate::combination_error(outputs) == Some(
            "At least Text or Audio must be requested in output modalities"@,
        ),
        translate::collected(modalities) matches Ok(o) ==> match translate::combination_error(o) {
            None => translate::accepted(modalities) == Ok::<OutputModalities, Seq<char>>(o),
            Some(message) => translate::accepted(modalities) == Err::<OutputModalities, Seq<char>>(
                message,
            ),
        },
        translate::collected(modalities) matches Err(message) ==> translate::accepted(modalities)
            == Err::<OutputModalities, Seq<char>>(message),
{
    assert(modalities.push(modality).drop_last() =~= modalities);
}

/// Parameters of a translation are refused for their outputs first, then for the format of the audio,
/// then for the address.
pub proof fn law_refused_translations(
    params: translate::Params,
    modalities: Seq<OutputModality>,
)
    ensures
        ({
            let error = translate::plan_error(params, modalities);
            match translate::accepted(modalities) {
                Err(message) => error == Some(message),
                Ok(outputs) => {
                    let other = outputs.audio is Some && !(outputs.audio->0.channels == 1
                        && outputs.audio->0.sample_rate == 16000);
                    &&& other ==> error == Some(
                        "Only "@ + format_text(AudioFormat { channels: 1, sample_rate: 16000 })
                            + " is supported, but output modalities contains "@ + format_text(
                            outputs.audio->0,
                        ),
                    )
                    &&& !other && params.host is Some ==> (error is None <==> url_read(
                        params.host->0@,
                    ) is Ok)
                    &&& !other && params.host is Some && url_read(params.host->0@) is Err ==> error
                        == Some(url_read(params.host->0@)->Err_0)
                    &&& !other && params.host is None && params.region is Some ==> error is None
                    &&& !other && params.host is None && params.region is None ==> error == Some(
                        "Neither host nor region defined in params"@,
                    )
                },
            }
        }),
{
}

/// The number that four bytes make, the low one first.
pub open spec fn number_at(bytes: Seq<u8>, i: int) -> int {
    bytes[i] + 256 * (bytes[i + 1] as int) + 65536 * (bytes[i + 2] as int) + 16777216 * (bytes[i
        + 3] as int)
}

/// The header of audio with one or two channels: raw samples of 16 bits, with the channels, the
/// samples per second and the bytes per second of the format, in data without an end.
pub proof fn law_headers(format: AudioFormat)
    requires
        1 <= format.channels <= 2,
        format.sample_rate * 2 * format.channels <= u32::MAX,
    ensures
        ({
            let h = wav_header(format);
            &&& h.len() == 44
            &&& h[0] == 'R' as u8 && h[1] == 'I' as u8 && h[2] == 'F' as u8 && h[3] == 'F' as u8
            &&& number_at(h, 4) == 0xffff_ffff
            &&& h[8] == 'W' as u8 && h[9] == 'A' as u8 && h[10] == 'V' as u8 && h[11] == 'E' as u8
            &&& h[12] == 'f' as u8 && h[13] == 'm' as u8 && h[14] == 't' as u8 && h[15] == ' ' as u8
            &&& number_at(h, 16) == 16
            &&& h[20] == 1 && h[21] == 0
            &&& h[22] == format.channels && h[23] == 0
            &&& number_at(h, 24) == format.sample_rate
            &&& number_at(h, 28) == format.sample_rate * 2 * format.channels
            &&& h[32] == 2 * format.channels && h[33] == 0
            &&& h[34] == 16 && h[35] == 0
            &&& h[36] == 'd' as u8 && h[37] == 'a' as u8 && h[38] == 't' as u8 && h[39] == 'a' as u8
            &&& number_at(h, 40) == 0xffff_ffff
        }),
{
    lemma_number(format.sample_rate as int);
    lemma_number(format.sample_rate * 2 * format.channels);
    lemma_number(0xffff_ffff);
    lemma_number(16);
}

proof fn lemma_number(n: int)
    requires
        0 <= n <= 0xffff_ffff,
    ensures
        crate::azure::wav::le32(n).len() == 4,
        number_at(crate::azure::wav::le32(n), 0) == n,
{
    let l = n % 65536;
    let h = n / 65536;
    assert(l % 256 + 256 * (l / 256 % 256) == l);
    assert(h % 256 + 256 * (h / 256 % 256) == h);
}

/// A synthesis is planned at the rate that was asked for, with the voice that was asked for, billed as
/// that voice is. The service finds out no language itself and reports the end of each session.
pub proof fn law_planned_synthesis(
    params: tts::Params,
    format: AudioFormat,
    r: Result<tts::SynthesisPlan, Error>,
)
    requires
        call_ensures(tts::AzureSynthesize::plan, (&tts::AzureSynthesize, params, format), r),
    ensures
        r matches Ok(plan) ==> {
            &&& samples_per_second(plan.format) == format.sample_rate
            &&& format.channels == 1
            &&& params.voice is Some ==> plan.voice@ == params.voice->0@
            &&& plan.language@ == params.language@
            &&& tts::scope_of(plan.voice@) == Some(plan.billing_scope)
            &&& plan.host.subscription_key@ == params.subscription_key@
            &&& params.host is None ==> params.region is Some && plan.host.address is Region
                && plan.host.address->Region_0@ == params.region->0@
            &&& params.host is Some ==> plan.host.address is Url && Ok::<Seq<char>, Seq<char>>(
                plan.host.address->Url_0@,
            ) == url_read(params.host->0@)
            &&& plan.auto_detect_language == false
            &&& plan.session_end == true
        },
        r is Err ==> r->Err_0@.len() == 1,
        r is Err ==> format.channels != 1 || tts::raw_format(format.sample_rate) is None
            || tts::chosen_voice(params) is None || tts::scope_of(tts::chosen_voice(params)->0)
            is None || (params.host is None && params.region is None) || (params.host is Some
            && url_read(params.host->0@) is Err),
{
    law_synthesized_rates(format);
    law_refused_synthesis(params, format);
}

/// A text becomes a request for its words, in the language and the voice of the plan. Any other input
/// is refused, and at the end of the input there is no request.
pub proof fn law_synthesis_requests(
    plan: tts::SynthesisPlan,
    input: Option<Input<()>>,
    r: Result<Option<tts::ActiveRequest>, Error>,
)
    requires
        call_ensures(
            tts::AzureSynthesize::conversation,
            (&tts::AzureSynthesize, &plan, input),
            r,
        ),
    ensures
        input is None ==> r is Ok && r->Ok_0 is None,
        input matches Some(Input::Text { request_id, text, .. }) ==> {
            &&& r is Ok && r->Ok_0 is Some
            &&& r->Ok_0->0.request.text@ == text@
            &&& r->Ok_0->0.request.language@ == plan.language@
            &&& r->Ok_0->0.request.voice@ == plan.voice@
            &&& r->Ok_0->0.request_id is Some <==> request_id is Some
            &&& request_id is Some ==> r->Ok_0->0.request_id->0@ == request_id->0@
        },
        input is Some && !(input->0 is Text) ==> r is Err && r->Err_0@ == seq!["Unexpected input"@],
{
}

/// The events of a synthesis are put out until it ends; then the request is complete. An error ends
/// the conversation.
pub proof fn law_synthesis_events(
    plan: tts::SynthesisPlan,
    request_id: Option<String>,
    event: Option<Result<tts::Event, Error>>,
    format: AudioFormat,
    out: &mut Vec<Emission<()>>,
    r: Result<bool, Error>,
)
    requires
        call_ensures(
            tts::AzureSynthesize::process_event,
            (&tts::AzureSynthesize, &plan, &request_id, event, format, out),
            r,
        ),
    ensures
        event is None ==> {
            let o = emissions(final(out)@);
            let n = old(out)@.len() as int;
            &&& r == Ok::<bool, Error>(false)
            &&& o.len() == n + 1
            &&& o.take(n) == emissions(old(out)@)
            &&& o[n] is RequestCompleted
            &&& o[n]->RequestCompleted_request_id is Some <==> request_id is Some
            &&& request_id is Some ==> o[n]->RequestCompleted_request_id->0 == request_id->0@
        },
        event matches Some(Ok(tts::Event::Synthesising(bytes))) ==> {
            let o = emissions(final(out)@);
            let n = old(out)@.len() as int;
            &&& r == Ok::<bool, Error>(true)
            &&& o.len() == n + 1
            &&& o.take(n) == emissions(old(out)@)
            &&& o[n] is Audio
            &&& o[n]->Audio_0.format == format
            &&& bytes@.len() - 1 <= 2 * o[n]->Audio_0.samples.len() <= bytes@.len()
        },
        event matches Some(Err(error)) ==> r is Err && r->Err_0@ == seq![
            "Azure synthesizer event error"@,
        ] + error@ && final(out)@ == old(out)@,
{
    let n = old(out)@.len() as int;
    assert(emissions(old(out)@).len() == n);
    if event is None {
        assert(emissions(final(out)@).take(n) =~= emissions(old(out)@));
    }
    if let Some(Ok(tts::Event::Synthesising(bytes))) = event {
        law_samples_of_bytes(bytes@);
        assert(emissions(final(out)@).take(n) =~= emissions(old(out)@));
    }
}

/// A transcription is planned in the language that was asked for. Profanity is left as it is, and the
/// service tells all that it recognized.
pub proof fn law_planned_transcriptions(
    params: stt::Params,
    format: AudioFormat,
    r: Result<stt::TranscribePlan, Error>,
)
    requires
        call_ensures(stt::AzureTranscribe::plan, (&stt::AzureTranscribe, params, format), r),
    ensures
        r matches Ok(plan) ==> {
            &&& plan.language@ == params.language@
            &&& plan.profanity == stt::Profanity::Raw
            &&& plan.output_detail == stt::OutputDetail::Detailed
            &&& plan.speech_gate == params.speech_gate
            &&& plan.wav_header@ == wav_header(format)
            &&& plan.host.subscription_key@ == params.subscription_key@
            &&& params.host is None ==> plan.host.address is Region && params.region is Some
                && plan.host.address->Region_0@ == params.region->0@
            &&& params.host is Some ==> plan.host.address is Url && Ok::<Seq<char>, Seq<char>>(
                plan.host.address->Url_0@,
            ) == url_read(params.host->0@)
        },
        r is Ok <==> (params.host is Some && url_read(params.host->0@) is Ok) || (params.host is None
            && params.region is Some),
        params.host is None && params.region is None ==> r is Err && r->Err_0@ == seq![
            "Neither host nor region defined in params"@,
        ],
{
}

/// Audio is sent as it comes, two bytes for each sample with the low one first, and the time that it
/// takes is billed now. Anything else ends the audio.
pub proof fn law_sent_audio_is_billed(
    input: Option<Input<()>>,
    out: &mut Vec<Emission<()>>,
    r: Option<Vec<u8>>,
)
    requires
        input matches Some(Input::Audio { frame }) ==> frame.format.valid() && frame.samples@.len()
            <= usize::MAX,
        call_ensures(stt::AzureTranscribe::send_audio, (&stt::AzureTranscribe, input, out), r),
    ensures
        !(input matches Some(Input::Audio { .. })) ==> r is None && final(out)@ == old(out)@,
        input matches Some(Input::Audio { frame }) ==> {
            let o = emissions(final(out)@);
            let n = old(out)@.len() as int;
            let per_second = frame.format.channels * frame.format.sample_rate;
            &&& r is Some
            &&& r->0@.len() == 2 * frame.samples@.len()
            &&& forall|i: int|
                0 <= i < frame.samples@.len() ==> {
                    let code = r->0@[2 * i] as int + 256 * (r->0@[2 * i + 1] as int);
                    let sample = #[trigger] frame.samples@[i];
                    code == sample || code == sample + 65536
                }
            &&& o.len() == n + 1
            &&& o.take(n) == emissions(old(out)@)
            &&& o[n] is BillingRecords
            &&& o[n]->BillingRecords_request_id is None
            &&& o[n]->scope is None
            &&& o[n]->schedule == BillingSchedule::Now
            &&& o[n]->records.len() == 1
            &&& o[n]->records[0].name == "input:audio"@
            &&& o[n]->records[0].value is Duration
            &&& o[n]->records[0].value->Duration_0 * per_second <= frame.samples@.len()
                * 1_000_000_000
            &&& frame.samples@.len() * 1_000_000_000 < (o[n]->records[0].value->Duration_0 + 1)
                * per_second
        },
{
    let n = old(out)@.len() as int;
    assert(emissions(old(out)@).len() == n);
    if let Some(Input::Audio { frame }) = input {
        assert(frame@.samples == frame.samples@);
        law_bytes_of_samples(frame.samples@);
        lemma_duration_fits(frame.format, frame.samples@.len());
        assert(emissions(final(out)@).take(n) =~= emissions(old(out)@));
    }
}

/// A translation is planned between the languages that were asked for, and spoken if audio is asked
/// for.
pub proof fn law_planned_translations(
    params: translate::Params,
    format: AudioFormat,
    modalities: Vec<OutputModality>,
    r: Result<translate::TranslatePlan, Error>,
)
    requires
        call_ensures(
            translate::AzureTranslate::plan,
            (&translate::AzureTranslate, params, format, &modalities),
            r,
        ),
    ensures
        r matches Ok(plan) ==> {
            &&& plan.recognition_language@ == params.recognition_language@
            &&& plan.target_language@ == params.target_language@
            &&& plan.profanity == stt::Profanity::Raw
            &&& plan.output_detail == stt::OutputDetail::Detailed
            &&& plan.synthesize == (plan.outputs.audio is Some)
            &&& translate::accepted(modalities@) == Ok::<OutputModalities, Seq<char>>(plan.outputs)
            &&& plan.wav_header@ == wav_header(format)
            &&& plan.host.subscription_key@ == params.subscription_key@
            &&& params.host is None ==> plan.host.address is Region && params.region is Some
                && plan.host.address->Region_0@ == params.region->0@
        },
        r matches Err(e) ==> e@.len() == 1 && translate::plan_error(params, modalities@) == Some(
            e@[0],
        ),
{
    law_refused_translations(params, modalities@);
}

/// Audio to translate is sent as it comes, two bytes for each sample with the low one first. Anything
/// else ends the audio.
pub proof fn law_sent_audio(input: Option<Input<()>>, r: Option<Vec<u8>>)
    requires
        call_ensures(
            translate::AzureTranslate::send_audio,
            (&translate::AzureTranslate, input),
            r,
        ),
    ensures
        !(input matches Some(Input::Audio { .. })) ==> r is None,
        input matches Some(Input::Audio { frame }) ==> {
            &&& r is Some
            &&& r->0@.len() == 2 * frame.samples@.len()
            &&& forall|i: int|
                0 <= i < frame.samples@.len() ==> {
                    let code = r->0@[2 * i] as int + 256 * (r->0@[2 * i + 1] as int);
                    let sample = #[trigger] frame.samples@[i];
                    code == sample || code == sample + 65536
                }
        },
{
    if let Some(Input::Audio { frame }) = input {
        assert(frame@.samples == frame.samples@);
        law_bytes_of_samples(frame.samples@);
    }
}

/// A host is addressed by the URL that was read, or by its region, with the key that goes with it.
pub proof fn law_hosts(
    read: Result<String, String>,
    region: String,
    key: String,
    a: Result<Host, Error>,
    b: Host,
)
    requires
        call_ensures(Host::from_read, (read, key), a),
        call_ensures(Host::from_subscription, (region, key), b),
    ensures
        read matches Ok(url) ==> a is Ok && a->Ok_0.address is Url && a->Ok_0.address->Url_0@ == url@
            && a->Ok_0.subscription_key@ == key@,
        read matches Err(cause) ==> a is Err && a->Err_0@ == seq![cause@],
        b.address is Region && b.address->Region_0@ == region@ && b.subscription_key@ == key@,
{
}

/// The format of the synthesis has as many samples per second as the format of the output, which has
/// one channel.
pub proof fn law_imported_formats(format: AudioFormat, r: Result<OutputFormat, Error>)
    requires
        call_ensures(tts::import_output_audio_format, (format,), r),
    ensures
        ({
            let rate = format.sample_rate;
            let supported = rate == 8000 || rate == 16000 || rate == 22050 || rate == 24000 || rate
                == 44100 || rate == 48000;
            &&& r is Ok <==> format.channels == 1 && supported
            &&& r is Ok ==> samples_per_second(r->Ok_0) == rate
            &&& format.channels != 1 ==> r is Err && r->Err_0@ == seq!["Only mono supported"@]
            &&& format.channels == 1 && !supported ==> r is Err && r->Err_0@ == seq![
                "Unsupported sample rate: "@ + decimal(rate as nat)
                    + ". Supported rates are: 8000, 16000, 22050, 24000, 44100, 48000 Hz"@,
            ]
        }),
{
}

/// The default voice of a language speaks it, and what a voice is billed under is told by how its name
/// ends.
pub proof fn law_resolved_voices(
    language: &str,
    voice: Result<&'static str, Error>,
    name: &str,
    scope: Result<BillingScope, Error>,
    any: BillingScope,
    text: String,
)
    requires
        call_ensures(tts::resolve_default_voice, (language,), voice),
        call_ensures(tts::voice_to_billing_scope, (name,), scope),
        call_ensures(BillingScope::to_string, (&any,), text),
    ensures
        voice is Ok <==> language@ == "en-US"@ || language@ == "en-GB"@ || language@ == "de-DE"@,
        voice is Ok ==> language@.is_prefix_of(voice->Ok_0@),
        language@ == "en-US"@ ==> voice->Ok_0@ == "en-US-JennyNeural"@,
        language@ == "en-GB"@ ==> voice->Ok_0@ == "en-GB-LibbyNeural"@,
        language@ == "de-DE"@ ==> voice->Ok_0@ == "de-DE-KatjaNeural"@,
        scope is Ok <==> "Neural"@.is_suffix_of(name@) || "MultilingualNeuralHD"@.is_suffix_of(
            name@,
        ),
        scope is Ok ==> tts::scope_name(scope->Ok_0).is_suffix_of(name@),
        scope is Err ==> scope->Err_0@ == seq![
            "Unknown voice format: "@ + name@ + ". Cannot determine billing scope."@,
        ],
        scope is Ok && scope->Ok_0 is Neural ==> !"MultilingualNeural"@.is_suffix_of(name@)
            && !":DragonHDLatestNeural"@.is_suffix_of(name@)
            && !":DragonHDFlashLatestNeural"@.is_suffix_of(name@),
        scope is Ok && scope->Ok_0 is MultilingualNeural
            ==> !"TurboMultilingualNeural"@.is_suffix_of(name@),
        text@ == tts::scope_name(any),
{
    law_voices(arbitrary(), language@);
    law_scopes_of_voices(name@, name@);
    lemma_longer_ends(name@);
    let flash = ":DragonHDFlashLatestNeural"@;
    let dragon = ":DragonHDLatestNeural"@;
    reveal_strlit(":DragonHDFlashLatestNeural");
    reveal_strlit("DragonHDFlashLatestNeural");
    reveal_strlit(":DragonHDLatestNeural");
    reveal_strlit("DragonHDLatestNeural");
    assert("DragonHDFlashLatestNeural"@ =~= flash.drop_first());
    assert("DragonHDLatestNeural"@ =~= dragon.drop_first());
    let n = name@.len() as int;
    if flash.is_suffix_of(name@) {
        assert(name@.subrange(n - flash.len() + 1, n) =~= name@.subrange(
            n - flash.len(),
            n,
        ).drop_first());
    }
    if dragon.is_suffix_of(name@) {
        assert(name@.subrange(n - dragon.len() + 1, n) =~= name@.subrange(
            n - dragon.len(),
            n,
        ).drop_first());
    }
}

/// The document of a request names its language and its voice and holds its text.
pub proof fn law_written_documents(
    request: tts::AzureSynthesizeRequest,
    r: Result<String, Error>,
)
    requires
        call_ensures(tts::AzureSynthesizeRequest::to_ssml, (&request,), r),
    ensures
        r is Ok,
        r->Ok_0@
            == "<speak version=\"1.0\" xmlns=\"http://www.w3.org/2001/10/synthesis\" xml:lang=\""@
            + tts::escaped(request.language@)
            + "\" xmlns:mstts=\"http://www.w3.org/2001/mstts\"><voice name=\""@ + tts::escaped(
            request.voice@,
        ) + "\">"@ + tts::escaped(request.text@) + "</voice></speak>"@,
{
}

/// Recognized texts are put out as they are, and so are translations where texts that are not final
/// were asked for. Translated speech is put out always.
pub proof fn law_events_of_conversations(
    heard: stt::Event,
    a: &mut Vec<Emission<()>>,
    translated: translate::Event,
    outputs: OutputModalities,
    b: &mut Vec<Emission<()>>,
)
    requires
        call_ensures(stt::AzureTranscribe::conversation, (&stt::AzureTranscribe, heard, a), ()),
        call_ensures(
            translate::AzureTranslate::conversation,
            (&translate::AzureTranslate, translated, &outputs, b),
            (),
        ),
    ensures
        ({
            let o = emissions(final(a)@);
            let n = old(a)@.len() as int;
            &&& n <= o.len() && o.take(n) == emissions(old(a)@)
            &&& heard matches stt::Event::Recognizing { text } ==> o.len() == n + 1 && o[n] is Text
                && !o[n]->is_final && o[n]->text == text@ && o[n]->speaker is None
                && o[n]->language is None
            &&& heard matches stt::Event::Recognized { text } ==> o.len() == n + 1 && o[n] is Text
                && o[n]->is_final && o[n]->text == text@ && o[n]->speaker is None
                && o[n]->language is None
            &&& !(heard is Recognizing) && !(heard is Recognized) ==> o.len() == n
        }),
        ({
            let o = emissions(final(b)@);
            let n = old(b)@.len() as int;
            &&& n <= o.len() && o.take(n) == emissions(old(b)@)
            &&& translated matches translate::Event::Translating { text } ==> {
                &&& !outputs.interim_text ==> o.len() == n
                &&& outputs.interim_text ==> o.len() == n + 1 && o[n] is Text && !o[n]->is_final
                    && o[n]->text == text@ && o[n]->speaker is None && o[n]->language is None
            }
            &&& translated matches translate::Event::Translated { text } ==> {
                &&& !outputs.interim_text ==> o.len() == n
                &&& outputs.interim_text ==> o.len() == n + 1 && o[n] is Text && o[n]->is_final
                    && o[n]->text == text@ && o[n]->speaker is None && o[n]->language is None
            }
            &&& translated matches translate::Event::TranslationSynthesis { samples } ==> o.len()
                == n + 1 && o[n] is Audio && o[n]->Audio_0.samples == samples@
                && o[n]->Audio_0.format == (AudioFormat { channels: 1, sample_rate: 16000 })
            &&& !(translated is Translating) && !(translated is Translated) && !(translated
                is TranslationSynthesis) ==> o.len() == n
        }),
{
    let p = emissions(old(a)@);
    let q = emissions(old(b)@);
    assert(p.len() == old(a)@.len());
    assert(q.len() == old(b)@.len());
    assert((p + stt::event_out(heard)).take(p.len() as int) =~= p);
    assert((q + translate::event_out(translated, outputs)).take(q.len() as int) =~= q);
}

/// The outputs of a translation are those that are asked for, each at most once, and texts that are not
/// final come only with texts that are.
pub proof fn law_asked_outputs(
    modalities: Vec<OutputModality>,
    r: Result<OutputModalities, Error>,
    outputs: OutputModalities,
    checked: Result<(), Error>,
)
    requires
        call_ensures(OutputModalities::from_modalities, (&modalities,), r),
        call_ensures(OutputModalities::validate, (&outputs,), checked),
    ensures
        r matches Ok(o) ==> {
            &&& o.text <==> modalities@.contains(OutputModality::Text)
            &&& o.interim_text <==> modalities@.contains(OutputModality::InterimText)
            &&& o.audio matches Some(format) ==> modalities@.contains(
                OutputModality::Audio { format },
            )
            &&& o.audio is None ==> forall|i: int|
                0 <= i < modalities@.len() ==> !((#[trigger] modalities@[i]) is Audio)
            &&& o.text || o.audio is Some
            &&& o.interim_text ==> o.text
            &&& modalities@.len() == (if o.text {
                1int
            } else {
                0
            }) + (if o.interim_text {
                1int
            } else {
                0
            }) + (if o.audio is Some {
                1int
            } else {
                0
            })
        },
        r is Err ==> r->Err_0@.len() == 1,
        checked is Ok <==> outputs.text || (!outputs.interim_text && outputs.audio is Some),
        outputs.interim_text && !outputs.text ==> checked->Err_0@ == seq![
            "OutputModalities: InterimText requested without Text in output modalities"@,
        ],
        !outputs.interim_text && !outputs.text && outputs.audio is None ==> checked->Err_0@ == seq![
            "At least Text or Audio must be requested in output modalities"@,
        ],
{
    lemma_collected_outputs(modalities@);
}

/// Outputs are collected from the modalities that name them.
proof fn lemma_collected_outputs(modalities: Seq<OutputModality>)
    ensures
        translate::collected(modalities) matches Ok(o) ==> {
            &&& o.text <==> modalities.contains(OutputModality::Text)
            &&& o.interim_text <==> modalities.contains(OutputModality::InterimText)
            &&& o.audio matches Some(format) ==> modalities.contains(
                OutputModality::Audio { format },
            )
            &&& o.audio is None ==> forall|i: int|
                0 <= i < modalities.len() ==> !((#[trigger] modalities[i]) is Audio)
            &&& modalities.len() == (if o.text {
                1int
            } else {
                0
            }) + (if o.interim_text {
                1int
            } else {
                0
            }) + (if o.audio is Some {
                1int
            } else {
                0
            })
        },
    decreases modalities.len(),
{
    if modalities.len() > 0 {
        let before = modalities.drop_last();
        let last = modalities.last();
        lemma_collected_outputs(before);
        assert(modalities =~= before.push(last));
        assert forall|m: OutputModality| #[trigger] modalities.contains(m) <==> before.contains(m)
            || m == last by {
            if before.contains(m) {
                let i = before.index_of(m);
                assert(modalities[i] == m);
            }
            if m == last {
                assert(modalities[modalities.len() - 1] == m);
            }
            if modalities.contains(m) && m != last {
                let i = modalities.index_of(m);
                assert(before[i] == m);
            }
        }
        if let Ok(o) = translate::collected(modalities) {
            if o.audio is None {
                assert forall|i: int| 0 <= i < modalities.len() implies !((
                #[trigger] modalities[i]) is Audio) by {
                    if i < before.len() {
                        assert(before[i] == modalities[i]);
                    }
                }
            }
        }
    }
}

} // verus!

//! What holds of synthesis and transcription, event by event.

use vstd::prelude::*;

use crate::audio::law_bytes_of_samples;
use crate::audio::law_samples_of_bytes;
use crate::audio::AudioFormat;
use crate::audio::AudioFrame;
use crate::base64_codec::base64_bytes;
use crate::base64_codec::base64_error;
use crate::base64_codec::base64_text;
use crate::base64_codec::is_base64;
use crate::base64_codec::law_base64_round_trip;
use crate::elevenlabs::synthesize as tts;
use crate::elevenlabs::transcribe as stt;
use crate::elevenlabs::synthesis_state::ContextView;
use crate::elevenlabs::synthesis_state::Phase;
use crate::elevenlabs::synthesis_state::PhaseView;
use crate::elevenlabs::synthesis_state::SynthesisState;
use crate::elevenlabs::synthesis_state::SynthesisView;
use crate::elevenlabs::synthesize::GenerationConfig;
use crate::elevenlabs::synthesize::LoopControl;
use crate::elevenlabs::synthesize::SynthesisEvent;
use crate::elevenlabs::synthesize::TextNormalization;
use crate::elevenlabs::synthesize::VoiceSettings;
use crate::elevenlabs::transcribe::ConversationLoopConfig;
use crate::elevenlabs::transcribe::LoopState;
use crate::elevenlabs::transcribe::LoopView;
use crate::elevenlabs::transcribe::RealtimeEnvelope;
use crate::elevenlabs::transcribe::TranscribeEvent;
use crate::error::Error;
use crate::input::Input;
use crate::input::SocketMessage;
use crate::json::json_string_member;
use crate::json::json_text;
use crate::output::emissions;
use crate::output::BillingSchedule;
use crate::output::BillingValue;
use crate::output::Emission;
use crate::text::decimal;
use crate::text::digits_value;
use crate::text::is_without_trailing_space;
use crate::text::law_decimal_text;
use crate::text::law_trimming_the_end;
use crate::urls::url_read;
use crate::urls::url_with_pairs;
use crate::urls::url_with_segments;

verus! {

/// Each fragment of a text is sent to the context of its request, with one space at its end in place
/// of the white space there, and its characters are billed now. The first one opens a context with
/// the next number. The last one is followed by a flush and the end of the context. A fragment of
/// another request is refused before the last one.
pub proof fn law_fragments_are_sent(
    state: SynthesisView,
    request_id: Option<String>,
    text: String,
    text_type: Option<String>,
    is_final: bool,
    format: AudioFormat,
    settings: Option<VoiceSettings>,
    schedule: Option<Option<Seq<u32>>>,
)
    requires
        state.phase is Accepting || state.phase is Synthesizing,
    ensures
        ({
            let event = SynthesisEvent::Input(
                Some(Input::Text { request_id, text, text_type, is_final }),
            );
            let h = tts::handled(state, event, format, settings, schedule);
            let opens = state.phase is Accepting;
            let live = state.phase->Synthesizing_0;
            let refused = !opens && request_id is Some && (live.request_id is None
                || live.request_id->0 != request_id->0@);
            let id = h.sent[0]->Text_context_id;
            let sent_text = h.sent[0]->Text_text;
            &&& refused ==> {
                &&& h.state == state && h.sent.len() == 0 && h.out.len() == 0
                &&& h.result == Err::<LoopControl, Seq<Seq<char>>>(
                    seq!["ElevenLabs synthesize request id changed within a text sequence"@],
                )
            }
            &&& !refused ==> {
                &&& h.result == Ok::<LoopControl, Seq<Seq<char>>>(LoopControl::Continue)
                &&& h.sent.len() == if is_final {
                    3int
                } else {
                    1int
                }
                &&& h.sent[0] is Text
                &&& sent_text.len() > 0 && sent_text.last() == ' '
                &&& is_without_trailing_space(sent_text.drop_last(), text@)
                &&& opens ==> digits_value(id) == state.opened + 1
                &&& opens ==> h.sent[0]->Text_voice_settings == settings
                &&& opens ==> h.sent[0]->schedule == schedule
                &&& !opens ==> id == live.id
                &&& !opens ==> h.sent[0]->Text_voice_settings is None
                &&& !opens ==> h.sent[0]->schedule is None
                &&& is_final ==> h.sent[1] is Flush && h.sent[1]->Flush_context_id == id
                &&& is_final ==> h.sent[2] is CloseContext && h.sent[2]->CloseContext_context_id
                    == id
                &&& h.out.len() == 1
                &&& h.out[0] is BillingRecords
                &&& h.out[0]->schedule == BillingSchedule::Now
                &&& h.out[0]->scope is None
                &&& h.out[0]->records.len() == 1
                &&& h.out[0]->records[0].name == "output:characters"@
                &&& h.out[0]->records[0].value == BillingValue::Count(text@.len() as u64)
                &&& opens ==> (h.out[0]->BillingRecords_request_id is Some
                    <==> request_id is Some)
                &&& opens && request_id is Some ==> h.out[0]->BillingRecords_request_id->0
                    == request_id->0@
                &&& !opens ==> h.out[0]->BillingRecords_request_id == live.request_id
                &&& is_final ==> h.state.phase is Draining
                &&& !is_final ==> h.state.phase is Synthesizing
                &&& is_final ==> h.state.phase->Draining_0.id == id
                &&& !is_final ==> h.state.phase->Synthesizing_0.id == id
                &&& h.state.opened == if opens {
                    state.opened + 1
                } else {
                    state.opened
                }
                &&& is_final ==> h.state.phase->Draining_0.request_id
                    == h.out[0]->BillingRecords_request_id
                &&& !is_final ==> h.state.phase->Synthesizing_0.request_id
                    == h.out[0]->BillingRecords_request_id
            }
        }),
{
    reveal_strlit(" ");
    law_trimming_the_end(text@);
    law_decimal_text(state.opened + 1);
    let trimmed = crate::text::trimmed_end(text@);
    assert((trimmed + " "@).drop_last() =~= trimmed);
    assert((trimmed + " "@).last() == ' ');
}

/// At the end of the input the socket is closed, after a flush of the request that was going on. Any
/// input but text ends the conversation.
pub proof fn law_end_of_the_input(
    state: SynthesisView,
    input: Input<()>,
    format: AudioFormat,
    settings: Option<VoiceSettings>,
    schedule: Option<Option<Seq<u32>>>,
)
    ensures
        ({
            let h = tts::handled(state, SynthesisEvent::Input(None), format, settings, schedule);
            &&& h.out.len() == 0
            &&& h.result == Ok::<LoopControl, Seq<Seq<char>>>(LoopControl::Continue)
            &&& h.state.opened == state.opened
            &&& h.state.phase is Closing
            &&& h.sent.len() > 0 && h.sent.last() is CloseSocket
            &&& match state.phase {
                PhaseView::Synthesizing(context) => {
                    &&& h.sent.len() == 2
                    &&& h.sent[0] is Flush
                    &&& h.sent[0]->Flush_context_id == context.id
                    &&& h.state.phase->Closing_0 == Some(context)
                },
                _ => h.sent.len() == 1 && h.state.phase->Closing_0 is None,
            }
        }),
        !(input is Text) ==> {
            let h = tts::handled(
                state,
                SynthesisEvent::Input(Some(input)),
                format,
                settings,
                schedule,
            );
            h.state == state && h.sent.len() == 0 && h.out.len() == 0 && h.result == Err::<
                LoopControl,
                Seq<Seq<char>>,
            >(seq!["ElevenLabs synthesize received non-text input"@])
        },
{
}

/// The context that the state is in, if any.
pub open spec fn context_of(state: SynthesisView) -> Option<ContextView> {
    match state.phase {
        PhaseView::Accepting => None,
        PhaseView::Synthesizing(context) => Some(context),
        PhaseView::Draining(context) => Some(context),
        PhaseView::Closing(context) => context,
    }
}

/// The audio of the live context is put out in the format of the output, and when the server reports
/// that the context is finished the request is complete. What belongs to another context is ignored,
/// and an error of the server ends the conversation.
pub proof fn law_audio_is_put_out(
    state: SynthesisView,
    raw: String,
    event: tts::ServerEvent,
    bytes: Seq<u8>,
    format: AudioFormat,
    settings: Option<VoiceSettings>,
    schedule: Option<Option<Seq<u32>>>,
)
    ensures
        ({
            let message = SocketMessage::Text { raw, event: Ok(event) };
            let e = SynthesisEvent::Message(Some(Ok(message)));
            let h = tts::handled(state, e, format, settings, schedule);
            let live = context_of(state);
            let other = event.context_id is Some && (live is None || live->0.id
                != event.context_id->0@);
            let sound = event.audio is Some && event.audio->0@.len() > 0;
            let finished = event.is_final == Some(true);
            &&& h.sent.len() == 0
            &&& event.error matches Some(error) ==> {
                &&& h.state == state && h.out.len() == 0
                &&& h.result == Err::<LoopControl, Seq<Seq<char>>>(
                    seq!["ElevenLabs realtime TTS error: "@ + error@],
                )
            }
            &&& event.error is None && other ==> {
                &&& h.state == state && h.out.len() == 0
                &&& h.result == Ok::<LoopControl, Seq<Seq<char>>>(LoopControl::Continue)
            }
            &&& event.error is None && !other && sound && !is_base64(event.audio->0@) ==> {
                &&& h.state == state && h.out.len() == 0
                &&& h.result == Err::<LoopControl, Seq<Seq<char>>>(
                    seq!["Decoding ElevenLabs audio chunk"@, base64_error(event.audio->0@)],
                )
            }
            &&& event.error is None && !other && (!sound || event.audio->0@ == base64_text(bytes))
                ==> {
                let n = if sound {
                    1int
                } else {
                    0int
                };
                &&& h.result == Ok::<LoopControl, Seq<Seq<char>>>(LoopControl::Continue)
                &&& h.out.len() == n + if finished {
                    1int
                } else {
                    0int
                }
                &&& sound ==> {
                    &&& h.out[0] is Audio
                    &&& h.out[0]->Audio_0.format == format
                    &&& bytes.len() - 1 <= 2 * h.out[0]->Audio_0.samples.len() <= bytes.len()
                    &&& forall|i: int|
                        0 <= i < h.out[0]->Audio_0.samples.len() ==> {
                            let code = bytes[2 * i] as int + 256 * (bytes[2 * i + 1] as int);
                            let sample = #[trigger] h.out[0]->Audio_0.samples[i];
                            sample == code || sample == code - 65536
                        }
                }
                &&& !finished ==> h.state == state
                &&& finished ==> {
                    &&& h.out[n] is RequestCompleted
                    &&& h.state.opened == state.opened
                    &&& match state.phase {
                        PhaseView::Draining(context) => h.state.phase is Accepting
                            && h.out[n]->RequestCompleted_request_id == context.request_id,
                        PhaseView::Closing(Some(context)) => h.state.phase
                            == PhaseView::Closing(None) && h.out[n]->RequestCompleted_request_id
                            == context.request_id,
                        PhaseView::Closing(None) => h.state == state
                            && h.out[n]->RequestCompleted_request_id is None,
                        _ => h.state == state && h.out[n]->RequestCompleted_request_id is None,
                    }
                }
            }
        }),
{
    law_base64_round_trip(bytes);
    law_samples_of_bytes(bytes);
}

/// A conversation ends with the socket once the input ended; before that, it fails. It also fails if
/// the socket fails or a message cannot be read.
pub proof fn law_end_of_the_synthesis(
    state: SynthesisView,
    raw: String,
    cause: String,
    format: AudioFormat,
    settings: Option<VoiceSettings>,
    schedule: Option<Option<Seq<u32>>>,
)
    ensures
        ({
            let h = tts::handled(state, SynthesisEvent::Message(None), format, settings, schedule);
            &&& h.state == state && h.sent.len() == 0 && h.out.len() == 0
            &&& state.phase is Closing ==> h.result == Ok::<LoopControl, Seq<Seq<char>>>(
                LoopControl::End,
            )
            &&& !(state.phase is Closing) ==> h.result == Err::<LoopControl, Seq<Seq<char>>>(
                seq!["ElevenLabs websocket closed before synthesis completed"@],
            )
        }),
        ({
            let e = SynthesisEvent::Message(Some(Err(cause)));
            let h = tts::handled(state, e, format, settings, schedule);
            h.state == state && h.sent.len() == 0 && h.out.len() == 0 && h.result == Err::<
                LoopControl,
                Seq<Seq<char>>,
            >(seq!["Error reading ElevenLabs websocket: "@ + cause@])
        }),
        ({
            let message = SocketMessage::Text { raw, event: Err(cause) };
            let e = SynthesisEvent::Message(Some(Ok(message)));
            let h = tts::handled(state, e, format, settings, schedule);
            h.state == state && h.sent.len() == 0 && h.out.len() == 0 && h.result == Err::<
                LoopControl,
                Seq<Seq<char>>,
            >(seq!["Parsing ElevenLabs TTS server event: "@ + raw@, cause@])
        }),
        forall|message: SocketMessage<tts::ServerEvent>|
            message is Text || {
                let h = #[trigger] tts::handled(
                    state,
                    SynthesisEvent::Message(Some(Ok(message))),
                    format,
                    settings,
                    schedule,
                );
                h.state == state && h.sent.len() == 0 && h.out.len() == 0 && h.result == Ok::<
                    LoopControl,
                    Seq<Seq<char>>,
                >(LoopControl::Continue)
            },
{
}

/// The steps of the synthesis: what each of them does in each phase.
pub proof fn law_steps_of_the_synthesis(state: SynthesisView, request_id: Option<Seq<char>>)
    ensures
        SynthesisView::initial().phase is Accepting && SynthesisView::initial().opened == 0,
        state.accepts_input() <==> state.phase is Accepting || state.phase is Synthesizing,
        state.is_closing() <==> state.phase is Closing,
        state.live() == context_of(state),
        state.live_id() is Some <==> context_of(state) is Some,
        state.live_id() is Some ==> state.live_id()->0 == context_of(state)->0.id,
        state.changes_request(request_id) <==> (state.phase matches PhaseView::Synthesizing(c)
            && request_id is Some && c.request_id != request_id),
        state.phase is Accepting ==> {
            let after = state.recorded(request_id);
            &&& after.phase is Synthesizing
            &&& after.phase->Synthesizing_0.request_id == request_id
            &&& digits_value(after.phase->Synthesizing_0.id) == state.opened + 1
            &&& after.opened == state.opened + 1
        },
        !(state.phase is Accepting) ==> state.recorded(request_id) == state,
        state.finalized().opened == state.opened,
        state.phase matches PhaseView::Synthesizing(c) ==> state.finalized().phase
            == PhaseView::Draining(c),
        !(state.phase is Synthesizing) ==> state.finalized().phase is Accepting,
        state.input_closed().opened == state.opened,
        state.phase matches PhaseView::Synthesizing(c) ==> state.input_closed().phase
            == PhaseView::Closing(Some(c)) && state.interrupted() == Some(c),
        !(state.phase is Synthesizing) ==> state.input_closed().phase == PhaseView::Closing(None)
            && state.interrupted() is None,
        state.completed().opened == state.opened,
        state.phase matches PhaseView::Draining(c) ==> state.completed().phase is Accepting
            && state.completed_request() == c.request_id,
        state.phase matches PhaseView::Closing(c) ==> state.completed().phase == PhaseView::Closing(
            None,
        ) && state.completed_request() == match c {
            Some(c) => c.request_id,
            None => None,
        },
        state.phase is Accepting || state.phase is Synthesizing ==> state.completed() == state
            && state.completed_request() is None,
        state.phase matches PhaseView::Synthesizing(c) ==> state.billed_request() == c.request_id,
        state.phase matches PhaseView::Draining(c) ==> state.billed_request() == c.request_id,
        state.phase is Accepting || state.phase is Closing ==> state.billed_request() is None,
{
    law_decimal_text(state.opened + 1);
}

/// Audio is asked for with as many samples per second as the output has, which the name of the
/// encoding tells.
pub proof fn law_output_rates(format: AudioFormat)
    ensures
        ({
            let rate = format.sample_rate;
            let supported = rate == 8000 || rate == 16000 || rate == 22050 || rate == 24000 || rate
                == 44100;
            &&& tts::pcm_format(rate) is Some <==> supported
            &&& supported ==> tts::pcm_format(rate) == Some("pcm_"@ + decimal(rate as nat))
            &&& tts::output_format_error(format) is None <==> format.channels == 1 && supported
            &&& format.channels != 1 ==> tts::output_format_error(format) == Some(
                "ElevenLabs realtime TTS requires mono output audio"@,
            )
            &&& format.channels == 1 && !supported ==> tts::output_format_error(format) == Some(
                "Unsupported output sample rate "@ + decimal(rate as nat)
                    + " for ElevenLabs realtime TTS. Supported sample rates: 8000, 16000, 22050, 24000, 44100 Hz"@,
            )
        }),
{
    lemma_rate_names(format.sample_rate);
}

proof fn lemma_rate_names(rate: u32)
    ensures
        rate == 8000 ==> "pcm_8000"@ == "pcm_"@ + decimal(rate as nat),
        rate == 16000 ==> "pcm_16000"@ == "pcm_"@ + decimal(rate as nat),
        rate == 22050 ==> "pcm_22050"@ == "pcm_"@ + decimal(rate as nat),
        rate == 24000 ==> "pcm_24000"@ == "pcm_"@ + decimal(rate as nat),
        rate == 44100 ==> "pcm_44100"@ == "pcm_"@ + decimal(rate as nat),
        rate == 48000 ==> "pcm_48000"@ == "pcm_"@ + decimal(rate as nat),
{
    reveal_strlit("pcm_");
    reveal_strlit("pcm_8000");
    reveal_strlit("pcm_16000");
    reveal_strlit("pcm_22050");
    reveal_strlit("pcm_24000");
    reveal_strlit("pcm_44100");
    reveal_strlit("pcm_48000");
    reveal_with_fuel(decimal, 6);
    if rate == 8000 {
        assert("pcm_8000"@ =~= "pcm_"@ + decimal(8000));
    } else if rate == 16000 {
        assert("pcm_16000"@ =~= "pcm_"@ + decimal(16000));
    } else if rate == 22050 {
        assert("pcm_22050"@ =~= "pcm_"@ + decimal(22050));
    } else if rate == 24000 {
        assert("pcm_24000"@ =~= "pcm_"@ + decimal(24000));
    } else if rate == 44100 {
        assert("pcm_44100"@ =~= "pcm_"@ + decimal(44100));
    } else if rate == 48000 {
        assert("pcm_48000"@ =~= "pcm_"@ + decimal(48000));
    }
}

/// Where a synthesis connects to: the voice is part of the path, and what the parameters ask for is
/// in the query, pair after pair.
pub proof fn law_synthesis_endpoints(params: tts::Params, format: Seq<char>)
    ensures
        ({
            let pairs = tts::endpoint_pairs(params, format);
            let language = if params.language is Some {
                1int
            } else {
                0int
            };
            let normalization = if params.apply_text_normalization is Some {
                1int
            } else {
                0int
            };
            let auto = if params.auto_mode is Some {
                1int
            } else {
                0int
            };
            &&& pairs.len() == 3 + language + normalization + auto
            &&& params.model is Some ==> pairs[0] == ("model_id"@, params.model->0@)
            &&& params.model is None ==> pairs[0] == ("model_id"@, "eleven_flash_v2_5"@)
            &&& pairs[1] == ("output_format"@, format)
            &&& pairs[2] == ("inactivity_timeout"@, decimal(180))
            &&& params.language is Some ==> pairs[3] == ("language_code"@, params.language->0@)
            &&& params.apply_text_normalization matches Some(mode) ==> pairs[3 + language] == (
                "apply_text_normalization"@,
                match mode {
                    TextNormalization::Auto => "auto"@,
                    TextNormalization::On => "on"@,
                    TextNormalization::Off => "off"@,
                },
            )
            &&& params.auto_mode matches Some(mode) ==> pairs[3 + language + normalization] == (
                "auto_mode"@,
                if mode {
                    "true"@
                } else {
                    "false"@
                },
            )
        }),
        ({
            let segments = tts::endpoint_segments(params.voice@);
            &&& segments.len() == 4
            &&& segments[0] == "v1"@
            &&& segments[1] == "text-to-speech"@
            &&& segments[2] == params.voice@
            &&& segments[3] == "multi-stream-input"@
        }),
        ({
            let host = if params.endpoint is Some {
                params.endpoint->0@
            } else {
                "wss://api.elevenlabs.io"@
            };
            let endpoint = tts::endpoint_for(params, format);
            match url_read(host) {
                Err(cause) => endpoint == Err::<Seq<char>, Seq<Seq<char>>>(
                    seq!["Invalid ElevenLabs realtime TTS host URL"@, cause],
                ),
                Ok(base) => match url_with_segments(
                    base,
                    tts::endpoint_segments(params.voice@),
                ) {
                    None => endpoint == Err::<Seq<char>, Seq<Seq<char>>>(
                        seq!["ElevenLabs realtime TTS host cannot be a base URL"@],
                    ),
                    Some(url) => endpoint == Ok::<Seq<char>, Seq<Seq<char>>>(
                        url_with_pairs(url, tts::endpoint_pairs(params, format)),
                    ),
                },
            }
        }),
{
}

/// What is sent, and the state of the synthesis, are shown as they are.
pub proof fn law_synthesis_is_shown(
    message: tts::OutboundMessage,
    sent: Seq<tts::OutboundMessage>,
    state: SynthesisState,
)
    ensures
        tts::outbound_view(sent).len() == sent.len(),
        forall|i: int| 0 <= i < sent.len() ==> #[trigger] tts::outbound_view(sent)[i] == sent[i]@,
        match message {
            tts::OutboundMessage::Text { text, context_id, voice_settings, generation_config } => {
                &&& message@ is Text
                &&& message@->Text_text == text@
                &&& message@->Text_context_id == context_id@
                &&& message@->Text_voice_settings == voice_settings
                &&& message@->schedule is Some <==> generation_config is Some
                &&& generation_config matches Some(c) ==> (message@->schedule->0 is Some
                    <==> c.chunk_length_schedule is Some)
                &&& generation_config matches Some(c) ==> (c.chunk_length_schedule matches Some(s)
                    ==> message@->schedule->0->0 == s@)
            },
            tts::OutboundMessage::Flush { context_id } => message@ is Flush
                && message@->Flush_context_id == context_id@,
            tts::OutboundMessage::CloseContext { context_id } => message@ is CloseContext
                && message@->CloseContext_context_id == context_id@,
            tts::OutboundMessage::CloseSocket => message@ is CloseSocket,
        },
        state@.opened == state.next_id,
        state.phase is Accepting <==> state@.phase is Accepting,
        state.phase is Synthesizing <==> state@.phase is Synthesizing,
        state.phase is Draining <==> state@.phase is Draining,
        state.phase is Closing <==> state@.phase is Closing,
        match state.phase {
            Phase::Synthesizing(c) => {
                let shown = state@.phase->Synthesizing_0;
                &&& shown.id == c.id@
                &&& shown.request_id is Some <==> c.request_id is Some
                &&& c.request_id is Some ==> shown.request_id->0 == c.request_id->0@
            },
            Phase::Draining(c) => {
                let shown = state@.phase->Draining_0;
                &&& shown.id == c.id@
                &&& shown.request_id is Some <==> c.request_id is Some
                &&& c.request_id is Some ==> shown.request_id->0 == c.request_id->0@
            },
            Phase::Closing(Some(c)) => {
                let shown = state@.phase->Closing_0->0;
                &&& state@.phase->Closing_0 is Some
                &&& shown.id == c.id@
                &&& shown.request_id is Some <==> c.request_id is Some
                &&& c.request_id is Some ==> shown.request_id->0 == c.request_id->0@
            },
            Phase::Closing(None) => state@.phase->Closing_0 is None,
            Phase::Accepting => true,
        },
{
}

/// Audio is sent as it comes, two bytes for each sample with the low one first, as base64 text with
/// the sample rate and without a commit. The previous text goes with it if there is one, and is
/// forgotten then. Audio of another format ends the conversation, and other input is ignored.
pub proof fn law_audio_is_sent(
    state: LoopView,
    frame: AudioFrame,
    input: Input<()>,
    config: ConversationLoopConfig,
)
    ensures
        ({
            let event = TranscribeEvent::Input(Some(Input::Audio { frame }));
            let h = stt::handled(state, event, config);
            &&& h.out.len() == 0
            &&& frame.format != config.input_format ==> {
                &&& h.state == state && h.message is None
                &&& h.result == Err::<LoopControl, Seq<Seq<char>>>(
                    seq!["Received mixed input audio formats in conversation"@],
                )
            }
            &&& frame.format == config.input_format ==> {
                let bytes = base64_bytes(h.message->0->audio);
                &&& h.result == Ok::<LoopControl, Seq<Seq<char>>>(LoopControl::Continue)
                &&& h.state.input_closed == state.input_closed
                &&& h.state.outbound_closed == state.outbound_closed
                &&& h.state.previous_text is None
                &&& h.message is Some && h.message->0 is InputAudioChunk
                &&& h.message->0->commit == false
                &&& h.message->0->sample_rate == frame.format.sample_rate
                &&& h.message->0->previous_text == state.previous_text
                &&& is_base64(h.message->0->audio)
                &&& bytes.len() == 2 * frame.samples@.len()
                &&& forall|i: int|
                    0 <= i < frame.samples@.len() ==> {
                        let code = bytes[2 * i] as int + 256 * (bytes[2 * i + 1] as int);
                        let sample = #[trigger] frame.samples@[i];
                        code == sample || code == sample + 65536
                    }
            }
        }),
        !(input is Audio) ==> {
            let h = stt::handled(state, TranscribeEvent::Input(Some(input)), config);
            h.state == state && h.message is None && h.out.len() == 0 && h.result == Ok::<
                LoopControl,
                Seq<Seq<char>>,
            >(LoopControl::Continue)
        },
{
    law_base64_round_trip(crate::audio::le_bytes(frame@.samples));
    law_bytes_of_samples(frame@.samples);
    assert(frame@.samples == frame.samples@);
}

/// At the end of the input the stream to the server is closed once. The conversation ends with the
/// stream from the server, and fails if that fails or a message cannot be read.
pub proof fn law_end_of_the_transcription(
    state: LoopView,
    raw: String,
    cause: String,
    config: ConversationLoopConfig,
)
    ensures
        ({
            let h = stt::handled(state, TranscribeEvent::Input(None), config);
            &&& h.out.len() == 0
            &&& h.result == Ok::<LoopControl, Seq<Seq<char>>>(LoopControl::Continue)
            &&& h.state.input_closed && h.state.outbound_closed
            &&& h.state.previous_text == state.previous_text
            &&& state.outbound_closed ==> h.message is None
            &&& !state.outbound_closed ==> h.message is Some && h.message->0 is Close
        }),
        ({
            let h = stt::handled(state, TranscribeEvent::Message(None), config);
            h.state == state && h.message is None && h.out.len() == 0 && h.result == Ok::<
                LoopControl,
                Seq<Seq<char>>,
            >(LoopControl::End)
        }),
        ({
            let h = stt::handled(state, TranscribeEvent::Message(Some(Err(cause))), config);
            h.state == state && h.message is None && h.out.len() == 0 && h.result == Err::<
                LoopControl,
                Seq<Seq<char>>,
            >(seq!["Error reading ElevenLabs websocket: "@ + cause@])
        }),
        ({
            let message = SocketMessage::Text { raw, event: Err(cause) };
            let h = stt::handled(state, TranscribeEvent::Message(Some(Ok(message))), config);
            h.state == state && h.message is None && h.out.len() == 0 && h.result == Err::<
                LoopControl,
                Seq<Seq<char>>,
            >(seq!["Parsing ElevenLabs server event: "@ + raw@, cause@])
        }),
        forall|message: SocketMessage<RealtimeEnvelope>|
            message is Text || {
                let h = #[trigger] stt::handled(
                    state,
                    TranscribeEvent::Message(Some(Ok(message))),
                    config,
                );
                h.state == state && h.message is None && h.out.len() == 0 && h.result == Ok::<
                    LoopControl,
                    Seq<Seq<char>>,
                >(LoopControl::Continue)
            },
{
}

/// A partial transcript is put out as a text that is not final, and a committed one as a final one:
/// the one with timestamps with its language, and the plain one only if languages are not detected.
/// Both come without a speaker. The start of a session says nothing.
pub proof fn law_transcripts_are_put_out(
    state: LoopView,
    raw: String,
    envelope: RealtimeEnvelope,
    config: ConversationLoopConfig,
)
    ensures
        ({
            let message = SocketMessage::Text { raw, event: Ok(envelope) };
            let h = stt::handled(state, TranscribeEvent::Message(Some(Ok(message))), config);
            let kind = envelope.message_type@;
            &&& h.state == state && h.message is None
            &&& kind == "session_started"@ ==> h.out.len() == 0 && h.result is Ok
            &&& kind == "partial_transcript"@ || (kind == "committed_transcript"@
                && !config.include_language_detection) ==> match envelope.transcript {
                Ok(text) => {
                    &&& h.result == Ok::<LoopControl, Seq<Seq<char>>>(LoopControl::Continue)
                    &&& h.out.len() == 1
                    &&& h.out[0] is Text
                    &&& h.out[0]->is_final == (kind == "committed_transcript"@)
                    &&& h.out[0]->text == text@
                    &&& h.out[0]->language is None
                    &&& h.out[0]->speaker is None
                },
                Err(cause) => h.out.len() == 0 && h.result == Err::<LoopControl, Seq<Seq<char>>>(
                    seq![cause@],
                ),
            }
            &&& kind == "committed_transcript"@ && config.include_language_detection ==> h.out.len()
                == 0 && h.result is Ok
            &&& kind == "committed_transcript_with_timestamps"@ ==> match envelope.timestamped {
                Ok(t) => {
                    &&& h.result == Ok::<LoopControl, Seq<Seq<char>>>(LoopControl::Continue)
                    &&& h.out.len() == 1
                    &&& h.out[0] is Text
                    &&& h.out[0]->is_final == true
                    &&& h.out[0]->text == t.text@
                    &&& h.out[0]->speaker is None
                    &&& match t.language {
                        Some(Ok(tag)) => h.out[0]->language == Some(tag@),
                        _ => h.out[0]->language is None,
                    }
                },
                Err(cause) => h.out.len() == 0 && h.result == Err::<LoopControl, Seq<Seq<char>>>(
                    seq![cause@],
                ),
            }
        }),
{
    lemma_kinds_differ();
}

proof fn lemma_kinds_differ()
    ensures
        "session_started"@.len() == 15,
        "partial_transcript"@.len() == 18,
        "committed_transcript"@.len() == 20,
        "committed_transcript_with_timestamps"@.len() == 36,
        "invalid_request"@.len() == 15,
        "session_started"@ != "invalid_request"@,
{
    reveal_strlit("session_started");
    reveal_strlit("partial_transcript");
    reveal_strlit("committed_transcript");
    reveal_strlit("committed_transcript_with_timestamps");
    reveal_strlit("invalid_request");
    assert("session_started"@[0] == 's' && "invalid_request"@[0] == 'i');
}

/// A request that the server refuses ends the conversation, with the message that it gives, and so
/// does an error that it reports.
pub proof fn law_errors_end_the_transcription(
    state: LoopView,
    raw: String,
    envelope: RealtimeEnvelope,
    config: ConversationLoopConfig,
)
    ensures
        ({
            let message = SocketMessage::Text { raw, event: Ok(envelope) };
            let h = stt::handled(state, TranscribeEvent::Message(Some(Ok(message))), config);
            let kind = envelope.message_type@;
            let known = kind == "session_started"@ || kind == "partial_transcript"@ || kind
                == "committed_transcript"@ || kind == "committed_transcript_with_timestamps"@;
            let scribe = kind == "scribe_error"@ || ("scribe_"@.is_prefix_of(kind)
                && "_error"@.is_suffix_of(kind));
            let payload = json_text(envelope.payload);
            let told = json_string_member(payload, "message"@);
            let also = json_string_member(payload, "error"@);
            &&& kind == "invalid_request"@ ==> h.out.len() == 0 && match envelope.invalid_request {
                Err(cause) => h.result == Err::<LoopControl, Seq<Seq<char>>>(seq![cause@]),
                Ok(request) => h.result == Err::<LoopControl, Seq<Seq<char>>>(
                    seq![
                        "ElevenLabs invalid_request: "@ + if request.message is Some {
                            request.message->0@
                        } else if request.error is Some {
                            request.error->0@
                        } else {
                            "ElevenLabs realtime rejected the request"@
                        },
                    ],
                ),
            }
            &&& !known && kind != "invalid_request"@ && scribe ==> h.out.len() == 0 && h.result
                == Err::<LoopControl, Seq<Seq<char>>>(
                seq![
                    "ElevenLabs "@ + kind + ": "@ + if told is Some {
                        told->0
                    } else if also is Some {
                        also->0
                    } else {
                        "ElevenLabs realtime returned an unspecified error"@
                    },
                ],
            )
            &&& !known && kind != "invalid_request"@ && !scribe ==> h.out.len() == 0 && h.result
                == Ok::<LoopControl, Seq<Seq<char>>>(LoopControl::Continue)
        }),
{
    lemma_kinds_differ();
}

/// The samples per second of an encoding.
pub open spec fn samples_per_second(encoding: stt::AudioEncoding) -> int {
    match encoding {
        stt::AudioEncoding::Pcm48000 => 48000,
        stt::AudioEncoding::Pcm44100 => 44100,
        stt::AudioEncoding::Pcm24000 => 24000,
        stt::AudioEncoding::Pcm22050 => 22050,
        stt::AudioEncoding::Pcm16000 => 16000,
        stt::AudioEncoding::Pcm8000 => 8000,
    }
}

/// Audio is announced with the samples per second that it has, which the name of the encoding tells.
pub proof fn law_input_rates(rate: u32, encoding: stt::AudioEncoding)
    ensures
        stt::encoding_for(rate) is Some <==> rate == 8000 || rate == 16000 || rate == 22050 || rate
            == 24000 || rate == 44100 || rate == 48000,
        stt::encoding_for(rate) is Some ==> samples_per_second(stt::encoding_for(rate)->0) == rate,
        stt::encoding_name(encoding) == "pcm_"@ + decimal(samples_per_second(encoding) as nat),
        stt::unsupported_rate(rate) == "Unsupported input sample rate "@ + decimal(rate as nat)
            + " for ElevenLabs realtime. Supported sample rates: 8000, 16000, 22050, 24000, 44100, 48000 Hz"@,
{
    lemma_rate_names(samples_per_second(encoding) as u32);
}

/// Where a transcription connects to: what the parameters ask for is in the query, pair after pair.
pub proof fn law_transcription_endpoints(
    params: stt::Params,
    encoding: stt::AudioEncoding,
    detect: bool,
    code: Option<Seq<char>>,
    iso: Result<Seq<char>, Seq<char>>,
)
    ensures
        stt::detects_language(params) <==> params.include_language_detection is Some
            && params.include_language_detection->0,
        ({
            let pairs = stt::endpoint_pairs(params, encoding, detect, code);
            let one = |present: bool|
                if present {
                    1int
                } else {
                    0int
                };
            let a = 4 + one(code is Some);
            let b = a + one(params.vad_silence_threshold_secs is Some);
            let c = b + one(params.vad_threshold is Some);
            let d = c + one(params.min_speech_duration_ms is Some);
            &&& pairs.len() == d + one(params.min_silence_duration_ms is Some)
            &&& params.model is Some ==> pairs[0] == ("model_id"@, params.model->0@)
            &&& params.model is None ==> pairs[0] == ("model_id"@, "scribe_v2_realtime"@)
            &&& detect ==> pairs[1] == ("include_language_detection"@, "true"@)
            &&& !detect ==> pairs[1] == ("include_language_detection"@, "false"@)
            &&& pairs[2] == ("audio_format"@, stt::encoding_name(encoding))
            &&& pairs[3] == ("commit_strategy"@, "vad"@)
            &&& code is Some ==> pairs[4] == ("language_code"@, code->0)
            &&& params.vad_silence_threshold_secs matches Some(text) ==> pairs[a] == (
                "vad_silence_threshold_secs"@,
                text@,
            )
            &&& params.vad_threshold matches Some(text) ==> pairs[b] == ("vad_threshold"@, text@)
            &&& params.min_speech_duration_ms matches Some(n) ==> pairs[c] == (
                "min_speech_duration_ms"@,
                decimal(n as nat),
            )
            &&& params.min_silence_duration_ms matches Some(n) ==> pairs[d] == (
                "min_silence_duration_ms"@,
                decimal(n as nat),
            )
        }),
        ({
            let host = if params.host is Some {
                params.host->0@
            } else {
                "wss://api.elevenlabs.io/v1/speech-to-text/realtime"@
            };
            let endpoint = stt::endpoint_for(params, encoding, detect, iso);
            match url_read(host) {
                Err(cause) => endpoint == Err::<Seq<char>, Seq<Seq<char>>>(
                    seq!["Invalid ElevenLabs realtime host URL"@, cause],
                ),
                Ok(base) => {
                    &&& params.language is None ==> endpoint == Ok::<Seq<char>, Seq<Seq<char>>>(
                        url_with_pairs(base, stt::endpoint_pairs(params, encoding, detect, None)),
                    )
                    &&& params.language is Some && iso is Ok ==> endpoint == Ok::<
                        Seq<char>,
                        Seq<Seq<char>>,
                    >(
                        url_with_pairs(
                            base,
                            stt::endpoint_pairs(params, encoding, detect, Some(iso->Ok_0)),
                        ),
                    )
                    &&& params.language is Some && iso is Err ==> endpoint == Err::<
                        Seq<char>,
                        Seq<Seq<char>>,
                    >(
                        seq![
                            "Invalid ElevenLabs params.language '"@ + params.language->0@ + "': "@
                                + iso->Err_0,
                        ],
                    )
                },
            }
        }),
{
}

/// What is sent, and the state of the transcription, are shown as they are.
pub proof fn law_transcription_is_shown(
    message: stt::OutboundMessage,
    state: LoopState,
    language: Result<String, String>,
)
    ensures
        stt::message_view(None) is None,
        stt::message_view(Some(message)) == Some(message@),
        match message {
            stt::OutboundMessage::InputAudioChunk {
                audio_base_64,
                commit,
                sample_rate,
                previous_text,
            } => {
                &&& message@ is InputAudioChunk
                &&& message@->audio == audio_base_64@
                &&& message@->commit == commit
                &&& message@->sample_rate == sample_rate
                &&& message@->previous_text is Some <==> previous_text is Some
                &&& previous_text is Some ==> message@->previous_text->0 == previous_text->0@
            },
            stt::OutboundMessage::Close => message@ is Close,
        },
        state@.input_closed == state.input_closed,
        state@.outbound_closed == state.outbound_closed,
        state@.previous_text is Some <==> state.previous_text is Some,
        state.previous_text is Some ==> state@.previous_text->0 == state.previous_text->0@,
        language matches Ok(code) ==> stt::language_view(language) == Ok::<Seq<char>, Seq<char>>(
            code@,
        ),
        language matches Err(cause) ==> stt::language_view(language) == Err::<
            Seq<char>,
            Seq<char>,
        >(cause@),
{
}

/// A transcription takes one channel, and connects with the encoding of its rate. It detects languages
/// if that is asked for.
pub proof fn law_planned_transcriptions(
    params: stt::Params,
    format: AudioFormat,
    iso: Result<String, String>,
    r: Result<stt::TranscribePlan, Error>,
)
    requires
        call_ensures(
            stt::ElevenLabsTranscribe::conversation,
            (&stt::ElevenLabsTranscribe, &params, format, iso),
            r,
        ),
    ensures
        format.channels != 1 ==> r is Err && r->Err_0@ == seq![
            "ElevenLabs realtime currently requires mono input audio"@,
        ],
        r matches Ok(plan) ==> {
            let encoding = stt::encoding_for(format.sample_rate)->0;
            &&& format.channels == 1
            &&& samples_per_second(encoding) == format.sample_rate
            &&& plan.config.input_format == format
            &&& plan.config.include_language_detection <==> params.include_language_detection
                == Some(true)
            &&& Ok::<Seq<char>, Seq<Seq<char>>>(plan.endpoint@) == stt::endpoint_for(
                params,
                encoding,
                plan.config.include_language_detection,
                stt::language_view(iso),
            )
        },
{
    law_input_rates(format.sample_rate, stt::AudioEncoding::Pcm8000);
}

/// A synthesis puts out one channel, and connects with the encoding of its rate.
pub proof fn law_planned_synthesis(
    params: tts::Params,
    format: AudioFormat,
    r: Result<String, Error>,
)
    requires
        call_ensures(
            tts::ElevenLabsSynthesize::conversation,
            (&tts::ElevenLabsSynthesize, &params, format),
            r,
        ),
    ensures
        format.channels != 1 ==> r is Err && r->Err_0@ == seq![
            "ElevenLabs realtime TTS requires mono output audio"@,
        ],
        r matches Ok(url) ==> format.channels == 1 && Ok::<Seq<char>, Seq<Seq<char>>>(url@)
            == tts::endpoint_for(params, "pcm_"@ + decimal(format.sample_rate as nat)),
{
    law_output_rates(format);
}

/// A round of a synthesis: a text is sent and billed, and at the end of the input the socket is closed.
pub proof fn law_rounds_of_a_synthesis(
    state: &mut SynthesisState,
    event: SynthesisEvent,
    format: AudioFormat,
    settings: Option<VoiceSettings>,
    config: Option<GenerationConfig>,
    sent: &mut Vec<tts::OutboundMessage>,
    out: &mut Vec<Emission<()>>,
    r: Result<LoopControl, Error>,
)
    requires
        event is Input ==> old(state).phase is Accepting || old(state).phase is Synthesizing,
        call_ensures(
            tts::run_conversation_loop,
            (state, event, format, settings, &config, sent, out),
            r,
        ),
    ensures
        event matches SynthesisEvent::Input(Some(Input::Text { text, is_final, .. })) ==> (r is Ok
            ==> {
            let s = tts::outbound_view(final(sent)@);
            let o = emissions(final(out)@);
            let m = old(sent)@.len() as int;
            let n = old(out)@.len() as int;
            &&& s.len() == m + if is_final {
                3int
            } else {
                1int
            }
            &&& s[m] is Text
            &&& is_final ==> s[m + 1] is Flush && s[m + 2] is CloseContext
            &&& o.len() == n + 1
            &&& o[n] is BillingRecords
            &&& o[n]->records[0].value == BillingValue::Count(text@.len() as u64)
            &&& is_final <==> final(state)@.phase is Draining
        }),
        event matches SynthesisEvent::Input(None) ==> {
            let s = tts::outbound_view(final(sent)@);
            &&& r is Ok
            &&& s.len() > old(sent)@.len()
            &&& s.last() is CloseSocket
            &&& final(out)@.len() == old(out)@.len()
            &&& final(state)@.phase is Closing
        },
        event matches SynthesisEvent::Message(None) ==> (r is Ok <==> old(state).phase is Closing),
{
    assert(emissions(old(out)@).len() == old(out)@.len());
    assert(emissions(final(out)@).len() == final(out)@.len());
    assert(tts::outbound_view(old(sent)@).len() == old(sent)@.len());
    let schedule = tts::schedule_view(config);
    if let SynthesisEvent::Input(Some(Input::Text { request_id, text, text_type, is_final })) =
        event {
        law_fragments_are_sent(
            old(state)@,
            request_id,
            text,
            text_type,
            is_final,
            format,
            settings,
            schedule,
        );
    }
}

/// A round of a transcription: audio of the right format is sent, and texts are put out as they come.
pub proof fn law_rounds_of_a_transcription(
    state: &mut LoopState,
    event: TranscribeEvent,
    config: ConversationLoopConfig,
    out: &mut Vec<Emission<()>>,
    r: Result<stt::Step, Error>,
)
    requires
        call_ensures(stt::run_conversation_loop, (state, event, config, out), r),
    ensures
        event matches TranscribeEvent::Input(Some(Input::Audio { frame })) ==> {
            &&& r is Ok <==> frame.format == config.input_format
            &&& emissions(final(out)@) == emissions(old(out)@)
            &&& r matches Ok(step) ==> {
                &&& step.control == LoopControl::Continue
                &&& step.message is Some && step.message->0 is InputAudioChunk
                &&& step.message->0->commit == false
                &&& step.message->0->sample_rate == frame.format.sample_rate
                &&& base64_bytes(step.message->0->audio_base_64@).len() == 2 * frame.samples@.len()
            }
        },
        event matches TranscribeEvent::Message(
            Some(Ok(SocketMessage::Text { event: Ok(envelope), .. })),
        ) ==> (envelope.message_type@ == "partial_transcript"@ && envelope.transcript is Ok ==> {
            let o = emissions(final(out)@);
            let n = old(out)@.len() as int;
            &&& r is Ok
            &&& o.len() == n + 1
            &&& o[n] is Text
            &&& o[n]->is_final == false
            &&& o[n]->text == envelope.transcript->Ok_0@
        }),
        event matches TranscribeEvent::Message(None) ==> r is Ok && r->Ok_0.control
            == LoopControl::End,
{
    assert(emissions(old(out)@).len() == old(out)@.len());
    if let TranscribeEvent::Input(Some(Input::Audio { frame })) = event {
        law_audio_is_sent(old(state)@, frame, Input::Audio { frame }, config);
        assert(emissions(final(out)@) =~= emissions(old(out)@));
    }
    if let TranscribeEvent::Message(Some(Ok(SocketMessage::Text { raw, event: Ok(envelope) }))) =
        event {
        law_transcripts_are_put_out(old(state)@, raw, envelope, config);
    }
}

/// The stream to the server is closed once, whatever way the conversation ends.
pub proof fn law_finished_transcriptions(
    state: &mut LoopState,
    r: Option<stt::OutboundMessage>,
)
    requires
        call_ensures(LoopState::finish, (state,), r),
    ensures
        old(state).outbound_closed ==> r is None,
        !old(state).outbound_closed ==> r is Some && r->0 is Close,
        final(state).outbound_closed,
{
    assert(old(state)@.outbound_closed == old(state).outbound_closed);
    assert(final(state)@.outbound_closed == final(state).outbound_closed);
}

/// The message of an error is the one that is told, or else the error itself, or else says that none
/// was told.
pub proof fn law_told_errors(
    kind: &str,
    message: Option<String>,
    error: Option<String>,
    a: Option<String>,
    b: Error,
)
    requires
        call_ensures(stt::message_or_error, (message, error), a),
        call_ensures(stt::scribe_error, (kind, message), b),
    ensures
        message is Some ==> a is Some && a->0@ == message->0@,
        message is None && error is Some ==> a is Some && a->0@ == error->0@,
        message is None && error is None ==> a is None,
        message is Some ==> b@ == seq!["ElevenLabs "@ + kind@ + ": "@ + message->0@],
        message is None ==> b@ == seq![
            "ElevenLabs "@ + kind@ + ": "@ + "ElevenLabs realtime returned an unspecified error"@,
        ],
{
}

} // verus!

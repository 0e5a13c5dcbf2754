//! How a session begins.

use vstd::prelude::*;

use serde_json::Value;

use crate::audio::AudioFormat;
use crate::error::Error;
use crate::input::SocketMessage;
use crate::json::json_texts;
use crate::json::opt_json_text;
use crate::openai_dialog::transcription::TranscriptionSettings;
use crate::openai_dialog::types::speed_of;
use crate::openai_dialog::types::usual_speed;
use crate::openai_dialog::types::OutputModality;
use crate::openai_dialog::types::Params;
use crate::openai_dialog::types::ServerEvent;
use crate::openai_dialog::types::Session;
use crate::openai_dialog::types::SessionAudioFormat;
use crate::openai_dialog::types::SessionSettings;
use crate::openai_dialog::types::SessionSettingsView;
use crate::text::concat2;
use crate::text::concat3;
use crate::text::decimal;
use crate::text::decimal_text;
use crate::text::join;
use crate::text::joined;
use crate::text::opt_view;
use crate::text::texts;

verus! {

/// How an audio format is written in an error message.
pub open spec fn format_text(format: AudioFormat) -> Seq<char> {
    "AudioFormat { channels: "@ + decimal(format.channels as nat) + ", sample_rate: "@ + decimal(
        format.sample_rate as nat,
    ) + " }"@
}

/// Writes an audio format for an error message.
pub fn describe_format(format: AudioFormat) -> (r: String)
    ensures
        r@ == format_text(format),
{
    let channels = decimal_text(format.channels as u64);
    let rate = decimal_text(format.sample_rate as u64);
    let mut r = concat3("AudioFormat { channels: ", channels.as_str(), ", sample_rate: ");
    r.append(rate.as_str());
    r.append(" }");
    r
}

/// The one format that audio has in a dialog.
pub open spec fn dialog_format() -> AudioFormat {
    AudioFormat { channels: 1, sample_rate: 24000 }
}

/// The message for audio in any other format.
pub open spec fn wrong_format(direction: Seq<char>, format: AudioFormat) -> Seq<char> {
    direction + format_text(format) + ", expected: "@ + format_text(dialog_format())
}

fn wrong_format_error(direction: &str, format: AudioFormat) -> (r: Error)
    ensures
        r@ == seq![wrong_format(direction@, format)],
{
    let actual = describe_format(format);
    let expected = describe_format(AudioFormat::new(1, 24000));
    let mut message = concat3(direction, actual.as_str(), ", expected: ");
    message.append(expected.as_str());
    Error::from_text(message)
}

/// Checks the formats of a dialog's audio: one channel, 24000 samples per second.
pub fn check_formats(input_format: AudioFormat, output_format: AudioFormat) -> (r: Result<
    (),
    Error,
>)
    ensures
        r is Ok <==> input_format == dialog_format() && output_format == dialog_format(),
        r matches Err(e) ==> e@ == if input_format != dialog_format() {
            seq![wrong_format("Audio input has the wrong format "@, input_format)]
        } else {
            seq![wrong_format("Audio output has the wrong format "@, output_format)]
        },
{
    let expected_format = AudioFormat::new(1, 24000);
    if input_format != expected_format {
        return Err(wrong_format_error("Audio input has the wrong format ", input_format));
    }
    if output_format != expected_format {
        return Err(wrong_format_error("Audio output has the wrong format ", output_format));
    }
    Ok(())
}

/// Whether a format of the session is one that audio can be exchanged in.
pub open spec fn is_pcm(format: Option<SessionAudioFormat>) -> bool {
    format matches Some(f) ==> f is Pcm
}

/// The description of a format that is not PCM.
pub open spec fn other_format(format: Option<SessionAudioFormat>) -> Seq<char> {
    match format {
        Some(SessionAudioFormat::Other { description }) => description@,
        _ => Seq::empty(),
    }
}

/// The names of output modalities.
pub open spec fn modality_names(modalities: Seq<OutputModality>) -> Seq<Seq<char>> {
    Seq::new(
        modalities.len(),
        |i: int|
            match modalities[i] {
                OutputModality::Audio => "Audio"@,
                OutputModality::Text => "Text"@,
            },
    )
}

/// How output modalities are written in an error message.
pub open spec fn modalities_text(modalities: Seq<OutputModality>) -> Seq<char> {
    "["@ + joined(
        modality_names(modalities),
        ", "@,
    ) + "]"@
}

/// Whether audio is among the output modalities, or none are told.
pub open spec fn may_speak(modalities: Option<Vec<OutputModality>>) -> bool {
    modalities matches Some(list) ==> list@.len() == 0 || list@.contains(OutputModality::Audio)
}

/// What is wrong with a session, if anything. What the server leaves out is taken to be fine.
pub open spec fn session_error(session: Session) -> Option<Seq<char>> {
    match session {
        Session::Transcription { description } => Some(
            "Unexpected non-realtime session: "@ + description@,
        ),
        Session::Realtime { input_format, output_format, output_modalities, tools: _ } => {
            if !is_pcm(input_format) {
                Some(
                    "Unexpected input audio format: Some("@ + other_format(input_format)
                        + "), expected PCM"@,
                )
            } else if !is_pcm(output_format) {
                Some(
                    "Unexpected output audio format: Some("@ + other_format(output_format)
                        + "), expected PCM"@,
                )
            } else if !may_speak(output_modalities) {
                Some("Expect audio output modality: "@ + modalities_text(output_modalities->0@))
            } else {
                None
            }
        },
    }
}

/// What is wrong with the first message of the server, if anything.
pub open spec fn first_message_error(
    message: Option<Result<SocketMessage<ServerEvent>, String>>,
) -> Option<Seq<char>> {
    match message {
        None => Some("Failed to receive the initial message received"@),
        Some(Err(cause)) => Some(cause@),
        Some(Ok(SocketMessage::Text { raw: _, event })) => match event {
            Err(cause) => Some(cause@),
            Ok(ServerEvent::SessionCreated { session }) => session_error(session),
            Ok(ServerEvent::Error(error)) => Some(
                "Failed to create the session: "@ + error.message@,
            ),
            Ok(_) => Some("Received an unexpected event in response to the session creation"@),
        },
        Some(Ok(_)) => Some("Failed to receive the initial message"@),
    }
}

/// Writes output modalities for an error message.
fn describe_modalities(modalities: &Vec<OutputModality>) -> (r: String)
    ensures
        r@ == modalities_text(modalities@),
{
    let mut names: Vec<String> = Vec::new();
    let mut i: usize = 0;
    while i < modalities.len()
        invariant
            i <= modalities@.len(),
            texts(names@) == modality_names(modalities@.take(i as int)),
        decreases modalities@.len() - i,
    {
        let text = match modalities[i] {
            OutputModality::Audio => "Audio",
            OutputModality::Text => "Text",
        };
        let ghost before = texts(names@);
        names.push(text.to_owned());
        assert(texts(names@) =~= before.push(text@));
        assert(texts(names@) =~= modality_names(modalities@.take(i + 1)));
        i += 1;
    }
    assert(modalities@.take(i as int) =~= modalities@);
    let list = join(&names, ", ");
    concat3("[", list.as_str(), "]")
}

fn includes_audio(modalities: &Vec<OutputModality>) -> (r: bool)
    ensures
        r == modalities@.contains(OutputModality::Audio),
{
    let mut i: usize = 0;
    while i < modalities.len()
        invariant
            i <= modalities@.len(),
            forall|j: int| 0 <= j < i ==> modalities@[j] != OutputModality::Audio,
        decreases modalities@.len() - i,
    {
        if modalities[i] == OutputModality::Audio {
            assert(modalities@[i as int] == OutputModality::Audio);
            return true;
        }
        i += 1;
    }
    false
}

/// Checks a session that the server created.
pub fn verify_session(session: &Session) -> (r: Result<(), Error>)
    ensures
        r is Ok <==> session_error(*session) is None,
        r matches Err(e) ==> e@ == seq![session_error(*session)->0],
{
    match session {
        Session::Transcription { description } => Err(
            Error::from_text(
                concat2("Unexpected non-realtime session: ", description.as_str()),
            ),
        ),
        Session::Realtime { input_format, output_format, output_modalities, tools: _ } => {
            match input_format {
                Some(SessionAudioFormat::Other { description }) => {
                    return Err(
                        Error::from_text(
                            concat3(
                                "Unexpected input audio format: Some(",
                                description.as_str(),
                                "), expected PCM",
                            ),
                        ),
                    );
                },
                _ => {},
            }
            match output_format {
                Some(SessionAudioFormat::Other { description }) => {
                    return Err(
                        Error::from_text(
                            concat3(
                                "Unexpected output audio format: Some(",
                                description.as_str(),
                                "), expected PCM",
                            ),
                        ),
                    );
                },
                _ => {},
            }
            match output_modalities {
                Some(modalities) => {
                    if modalities.len() > 0 && !includes_audio(modalities) {
                        let list = describe_modalities(modalities);
                        return Err(
                            Error::from_text(
                                concat2("Expect audio output modality: ", list.as_str()),
                            ),
                        );
                    }
                },
                None => {},
            }
            Ok(())
        },
    }
}

/// Checks the first message of the server, which has to create a session for a dialog.
pub fn verify_session_created_event(
    message: Option<Result<SocketMessage<ServerEvent>, String>>,
) -> (r: Result<(), Error>)
    ensures
        r is Ok <==> first_message_error(message) is None,
        r matches Err(e) ==> e@ == seq![first_message_error(message)->0],
{
    match message {
        None => Err(Error::new("Failed to receive the initial message received")),
        Some(Err(cause)) => Err(Error::from_text(cause)),
        Some(Ok(SocketMessage::Text { raw: _, event })) => match event {
            Err(cause) => Err(Error::from_text(cause)),
            Ok(ServerEvent::SessionCreated { session }) => verify_session(&session),
            Ok(ServerEvent::Error(error)) => Err(
                Error::from_text(concat2("Failed to create the session: ", error.message.as_str())),
            ),
            Ok(_) => Err(
                Error::new("Received an unexpected event in response to the session creation"),
            ),
        },
        Some(Ok(_)) => Err(Error::new("Failed to receive the initial message")),
    }
}

/// The settings that the parameters ask for.
pub open spec fn initial_settings(
    params: Params,
    transcription: TranscriptionSettings,
) -> SessionSettingsView {
    SessionSettingsView {
        instructions: opt_view(params.instructions),
        input_transcription_model: if transcription.input {
            Some("gpt-realtime-whisper"@)
        } else {
            None
        },
        voice: opt_view(params.voice),
        speed_percent: speed_of(params.voice),
        tools: if params.tools@.len() > 0 {
            Some(json_texts(params.tools@))
        } else {
            None
        },
        tool_choice: opt_json_text(params.tool_choice),
    }
}

/// Whether any setting is asked for.
pub open spec fn asks_for_anything(settings: SessionSettingsView) -> bool {
    settings.instructions is Some || settings.input_transcription_model is Some
        || settings.voice is Some || settings.tools is Some || settings.tool_choice is Some
}

/// The update of the session that a dialog begins with, if the parameters ask for anything.
pub fn initial_session_update(params: Params, transcription: TranscriptionSettings) -> (r: Option<
    SessionSettings,
>)
    ensures
        r is Some <==> asks_for_anything(initial_settings(params, transcription)),
        r matches Some(settings) ==> settings@ == initial_settings(params, transcription),
{
    let mut send_update = false;
    let mut input_transcription_model: Option<String> = None;
    let mut tools: Option<Vec<Value>> = None;
    if params.instructions.is_some() {
        send_update = true;
    }
    if params.voice.is_some() {
        send_update = true;
    }
    if transcription.input {
        input_transcription_model = Some("gpt-realtime-whisper".to_owned());
        send_update = true;
    }
    if params.tools.len() > 0 {
        tools = Some(params.tools);
        send_update = true;
    }
    if params.tool_choice.is_some() {
        send_update = true;
    }
    if send_update {
        let speed_percent = usual_speed(&params.voice);
        Some(
            SessionSettings {
                instructions: params.instructions,
                input_transcription_model,
                voice: params.voice,
                speed_percent,
                tools,
                tool_choice: params.tool_choice,
            },
        )
    } else {
        None
    }
}

} // verus!

//! What a conversation takes in and puts out.

use vstd::prelude::*;

use crate::audio::AudioFormat;

verus! {

/// A kind of input.
#[derive(Debug, Clone, Copy, PartialEq, Eq, Structural)]
pub enum InputModality {
    Audio { format: AudioFormat },
    Text,
}

impl InputModality {
    /// Whether audio in the given format can come in.
    pub open spec fn takes(self, format: AudioFormat) -> bool {
        self == (InputModality::Audio { format })
    }

    /// Whether audio in the given format can come in.
    pub fn can_receive_audio(&self, format: AudioFormat) -> (r: bool)
        ensures
            r == self.takes(format),
    {
        match self {
            InputModality::Audio { format: expected } => *expected == format,
            InputModality::Text => false,
        }
    }
}

/// A kind of output.
#[derive(Debug, Clone, Copy, PartialEq, Eq, Structural)]
pub enum OutputModality {
    Audio { format: AudioFormat },
    Text,
    /// Text that is not final, and is replaced by what follows.
    InterimText,
}

/// Audio is taken by a conversation with audio of the same channels and the same sample rate only.
pub proof fn law_audio_of_the_same_format_is_taken(modality: InputModality, format: AudioFormat)
    ensures
        modality.takes(format) <==> (modality matches InputModality::Audio { format: own }
            && own.channels == format.channels && own.sample_rate == format.sample_rate),
{
}

} // verus!

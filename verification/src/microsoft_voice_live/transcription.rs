//! Transcripts that grow while audio comes in.

use vstd::prelude::*;

use crate::openai_dialog::transcription::extend_buffer;
use crate::openai_dialog::transcription::finish_buffer;
use crate::openai_dialog::transcription::so_far;
use crate::openai_dialog::transcription::unless_empty;
use crate::openai_dialog::transcription::whole_transcript;
use crate::openai_dialog::transcription::InputPart;
use crate::openai_dialog::transcription::InputTranscriptionKey;
use crate::table::Table;
use crate::text::opt_view;

verus! {

/// The transcripts that are still growing.
pub struct TranscriptionState {
    input_transcription_buffers: Table<InputTranscriptionKey, String>,
}

impl View for TranscriptionState {
    type V = Map<InputPart, Seq<char>>;

    closed spec fn view(&self) -> Map<InputPart, Seq<char>> {
        self.input_transcription_buffers@
    }
}

impl Default for TranscriptionState {
    fn default() -> (r: TranscriptionState)
        ensures
            r@ == Map::<InputPart, Seq<char>>::empty(),
    {
        TranscriptionState { input_transcription_buffers: Table::new() }
    }
}

impl TranscriptionState {
    /// Adds `delta` to the transcript of a part and returns the transcript so far.
    pub fn apply_input_delta(&mut self, item_id: String, content_index: u32, delta: String) -> (r:
        String)
        ensures
            r@ == so_far(old(self)@, InputPart { item: item_id@, content: content_index }) + delta@,
            final(self)@ == old(self)@.insert(
                InputPart { item: item_id@, content: content_index },
                r@,
            ),
    {
        let key = InputTranscriptionKey::new(item_id, content_index);
        extend_buffer(&mut self.input_transcription_buffers, key, delta)
    }

    /// Ends the transcript of a part and returns it, unless it is empty.
    pub fn complete_input_transcription(
        &mut self,
        item_id: String,
        content_index: u32,
        transcript: String,
    ) -> (r: Option<String>)
        ensures
            opt_view(r) == unless_empty(
                whole_transcript(
                    old(self)@,
                    InputPart { item: item_id@, content: content_index },
                    transcript@,
                ),
            ),
            final(self)@ == old(self)@.remove(InputPart { item: item_id@, content: content_index }),
    {
        let key = InputTranscriptionKey::new(item_id, content_index);
        finish_buffer(&mut self.input_transcription_buffers, key, transcript)
    }
}

} // verus!

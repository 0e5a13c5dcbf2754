//! Transcripts that grow while audio comes in or goes out.

use vstd::prelude::*;

use crate::table::Key;
use crate::table::KeyFilter;
use crate::table::Table;
use crate::text::same_text;

verus! {

/// Which directions of a dialog are transcribed.
#[derive(Debug, Clone, Copy, PartialEq, Eq, Structural)]
pub struct TranscriptionSettings {
    pub input: bool,
    pub output: bool,
}

/// The part of an input item that a transcript belongs to.
pub struct InputTranscriptionKey {
    pub item_id: String,
    pub content_index: u32,
}

/// The part of an output item that a transcript belongs to.
pub struct OutputTranscriptionKey {
    pub item_id: String,
    pub output_index: u32,
    pub content_index: u32,
}

/// A part of an input item: the item and the index of the content.
pub struct InputPart {
    pub item: Seq<char>,
    pub content: u32,
}

/// A part of an output item: the item, and the indices of the output and of the content.
pub struct OutputPart {
    pub item: Seq<char>,
    pub output: u32,
    pub content: u32,
}

impl View for InputTranscriptionKey {
    type V = InputPart;

    open spec fn view(&self) -> InputPart {
        InputPart { item: self.item_id@, content: self.content_index }
    }
}

impl View for OutputTranscriptionKey {
    type V = OutputPart;

    open spec fn view(&self) -> OutputPart {
        OutputPart {
            item: self.item_id@,
            output: self.output_index,
            content: self.content_index,
        }
    }
}

impl InputTranscriptionKey {
    /// The key of a part of an input item.
    pub fn new(item_id: String, content_index: u32) -> (r: InputTranscriptionKey)
        ensures
            r@ == (InputPart { item: item_id@, content: content_index }),
    {
        InputTranscriptionKey { item_id, content_index }
    }
}

impl OutputTranscriptionKey {
    /// The key of a part of an output item.
    pub fn new(item_id: String, output_index: u32, content_index: u32) -> (r:
        OutputTranscriptionKey)
        ensures
            r@ == (OutputPart { item: item_id@, output: output_index, content: content_index }),
    {
        OutputTranscriptionKey { item_id, output_index, content_index }
    }
}

impl Key for InputTranscriptionKey {
    fn same(&self, other: &Self) -> (r: bool) {
        same_text(self.item_id.as_str(), other.item_id.as_str()) && self.content_index
            == other.content_index
    }
}

impl Key for OutputTranscriptionKey {
    fn same(&self, other: &Self) -> (r: bool) {
        same_text(self.item_id.as_str(), other.item_id.as_str()) && self.output_index
            == other.output_index && self.content_index == other.content_index
    }
}

/// Picks out every part of one item.
struct OfItem<'a> {
    item_id: &'a str,
}

impl<'a> KeyFilter<InputTranscriptionKey> for OfItem<'a> {
    closed spec fn picks(&self, k: InputPart) -> bool {
        k.item == self.item_id@
    }

    fn test(&self, key: &InputTranscriptionKey) -> (r: bool) {
        same_text(key.item_id.as_str(), self.item_id)
    }
}

impl<'a> KeyFilter<OutputTranscriptionKey> for OfItem<'a> {
    closed spec fn picks(&self, k: OutputPart) -> bool {
        k.item == self.item_id@
    }

    fn test(&self, key: &OutputTranscriptionKey) -> (r: bool) {
        same_text(key.item_id.as_str(), self.item_id)
    }
}

/// Picks out the parts of one item with one content index, whatever their output index.
struct OfContent<'a> {
    item_id: &'a str,
    content_index: u32,
}

impl<'a> KeyFilter<OutputTranscriptionKey> for OfContent<'a> {
    closed spec fn picks(&self, k: OutputPart) -> bool {
        k.item == self.item_id@ && k.content == self.content_index
    }

    fn test(&self, key: &OutputTranscriptionKey) -> (r: bool) {
        same_text(key.item_id.as_str(), self.item_id) && key.content_index == self.content_index
    }
}

/// The transcripts that are still growing.
pub struct TranscriptionState {
    input_transcription_buffers: Table<InputTranscriptionKey, String>,
    output_transcription_buffers: Table<OutputTranscriptionKey, String>,
    output_transcription_responses: Table<String, ()>,
}

/// The transcripts so far, and the responses that have sent transcripts and are not done.
pub struct Transcripts {
    pub input: Map<InputPart, Seq<char>>,
    pub output: Map<OutputPart, Seq<char>>,
    pub responses: Set<Seq<char>>,
}

impl View for TranscriptionState {
    type V = Transcripts;

    closed spec fn view(&self) -> Transcripts {
        Transcripts {
            input: self.input_transcription_buffers@,
            output: self.output_transcription_buffers@,
            responses: self.output_transcription_responses@.dom(),
        }
    }
}

/// What was transcribed so far for a part.
pub open spec fn so_far<K>(buffers: Map<K, Seq<char>>, part: K) -> Seq<char> {
    if buffers.contains_key(part) {
        buffers[part]
    } else {
        Seq::empty()
    }
}

/// The whole transcript of a part: the one that the service sends at its end, or, if that is
/// empty, what was collected.
pub open spec fn whole_transcript<K>(
    buffers: Map<K, Seq<char>>,
    part: K,
    transcript: Seq<char>,
) -> Seq<char> {
    if transcript.len() > 0 {
        transcript
    } else {
        so_far(buffers, part)
    }
}

/// A text that is there only if it is not empty.
pub open spec fn unless_empty(text: Seq<char>) -> Option<Seq<char>> {
    if text.len() > 0 {
        Some(text)
    } else {
        None
    }
}

impl Transcripts {
    /// No transcripts.
    pub open spec fn none() -> Transcripts {
        Transcripts { input: Map::empty(), output: Map::empty(), responses: Set::empty() }
    }

    /// With `delta` added to the transcript of an input part.
    pub open spec fn input_added(self, part: InputPart, delta: Seq<char>) -> Transcripts {
        Transcripts { input: self.input.insert(part, so_far(self.input, part) + delta), ..self }
    }

    /// Without the transcript of an input part.
    pub open spec fn input_ended(self, part: InputPart) -> Transcripts {
        Transcripts { input: self.input.remove(part), ..self }
    }

    /// With `delta` added to the transcript of an output part of a response.
    pub open spec fn output_added(
        self,
        response: Seq<char>,
        part: OutputPart,
        delta: Seq<char>,
    ) -> Transcripts {
        Transcripts {
            output: self.output.insert(part, so_far(self.output, part) + delta),
            responses: self.responses.insert(response),
            ..self
        }
    }

    /// Without the transcript of an output part, with its response taken note of.
    pub open spec fn output_ended(self, response: Seq<char>, part: OutputPart) -> Transcripts {
        Transcripts {
            output: self.output.remove(part),
            responses: self.responses.insert(response),
            ..self
        }
    }

    /// Without the note of a response.
    pub open spec fn response_ended(self, response: Seq<char>) -> Transcripts {
        Transcripts { responses: self.responses.remove(response), ..self }
    }

    /// Without the transcripts of every part of the given items.
    pub open spec fn without_items(self, items: Set<Seq<char>>) -> Transcripts {
        Transcripts {
            input: self.input.remove_keys(
                self.input.dom().filter(|k: InputPart| items.contains(k.item)),
            ),
            output: self.output.remove_keys(
                self.output.dom().filter(|k: OutputPart| items.contains(k.item)),
            ),
            ..self
        }
    }

    /// Without the transcripts of the parts of an item that have the given content index.
    pub open spec fn without_content(self, item: Seq<char>, content: u32) -> Transcripts {
        Transcripts {
            input: self.input.remove(InputPart { item, content }),
            output: self.output.remove_keys(
                self.output.dom().filter(|k: OutputPart| k.item == item && k.content == content),
            ),
            ..self
        }
    }
}

impl Default for TranscriptionState {
    fn default() -> (r: TranscriptionState)
        ensures
            r@ == Transcripts::none(),
    {
        let r = TranscriptionState {
            input_transcription_buffers: Table::new(),
            output_transcription_buffers: Table::new(),
            output_transcription_responses: Table::new(),
        };
        assert(r@.responses =~= Set::<Seq<char>>::empty());
        r
    }
}

/// Takes the transcript of a part out of the buffers and appends `delta` to it.
pub(crate) fn extend_buffer<K: Key>(buffers: &mut Table<K, String>, key: K, delta: String) -> (r: String)
    ensures
        r@ == so_far(old(buffers)@, key@) + delta@,
        final(buffers)@ == old(buffers)@.insert(key@, r@),
{
    let mut text = match buffers.remove(&key) {
        Some(text) => text,
        None => String::new(),
    };
    text.append(delta.as_str());
    let r = text.clone();
    let _ = buffers.insert(key, text);
    assert(buffers@ =~= old(buffers)@.insert(key@, r@));
    r
}

/// Takes the transcript of a part out of the buffers, or the one that the service sent.
pub(crate) fn finish_buffer<K: Key>(buffers: &mut Table<K, String>, key: K, transcript: String) -> (r: Option<
    String,
>)
    ensures
        crate::text::opt_view(r) == unless_empty(
            whole_transcript(old(buffers)@, key@, transcript@),
        ),
        final(buffers)@ == old(buffers)@.remove(key@),
{
    let removed = buffers.remove(&key);
    let text = if transcript.as_str().is_empty() {
        match removed {
            Some(text) => text,
            None => String::new(),
        }
    } else {
        transcript
    };
    if text.as_str().is_empty() {
        None
    } else {
        Some(text)
    }
}

impl TranscriptionState {
    /// Adds `delta` to the transcript of an input part and returns the transcript so far.
    pub fn apply_input_delta(&mut self, item_id: String, content_index: u32, delta: String) -> (r:
        String)
        ensures
            final(self)@ == old(self)@.input_added(
                InputPart { item: item_id@, content: content_index },
                delta@,
            ),
            r@ == final(self)@.input[InputPart { item: item_id@, content: content_index }],
    {
        let key = InputTranscriptionKey::new(item_id, content_index);
        extend_buffer(&mut self.input_transcription_buffers, key, delta)
    }

    /// Ends the transcript of an input part and returns it, unless it is empty.
    pub fn complete_input_transcription(
        &mut self,
        item_id: String,
        content_index: u32,
        transcript: String,
    ) -> (r: Option<String>)
        ensures
            crate::text::opt_view(r) == unless_empty(
                whole_transcript(
                    old(self)@.input,
                    InputPart { item: item_id@, content: content_index },
                    transcript@,
                ),
            ),
            final(self)@ == old(self)@.input_ended(
                InputPart { item: item_id@, content: content_index },
            ),
    {
        let key = InputTranscriptionKey::new(item_id, content_index);
        finish_buffer(&mut self.input_transcription_buffers, key, transcript)
    }

    /// Takes note of a response.
    fn note_response(&mut self, response_id: String)
        ensures
            final(self)@ == (Transcripts {
                responses: old(self)@.responses.insert(response_id@),
                ..old(self)@
            }),
    {
        let _ = self.output_transcription_responses.insert(response_id, ());
        assert(self@.responses =~= old(self)@.responses.insert(response_id@));
    }

    /// Adds `delta` to the transcript of an output part and returns the transcript so far.
    pub fn apply_output_delta(
        &mut self,
        response_id: String,
        item_id: String,
        output_index: u32,
        content_index: u32,
        delta: String,
    ) -> (r: String)
        ensures
            final(self)@ == old(self)@.output_added(
                response_id@,
                OutputPart { item: item_id@, output: output_index, content: content_index },
                delta@,
            ),
            r@ == final(self)@.output[OutputPart {
                item: item_id@,
                output: output_index,
                content: content_index,
            }],
    {
        self.note_response(response_id);
        let key = OutputTranscriptionKey::new(item_id, output_index, content_index);
        extend_buffer(&mut self.output_transcription_buffers, key, delta)
    }

    /// Ends the transcript of an output part and returns it, unless it is empty.
    pub fn complete_output_transcription(
        &mut self,
        response_id: String,
        item_id: String,
        output_index: u32,
        content_index: u32,
        transcript: String,
    ) -> (r: Option<String>)
        ensures
            crate::text::opt_view(r) == unless_empty(
                whole_transcript(
                    old(self)@.output,
                    OutputPart { item: item_id@, output: output_index, content: content_index },
                    transcript@,
                ),
            ),
            final(self)@ == old(self)@.output_ended(
                response_id@,
                OutputPart { item: item_id@, output: output_index, content: content_index },
            ),
    {
        self.note_response(response_id);
        let key = OutputTranscriptionKey::new(item_id, output_index, content_index);
        finish_buffer(&mut self.output_transcription_buffers, key, transcript)
    }

    /// Forgets that a response has sent transcripts.
    pub fn clear_output_response_tracking(&mut self, response_id: &str)
        ensures
            final(self)@ == old(self)@.response_ended(response_id@),
    {
        let key = response_id.to_owned();
        let _ = self.output_transcription_responses.remove(&key);
        assert(self@.responses =~= old(self)@.responses.remove(response_id@));
    }

    /// Forgets the transcripts of every part of an item.
    pub fn clear_item(&mut self, item_id: &str)
        ensures
            final(self)@ == old(self)@.without_items(set![item_id@]),
    {
        let filter = OfItem { item_id };
        self.input_transcription_buffers.remove_picked(&filter);
        self.output_transcription_buffers.remove_picked(&filter);
        assert(self@.input =~= old(self)@.without_items(set![item_id@]).input);
        assert(self@.output =~= old(self)@.without_items(set![item_id@]).output);
    }

    /// Forgets the transcripts of the parts of an item that have the given content index.
    pub fn clear_content_index(&mut self, item_id: String, content_index: u32)
        ensures
            final(self)@ == old(self)@.without_content(item_id@, content_index),
    {
        let filter = OfContent { item_id: item_id.as_str(), content_index };
        self.output_transcription_buffers.remove_picked(&filter);
        assert(self@.output =~= old(self)@.without_content(item_id@, content_index).output);
        let key = InputTranscriptionKey::new(item_id.clone(), content_index);
        let _ = self.input_transcription_buffers.remove(&key);
    }
}

impl Transcripts {
    /// With several pieces added to the transcript of an input part, one after the other.
    pub open spec fn inputs_added(self, part: InputPart, deltas: Seq<Seq<char>>) -> Transcripts
        decreases deltas.len(),
    {
        if deltas.len() == 0 {
            self
        } else {
            self.inputs_added(part, deltas.drop_last()).input_added(part, deltas.last())
        }
    }

    /// With several pieces added to the transcript of an output part, one after the other.
    pub open spec fn outputs_added(
        self,
        response: Seq<char>,
        part: OutputPart,
        deltas: Seq<Seq<char>>,
    ) -> Transcripts
        decreases deltas.len(),
    {
        if deltas.len() == 0 {
            self
        } else {
            self.outputs_added(response, part, deltas.drop_last()).output_added(
                response,
                part,
                deltas.last(),
            )
        }
    }
}

/// All pieces, one after the other.
pub open spec fn all_of(deltas: Seq<Seq<char>>) -> Seq<char>
    decreases deltas.len(),
{
    if deltas.len() == 0 {
        Seq::empty()
    } else {
        all_of(deltas.drop_last()) + deltas.last()
    }
}

/// The transcript of an input part is all its pieces in order, and this is what an end without a
/// transcript of its own gives.
pub proof fn law_input_pieces_add_up(t: Transcripts, part: InputPart, deltas: Seq<Seq<char>>)
    ensures
        so_far(t.inputs_added(part, deltas).input, part) == so_far(t.input, part) + all_of(deltas),
        whole_transcript(t.inputs_added(part, deltas).input, part, Seq::empty()) == so_far(
            t.input,
            part,
        ) + all_of(deltas),
        forall|other: InputPart|
            other != part ==> so_far(#[trigger] t.inputs_added(part, deltas).input, other)
                == so_far(t.input, other),
        t.inputs_added(part, deltas).output == t.output,
    decreases deltas.len(),
{
    if deltas.len() > 0 {
        law_input_pieces_add_up(t, part, deltas.drop_last());
    }
    assert(so_far(t.inputs_added(part, deltas).input, part) =~= so_far(t.input, part) + all_of(
        deltas,
    ));
}

/// The transcript of an output part is all its pieces in order, and this is what an end without a
/// transcript of its own gives.
pub proof fn law_output_pieces_add_up(
    t: Transcripts,
    response: Seq<char>,
    part: OutputPart,
    deltas: Seq<Seq<char>>,
)
    ensures
        so_far(t.outputs_added(response, part, deltas).output, part) == so_far(t.output, part)
            + all_of(deltas),
        whole_transcript(t.outputs_added(response, part, deltas).output, part, Seq::empty())
            == so_far(t.output, part) + all_of(deltas),
        t.outputs_added(response, part, deltas).input == t.input,
    decreases deltas.len(),
{
    if deltas.len() > 0 {
        law_output_pieces_add_up(t, response, part, deltas.drop_last());
    }
    assert(so_far(t.outputs_added(response, part, deltas).output, part) =~= so_far(t.output, part)
        + all_of(deltas));
}

/// An ended transcript is forgotten: the part starts from nothing if it is used again.
pub proof fn law_ended_transcripts_are_forgotten(
    t: Transcripts,
    input: InputPart,
    response: Seq<char>,
    output: OutputPart,
)
    ensures
        so_far(t.input_ended(input).input, input) == Seq::<char>::empty(),
        so_far(t.output_ended(response, output).output, output) == Seq::<char>::empty(),
        t.output_ended(response, output).responses.contains(response),
        !t.output_ended(response, output).response_ended(response).responses.contains(response),
{
}

/// Forgetting items drops the transcripts of all their parts and touches no others.
pub proof fn law_only_the_items_are_forgotten(
    t: Transcripts,
    items: Set<Seq<char>>,
    input: InputPart,
    output: OutputPart,
)
    ensures
        t.without_items(items).input.contains_key(input) <==> t.input.contains_key(input)
            && !items.contains(input.item),
        t.without_items(items).output.contains_key(output) <==> t.output.contains_key(output)
            && !items.contains(output.item),
        !items.contains(input.item) ==> so_far(t.without_items(items).input, input) == so_far(
            t.input,
            input,
        ),
        !items.contains(output.item) ==> so_far(t.without_items(items).output, output) == so_far(
            t.output,
            output,
        ),
{
}

/// Pieces are collected for the part that they belong to, and a transcript stands for its pieces
/// unless it is empty. No other part is touched.
pub proof fn law_kept_transcripts(
    a: &mut TranscriptionState,
    b: &mut TranscriptionState,
    c: &mut TranscriptionState,
    d: &mut TranscriptionState,
    response_id: String,
    item_id: String,
    output_index: u32,
    content_index: u32,
    text: String,
    heard: String,
    all_heard: Option<String>,
    told: String,
    all_told: Option<String>,
)
    requires
        call_ensures(
            TranscriptionState::apply_input_delta,
            (a, item_id, content_index, text),
            heard,
        ),
        call_ensures(
            TranscriptionState::complete_input_transcription,
            (b, item_id, content_index, text),
            all_heard,
        ),
        call_ensures(
            TranscriptionState::apply_output_delta,
            (c, response_id, item_id, output_index, content_index, text),
            told,
        ),
        call_ensures(
            TranscriptionState::complete_output_transcription,
            (d, response_id, item_id, output_index, content_index, text),
            all_told,
        ),
    ensures
        ({
            let part = InputPart { item: item_id@, content: content_index };
            let known = old(a)@.input.contains_key(part);
            &&& known ==> heard@ == old(a)@.input[part] + text@
            &&& !known ==> heard@ == text@
            &&& final(a)@.input == old(a)@.input.insert(part, heard@)
            &&& final(a)@.output == old(a)@.output
            &&& final(a)@.responses == old(a)@.responses
            &&& text@.len() > 0 ==> all_heard is Some && all_heard->0@ == text@
            &&& text@.len() == 0 && old(b)@.input.contains_key(part) && old(b)@.input[part].len()
                > 0 ==> all_heard is Some && all_heard->0@ == old(b)@.input[part]
            &&& text@.len() == 0 && !(old(b)@.input.contains_key(part) && old(
                b)@.input[part].len() > 0) ==> all_heard is None
            &&& final(b)@.input == old(b)@.input.remove(part)
            &&& final(b)@.output == old(b)@.output
        }),
        ({
            let part = OutputPart { item: item_id@, output: output_index, content: content_index };
            let known = old(c)@.output.contains_key(part);
            &&& known ==> told@ == old(c)@.output[part] + text@
            &&& !known ==> told@ == text@
            &&& final(c)@.output == old(c)@.output.insert(part, told@)
            &&& final(c)@.input == old(c)@.input
            &&& final(c)@.responses.contains(response_id@)
            &&& text@.len() > 0 ==> all_told is Some && all_told->0@ == text@
            &&& text@.len() == 0 && old(d)@.output.contains_key(part) && old(d)@.output[part].len()
                > 0 ==> all_told is Some && all_told->0@ == old(d)@.output[part]
            &&& text@.len() == 0 && !(old(d)@.output.contains_key(part) && old(
                d)@.output[part].len() > 0) ==> all_told is None
            &&& final(d)@.output == old(d)@.output.remove(part)
            &&& final(d)@.input == old(d)@.input
        }),
{
    assert(Seq::<char>::empty() + text@ =~= text@);
}

} // verus!

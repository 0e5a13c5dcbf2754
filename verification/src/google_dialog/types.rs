//! Parameters, tools, and the events of the service.

use vstd::prelude::*;

use serde_json::Value;

use crate::error::Error;
use crate::json::clone_json;
use crate::json::json_text;
use crate::json::write_json;
use crate::text::concat2;
use crate::text::concat3;
use crate::text::eq_ignore_ascii_case;
use crate::text::join;
use crate::text::joined;
use crate::text::same_but_for_case;
use crate::text::texts;

verus! {

/// How much the model thinks before it answers.
#[derive(Debug, Clone, Copy, PartialEq, Eq, Structural)]
pub enum ThinkingLevel {
    Minimal,
    Low,
    Medium,
    High,
}

/// Whether the model waits for the result of a function.
#[derive(Debug, Clone, Copy, PartialEq, Eq, Structural)]
pub enum FunctionBehavior {
    Blocking,
    NonBlocking,
}

/// When the model takes up the result of a function that it did not wait for.
#[derive(Debug, Clone, Copy, PartialEq, Eq, Structural)]
pub enum FunctionResponseScheduling {
    Interrupt,
    WhenIdle,
    Silent,
}

/// The style of a transcript.
#[derive(Debug, Clone, Copy, PartialEq, Eq, Structural)]
pub enum TranscriptionMode {
    Verbatim,
    Smart,
}

/// A function that the model may call.
pub struct FunctionDeclaration {
    pub name: String,
    pub description: String,
    /// The JSON schema of the parameters.
    pub parameters: Value,
    pub scheduling: Option<FunctionResponseScheduling>,
    pub behavior: Option<FunctionBehavior>,
}

/// Something that the model may use.
pub enum Tool {
    FunctionDeclarations(Vec<FunctionDeclaration>),
    /// A tool that the model's host runs.
    Hosted(Value),
}

/// A function that the model may call, as mathematical values.
pub struct DeclarationView {
    pub name: Seq<char>,
    pub description: Seq<char>,
    pub parameters: Seq<char>,
    pub scheduling: Option<FunctionResponseScheduling>,
    pub behavior: Option<FunctionBehavior>,
}

/// Something that the model may use, as mathematical values.
pub enum ToolView {
    FunctionDeclarations(Seq<DeclarationView>),
    Hosted(Seq<char>),
}

impl View for FunctionDeclaration {
    type V = DeclarationView;

    open spec fn view(&self) -> DeclarationView {
        DeclarationView {
            name: self.name@,
            description: self.description@,
            parameters: json_text(self.parameters),
            scheduling: self.scheduling,
            behavior: self.behavior,
        }
    }
}

/// The views of a list of declarations.
pub open spec fn declarations_view(declarations: Seq<FunctionDeclaration>) -> Seq<DeclarationView> {
    declarations.map_values(|d: FunctionDeclaration| d@)
}

impl View for Tool {
    type V = ToolView;

    open spec fn view(&self) -> ToolView {
        match *self {
            Tool::FunctionDeclarations(declarations) => ToolView::FunctionDeclarations(
                declarations_view(declarations@),
            ),
            Tool::Hosted(tool) => ToolView::Hosted(json_text(tool)),
        }
    }
}

/// The views of a list of tools.
pub open spec fn tools_view(tools: Seq<Tool>) -> Seq<ToolView> {
    tools.map_values(|t: Tool| t@)
}

impl FunctionDeclaration {
    /// A copy.
    pub fn copy(&self) -> (r: FunctionDeclaration)
        ensures
            r@ == self@,
    {
        FunctionDeclaration {
            name: self.name.clone(),
            description: self.description.clone(),
            parameters: clone_json(&self.parameters),
            scheduling: self.scheduling,
            behavior: self.behavior,
        }
    }
}

/// The parameters of a dialog.
pub struct Params {
    /// The key for access when not routed through the Agent Platform.
    pub api_key: Option<String>,
    /// The model's name without a resource prefix.
    pub model: String,
    /// The project for the Agent Platform. With a location, too, the model is addressed there.
    pub project: Option<String>,
    /// The location for the Agent Platform. With a project, too, and without an explicit endpoint,
    /// the endpoint of this location is used.
    pub location: Option<String>,
    pub endpoint: Option<String>,
    pub instructions: Option<String>,
    pub voice: Option<String>,
    /// The bits of the sampling temperature, a 32 bit floating point number from 0 to 2.
    pub temperature_bits: Option<u32>,
    pub thinking_level: Option<ThinkingLevel>,
    /// On by default, so that long audio sessions do not exhaust the context window.
    pub context_window_compression: bool,
    pub tools: Vec<Tool>,
    /// How realtime input behaves, as the host of the model defines it.
    pub realtime_input_config: Option<Value>,
    pub input_audio_transcription: bool,
    /// BCP 47 codes of the languages to expect.
    pub input_audio_transcription_language_codes: Vec<String>,
    pub input_audio_transcription_mode: TranscriptionMode,
    pub output_audio_transcription: bool,
    pub output_audio_transcription_mode: TranscriptionMode,
}

/// Whether the context window is compressed if nothing is said about it.
pub fn default_context_window_compression() -> (r: bool)
    ensures
        r,
{
    true
}

/// The style of transcripts if nothing is said about it.
pub fn default_transcription_mode() -> (r: TranscriptionMode)
    ensures
        r == TranscriptionMode::Verbatim,
{
    TranscriptionMode::Verbatim
}

impl Params {
    /// Parameters with a model and everything else at its default.
    pub fn new(model: &str) -> (r: Params)
        ensures
            r.model@ == model@,
            r.api_key is None && r.project is None && r.location is None && r.endpoint is None,
            r.instructions is None && r.voice is None && r.temperature_bits is None,
            r.thinking_level is None && r.realtime_input_config is None,
            r.context_window_compression,
            r.tools@.len() == 0 && r.input_audio_transcription_language_codes@.len() == 0,
            !r.input_audio_transcription && !r.output_audio_transcription,
            r.input_audio_transcription_mode == TranscriptionMode::Verbatim,
            r.output_audio_transcription_mode == TranscriptionMode::Verbatim,
    {
        Params {
            api_key: None,
            model: model.to_owned(),
            project: None,
            location: None,
            endpoint: None,
            instructions: None,
            voice: None,
            temperature_bits: None,
            thinking_level: None,
            context_window_compression: default_context_window_compression(),
            tools: Vec::new(),
            realtime_input_config: None,
            input_audio_transcription: false,
            input_audio_transcription_language_codes: Vec::new(),
            input_audio_transcription_mode: default_transcription_mode(),
            output_audio_transcription: false,
            output_audio_transcription_mode: default_transcription_mode(),
        }
    }
}

/// The prebuilt voices, in the documented order. All live models have the same ones.
pub open spec fn voice_names() -> Seq<Seq<char>> {
    seq![
        "Zephyr"@,
        "Puck"@,
        "Charon"@,
        "Kore"@,
        "Fenrir"@,
        "Leda"@,
        "Orus"@,
        "Aoede"@,
        "Callirrhoe"@,
        "Autonoe"@,
        "Enceladus"@,
        "Iapetus"@,
        "Umbriel"@,
        "Algieba"@,
        "Despina"@,
        "Erinome"@,
        "Algenib"@,
        "Rasalgethi"@,
        "Laomedeia"@,
        "Achernar"@,
        "Alnilam"@,
        "Schedar"@,
        "Gacrux"@,
        "Pulcherrima"@,
        "Achird"@,
        "Zubenelgenubi"@,
        "Vindemiatrix"@,
        "Sadachbia"@,
        "Sadaltager"@,
        "Sulafat"@,
    ]
}

fn push_name(names: &mut Vec<String>, name: &str)
    ensures
        texts(final(names)@) == texts(old(names)@).push(name@),
{
    names.push(name.to_owned());
    assert(texts(names@) =~= texts(old(names)@).push(name@));
}

/// The prebuilt voices, in the documented order.
pub fn voices() -> (r: Vec<String>)
    ensures
        texts(r@) == voice_names(),
{
    let mut r: Vec<String> = Vec::new();
    push_name(&mut r, "Zephyr");
    push_name(&mut r, "Puck");
    push_name(&mut r, "Charon");
    push_name(&mut r, "Kore");
    push_name(&mut r, "Fenrir");
    push_name(&mut r, "Leda");
    push_name(&mut r, "Orus");
    push_name(&mut r, "Aoede");
    push_name(&mut r, "Callirrhoe");
    push_name(&mut r, "Autonoe");
    push_name(&mut r, "Enceladus");
    push_name(&mut r, "Iapetus");
    push_name(&mut r, "Umbriel");
    push_name(&mut r, "Algieba");
    push_name(&mut r, "Despina");
    push_name(&mut r, "Erinome");
    push_name(&mut r, "Algenib");
    push_name(&mut r, "Rasalgethi");
    push_name(&mut r, "Laomedeia");
    push_name(&mut r, "Achernar");
    push_name(&mut r, "Alnilam");
    push_name(&mut r, "Schedar");
    push_name(&mut r, "Gacrux");
    push_name(&mut r, "Pulcherrima");
    push_name(&mut r, "Achird");
    push_name(&mut r, "Zubenelgenubi");
    push_name(&mut r, "Vindemiatrix");
    push_name(&mut r, "Sadachbia");
    push_name(&mut r, "Sadaltager");
    push_name(&mut r, "Sulafat");
    assert(texts(r@) =~= voice_names());
    r
}

/// The first of the names that is `value` but for the case of ASCII letters.
pub open spec fn matching_name(names: Seq<Seq<char>>, value: Seq<char>) -> Option<Seq<char>>
    decreases names.len(),
{
    if names.len() == 0 {
        None
    } else if same_but_for_case(names[0], value) {
        Some(names[0])
    } else {
        matching_name(names.drop_first(), value)
    }
}

/// The name of the voice that `value` means, written as documented; case does not matter.
pub fn parse_voice_value(value: &str) -> (r: Result<String, Error>)
    ensures
        r is Ok <==> matching_name(voice_names(), value@) is Some,
        r matches Ok(voice) ==> Some(voice@) == matching_name(voice_names(), value@),
        r matches Err(e) ==> e@ == seq![
            "Invalid Gemini voice `"@ + value@ + "`. Available voices: "@ + joined(
                voice_names(),
                ", "@,
            ),
        ],
{
    let names = voices();
    let mut i: usize = 0;
    assert(voice_names().skip(0) =~= voice_names());
    while i < names.len()
        invariant
            i <= names@.len(),
            texts(names@) == voice_names(),
            matching_name(voice_names(), value@) == matching_name(
                voice_names().skip(i as int),
                value@,
            ),
        decreases names@.len() - i,
    {
        proof {
            assert(texts(names@)[i as int] == names@[i as int]@);
            assert(voice_names().skip(i as int)[0] == names@[i as int]@);
            assert(voice_names().skip(i as int).drop_first() =~= voice_names().skip(i + 1));
        }
        if eq_ignore_ascii_case(names[i].as_str(), value) {
            return Ok(names[i].clone());
        }
        i += 1;
    }
    let available = join(&names, ", ");
    let mut message = concat3("Invalid Gemini voice `", value, "`. Available voices: ");
    message.append(available.as_str());
    Err(Error::from_text(message))
}

/// One entry of a list of tools, as far as it could be read.
pub struct RawTool {
    /// The entry as it came.
    pub entry: Value,
    /// The entry read as a tool in the form of the model's host, if it has that form.
    pub native: Option<Tool>,
    /// The entry read as a function in the form that OpenAI uses, if it has that form.
    pub function: Option<OpenAiFunctionTool>,
}

/// A function in the form that OpenAI uses.
pub struct OpenAiFunctionTool {
    pub name: String,
    pub description: String,
    pub parameters: Value,
}

/// The declaration of a function in the form that OpenAI uses.
pub open spec fn openai_declaration(function: OpenAiFunctionTool) -> DeclarationView {
    DeclarationView {
        name: function.name@,
        description: function.description@,
        parameters: json_text(function.parameters),
        scheduling: None,
        behavior: None,
    }
}

/// What an entry of a list of tools means.
pub enum Meaning {
    Native(ToolView),
    Function(DeclarationView),
    /// Nothing, with its JSON text.
    Unsupported(Seq<char>),
}

/// What an entry of a list of tools means: the form of the model's host comes first.
pub open spec fn meaning(raw: RawTool) -> Meaning {
    match (raw.native, raw.function) {
        (Some(tool), _) => Meaning::Native(tool@),
        (None, Some(function)) => Meaning::Function(openai_declaration(function)),
        (None, None) => Meaning::Unsupported(json_text(raw.entry)),
    }
}

/// The tools for a list of entries whose last ones are functions in the form that OpenAI uses, and
/// these functions.
pub struct Grouped {
    pub tools: Seq<ToolView>,
    pub pending: Seq<DeclarationView>,
}

impl Grouped {
    /// With the pending functions as one tool, if there are any.
    pub open spec fn flushed(self) -> Seq<ToolView> {
        if self.pending.len() > 0 {
            self.tools.push(ToolView::FunctionDeclarations(self.pending))
        } else {
            self.tools
        }
    }
}

/// Groups the entries: functions in the form that OpenAI uses that stand next to each other become
/// one tool, in the place where they stood.
pub open spec fn grouped(raw: Seq<RawTool>) -> Grouped
    decreases raw.len(),
{
    if raw.len() == 0 {
        Grouped { tools: Seq::empty(), pending: Seq::empty() }
    } else {
        let before = grouped(raw.drop_last());
        match meaning(raw.last()) {
            Meaning::Native(tool) => Grouped {
                tools: before.flushed().push(tool),
                pending: Seq::empty(),
            },
            Meaning::Function(declaration) => Grouped {
                pending: before.pending.push(declaration),
                ..before
            },
            Meaning::Unsupported(_) => before,
        }
    }
}

/// The first entry that is no tool.
pub open spec fn first_unsupported(raw: Seq<RawTool>) -> Option<Seq<char>>
    decreases raw.len(),
{
    if raw.len() == 0 {
        None
    } else {
        match meaning(raw[0]) {
            Meaning::Unsupported(text) => Some(text),
            _ => first_unsupported(raw.drop_first()),
        }
    }
}

fn push_pending(tools: &mut Vec<Tool>, pending: Vec<FunctionDeclaration>)
    ensures
        tools_view(final(tools)@) == (Grouped {
            tools: tools_view(old(tools)@),
            pending: declarations_view(pending@),
        }).flushed(),
{
    if pending.len() > 0 {
        tools.push(Tool::FunctionDeclarations(pending));
        assert(tools_view(tools@) =~= tools_view(old(tools)@).push(
            ToolView::FunctionDeclarations(declarations_view(pending@)),
        ));
    }
}

/// Makes tools from the entries of a list. Fails on the first entry that is no tool.
pub fn deserialize_tools(raw: Vec<RawTool>) -> (r: Result<Vec<Tool>, Error>)
    ensures
        r is Ok <==> first_unsupported(raw@) is None,
        r matches Ok(tools) ==> tools_view(tools@) == grouped(raw@).flushed(),
        r matches Err(e) ==> e@ == seq![
            "Unsupported tools entry format: "@ + first_unsupported(raw@)->0,
        ],
{
    let mut tools: Vec<Tool> = Vec::new();
    let mut pending: Vec<FunctionDeclaration> = Vec::new();
    let ghost all = raw@;
    assert(all.skip(0) =~= all);
    for entry in iter: raw
        invariant
            iter.seq() == all,
            tools_view(tools@) == grouped(all.take(iter.index() as int)).tools,
            declarations_view(pending@) == grouped(all.take(iter.index() as int)).pending,
            first_unsupported(all) == first_unsupported(all.skip(iter.index() as int)),
    {
        proof {
            let i = iter.index() as int;
            assert(all.take(i + 1).drop_last() =~= all.take(i));
            assert(all.take(i + 1).last() == entry);
            assert(all.skip(i)[0] == entry);
            assert(all.skip(i).drop_first() =~= all.skip(i + 1));
        }
        match (entry.native, entry.function) {
            (Some(tool), _) => {
                let mut flushed: Vec<FunctionDeclaration> = Vec::new();
                core::mem::swap(&mut flushed, &mut pending);
                push_pending(&mut tools, flushed);
                let ghost before = tools_view(tools@);
                tools.push(tool);
                assert(tools_view(tools@) =~= before.push(tool@));
                assert(declarations_view(pending@) =~= Seq::empty());
            },
            (None, Some(function)) => {
                let ghost before = declarations_view(pending@);
                pending.push(
                    FunctionDeclaration {
                        name: function.name,
                        description: function.description,
                        parameters: function.parameters,
                        scheduling: None,
                        behavior: None,
                    },
                );
                assert(declarations_view(pending@) =~= before.push(openai_declaration(function)));
            },
            (None, None) => {
                let text = write_json(&entry.entry);
                return Err(
                    Error::from_text(concat2("Unsupported tools entry format: ", text.as_str())),
                );
            },
        }
    }
    assert(all.take(all.len() as int) =~= all);
    push_pending(&mut tools, pending);
    Ok(tools)
}

/// What a participant can ask of the service.
pub enum ServiceInputEvent {
    /// The result of a function call.
    FunctionCallResult {
        call_id: String,
        output: Value,
        /// When the model takes it up, if it did not wait for it.
        scheduling: Option<FunctionResponseScheduling>,
    },
    /// An entry to append to the conversation's history. With `turn_complete` the model responds
    /// at once, which interrupts what it is saying.
    ClientContent { role: ClientContentRole, text: String, turn_complete: bool },
    /// Text that is taken as if the user had just said it.
    Prompt { text: String },
}

/// The author of an entry of the conversation's history.
#[derive(Debug, Clone, Copy, PartialEq, Eq, Structural)]
pub enum ClientContentRole {
    User,
    Model,
}

/// What the service reports.
pub enum ServiceOutputEvent {
    /// The model calls a function.
    FunctionCall { call_id: String, name: String, arguments: Value },
    /// The model no longer wants the result of a function.
    ToolCallCancellation { call_id: String },
    /// The model's turn is complete.
    TurnComplete,
    /// The model's turn ended while the interaction continues.
    InteractionInProgress,
}

/// What the service reports, as mathematical values.
pub enum ServiceOutputView {
    FunctionCall { call_id: Seq<char>, name: Seq<char>, arguments: Seq<char> },
    ToolCallCancellation { call_id: Seq<char> },
    TurnComplete,
    InteractionInProgress,
}

impl View for ServiceOutputEvent {
    type V = ServiceOutputView;

    open spec fn view(&self) -> ServiceOutputView {
        match *self {
            ServiceOutputEvent::FunctionCall { call_id, name, arguments } =>
                ServiceOutputView::FunctionCall {
                    call_id: call_id@,
                    name: name@,
                    arguments: json_text(arguments),
                },
            ServiceOutputEvent::ToolCallCancellation { call_id } =>
                ServiceOutputView::ToolCallCancellation { call_id: call_id@ },
            ServiceOutputEvent::TurnComplete => ServiceOutputView::TurnComplete,
            ServiceOutputEvent::InteractionInProgress => ServiceOutputView::InteractionInProgress,
        }
    }
}

/// A name that was found is found again, as it is.
pub proof fn law_found_voices_are_kept(names: Seq<Seq<char>>, value: Seq<char>)
    ensures
        matching_name(names, value) matches Some(name) ==> same_but_for_case(name, value)
            && names.contains(name) && matching_name(names, name) == Some(name),
    decreases names.len(),
{
    if names.len() > 0 {
        if same_but_for_case(names[0], value) {
            assert(names.contains(names[0]));
        } else {
            let rest = names.drop_first();
            law_found_voices_are_kept(rest, value);
            match matching_name(rest, value) {
                Some(name) => {
                    let i = choose|i: int| 0 <= i < rest.len() && rest[i] == name;
                    assert(names[i + 1] == name);
                },
                None => {},
            }
        }
    }
}

/// Every documented voice is known.
pub proof fn law_documented_voices_are_known(i: int)
    requires
        0 <= i < voice_names().len(),
    ensures
        matching_name(voice_names(), voice_names()[i]) is Some,
{
    lemma_listed_names_match(voice_names(), i);
}

proof fn lemma_listed_names_match(names: Seq<Seq<char>>, i: int)
    requires
        0 <= i < names.len(),
    ensures
        matching_name(names, names[i]) is Some,
    decreases names.len(),
{
    if i > 0 {
        lemma_listed_names_match(names.drop_first(), i - 1);
        assert(names.drop_first()[i - 1] == names[i]);
    }
}

/// All functions of the tools, in order.
pub open spec fn declared(tools: Seq<ToolView>) -> Seq<DeclarationView>
    decreases tools.len(),
{
    if tools.len() == 0 {
        Seq::empty()
    } else {
        declared(tools.drop_last()) + match tools.last() {
            ToolView::FunctionDeclarations(declarations) => declarations,
            ToolView::Hosted(_) => Seq::empty(),
        }
    }
}

/// All functions of the entries of a list, in order.
pub open spec fn listed(raw: Seq<RawTool>) -> Seq<DeclarationView>
    decreases raw.len(),
{
    if raw.len() == 0 {
        Seq::empty()
    } else {
        listed(raw.drop_last()) + match meaning(raw.last()) {
            Meaning::Native(ToolView::FunctionDeclarations(declarations)) => declarations,
            Meaning::Function(declaration) => seq![declaration],
            _ => Seq::empty(),
        }
    }
}

/// Grouping loses no function and changes no order.
pub proof fn law_grouping_keeps_functions(raw: Seq<RawTool>)
    ensures
        declared(grouped(raw).flushed()) == listed(raw),
        declared(grouped(raw).tools) + grouped(raw).pending == listed(raw),
    decreases raw.len(),
{
    let g = grouped(raw);
    if raw.len() > 0 {
        law_grouping_keeps_functions(raw.drop_last());
        let before = grouped(raw.drop_last());
        match meaning(raw.last()) {
            Meaning::Native(tool) => {
                assert(g.tools.drop_last() =~= before.flushed());
                assert(g.tools.last() == tool);
                assert(declared(g.tools) + g.pending =~= listed(raw));
            },
            Meaning::Function(_) => {
                assert(declared(g.tools) + g.pending =~= listed(raw));
            },
            Meaning::Unsupported(_) => {
                assert(listed(raw) =~= listed(raw.drop_last()));
            },
        }
    } else {
        assert(declared(g.tools) + g.pending =~= listed(raw));
    }
    if g.pending.len() > 0 {
        assert(g.flushed().drop_last() =~= g.tools);
        assert(declared(g.flushed()) =~= declared(g.tools) + g.pending);
    } else {
        assert(declared(g.flushed()) =~= declared(g.tools) + g.pending);
    }
}

} // verus!

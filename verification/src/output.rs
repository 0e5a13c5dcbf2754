//! What a service hands out in the course of a conversation.

use vstd::prelude::*;

use crate::audio::AudioFrame;
use crate::audio::FrameView;
use crate::text::opt_view;

verus! {

/// The path on which an output travels.
#[derive(Debug, Clone, Copy, PartialEq, Eq, Structural)]
pub enum OutputPath {
    /// Together with the audio, in order with it.
    Media,
    /// Beside the audio, as soon as possible.
    Control,
}

/// Who said a text.
#[derive(Debug)]
pub enum Speaker {
    /// The AI agent of a dialog.
    AiAgent,
    /// A speaker that the service names.
    Named(String),
}

/// A speaker's name as a sequence of characters.
pub enum SpeakerView {
    AiAgent,
    Named(Seq<char>),
}

impl View for Speaker {
    type V = SpeakerView;

    open spec fn view(&self) -> SpeakerView {
        match *self {
            Speaker::AiAgent => SpeakerView::AiAgent,
            Speaker::Named(name) => SpeakerView::Named(name@),
        }
    }
}

/// When billing records are handed to the billing collector.
#[derive(Debug, Clone, Copy, PartialEq, Eq, Structural)]
pub enum BillingSchedule {
    /// Right away.
    Now,
    /// When the media that was sent before has been played.
    Media,
}

/// What a billing record counts.
#[derive(Debug, Clone, Copy, PartialEq, Eq, Structural)]
pub enum BillingValue {
    /// A number of things.
    Count(u64),
    /// A duration in nanoseconds.
    Duration(u128),
}

/// One line of a bill.
#[derive(Debug)]
pub struct BillingRecord {
    pub name: String,
    pub value: BillingValue,
}

/// A billing record, its name as a sequence of characters.
pub struct RecordView {
    pub name: Seq<char>,
    pub value: BillingValue,
}

impl View for BillingRecord {
    type V = RecordView;

    open spec fn view(&self) -> RecordView {
        RecordView { name: self.name@, value: self.value }
    }
}

impl BillingRecord {
    /// A record of a number of things.
    pub fn count(name: &str, count: u64) -> (r: BillingRecord)
        ensures
            r@ == count_record(name@, count),
    {
        BillingRecord { name: name.to_owned(), value: BillingValue::Count(count) }
    }

    /// A record of a duration in nanoseconds.
    pub fn duration(name: &str, nanos: u128) -> (r: BillingRecord)
        ensures
            r@ == duration_record(name@, nanos),
    {
        BillingRecord { name: name.to_owned(), value: BillingValue::Duration(nanos) }
    }
}

/// A record of a number of things.
pub open spec fn count_record(name: Seq<char>, count: u64) -> RecordView {
    RecordView { name, value: BillingValue::Count(count) }
}

/// A record of a duration in nanoseconds.
pub open spec fn duration_record(name: Seq<char>, nanos: u128) -> RecordView {
    RecordView { name, value: BillingValue::Duration(nanos) }
}

/// The views of a list of records.
pub open spec fn records_view(records: Seq<BillingRecord>) -> Seq<RecordView> {
    records.map_values(|r: BillingRecord| r@)
}

/// One output of a service. `E` is the type of the service's own events,
/// which is `()` where it has none.
#[derive(Debug)]
pub enum Emission<E> {
    /// Audio to play.
    Audio(AudioFrame),
    /// Drop the audio that was sent but not played yet.
    ClearAudio,
    /// Recognized or generated text. Text that is not final is replaced by what follows.
    Text {
        is_final: bool,
        text: String,
        language: Option<String>,
        speaker: Option<Speaker>,
    },
    /// A request was processed.
    RequestCompleted { request_id: Option<String> },
    /// An event of the service's own.
    ServiceEvent { path: OutputPath, event: E },
    /// What to bill.
    BillingRecords {
        request_id: Option<String>,
        scope: Option<String>,
        records: Vec<BillingRecord>,
        schedule: BillingSchedule,
    },
}

/// One output, as mathematical values.
pub enum EmissionView<E> {
    Audio(FrameView),
    ClearAudio,
    Text {
        is_final: bool,
        text: Seq<char>,
        language: Option<Seq<char>>,
        speaker: Option<SpeakerView>,
    },
    RequestCompleted { request_id: Option<Seq<char>> },
    ServiceEvent { path: OutputPath, event: E },
    BillingRecords {
        request_id: Option<Seq<char>>,
        scope: Option<Seq<char>>,
        records: Seq<RecordView>,
        schedule: BillingSchedule,
    },
}

/// The view of an optional speaker.
pub open spec fn speaker_view(speaker: Option<Speaker>) -> Option<SpeakerView> {
    match speaker {
        Some(s) => Some(s@),
        None => None,
    }
}

impl<E: View> View for Emission<E> {
    type V = EmissionView<E::V>;

    open spec fn view(&self) -> EmissionView<E::V> {
        match *self {
            Emission::Audio(frame) => EmissionView::Audio(frame@),
            Emission::ClearAudio => EmissionView::ClearAudio,
            Emission::Text { is_final, text, language, speaker } => EmissionView::Text {
                is_final,
                text: text@,
                language: opt_view(language),
                speaker: speaker_view(speaker),
            },
            Emission::RequestCompleted { request_id } => EmissionView::RequestCompleted {
                request_id: opt_view(request_id),
            },
            Emission::ServiceEvent { path, event } => EmissionView::ServiceEvent {
                path,
                event: event@,
            },
            Emission::BillingRecords { request_id, scope, records, schedule } =>
                EmissionView::BillingRecords {
                    request_id: opt_view(request_id),
                    scope: opt_view(scope),
                    records: records_view(records@),
                    schedule,
                },
        }
    }
}

/// The views of a list of outputs.
pub open spec fn emissions<E: View>(out: Seq<Emission<E>>) -> Seq<EmissionView<E::V>> {
    out.map_values(|e: Emission<E>| e@)
}

/// Adds one output to the list.
pub fn emit<E: View>(out: &mut Vec<Emission<E>>, emission: Emission<E>)
    ensures
        emissions(final(out)@) == emissions(old(out)@).push(emission@),
        final(out)@ == old(out)@.push(emission),
{
    out.push(emission);
    assert(emissions(out@) =~= emissions(old(out)@).push(emission@));
}

/// Text that nobody is named for.
pub open spec fn plain_text<E>(is_final: bool, text: Seq<char>) -> EmissionView<E> {
    EmissionView::Text { is_final, text, language: None, speaker: None }
}

/// Text that the AI agent said.
pub open spec fn agent_text<E>(is_final: bool, text: Seq<char>) -> EmissionView<E> {
    EmissionView::Text { is_final, text, language: None, speaker: Some(SpeakerView::AiAgent) }
}

/// A bill that is sent right away.
pub open spec fn bill_now<E>(
    request_id: Option<Seq<char>>,
    scope: Option<Seq<char>>,
    records: Seq<RecordView>,
) -> EmissionView<E> {
    EmissionView::BillingRecords { request_id, scope, records, schedule: BillingSchedule::Now }
}

/// Adds a bill with one record of a duration, sent right away.
pub fn emit_duration_bill<E: View>(
    out: &mut Vec<Emission<E>>,
    request_id: Option<String>,
    scope: Option<String>,
    name: &str,
    nanos: u128,
)
    ensures
        emissions(final(out)@) == emissions(old(out)@).push(
            bill_now(opt_view(request_id), opt_view(scope), seq![duration_record(name@, nanos)]),
        ),
{
    let mut records: Vec<BillingRecord> = Vec::new();
    records.push(BillingRecord::duration(name, nanos));
    assert(records_view(records@) =~= seq![duration_record(name@, nanos)]);
    emit(
        out,
        Emission::BillingRecords { request_id, scope, records, schedule: BillingSchedule::Now },
    );
}

/// Everything that is put out is shown as it is.
pub proof fn law_emissions_are_shown<E: View>(e: Emission<E>)
    ensures
        match e {
            Emission::Audio(frame) => e@ == EmissionView::<E::V>::Audio(
                FrameView { format: frame.format, samples: frame.samples@ },
            ),
            Emission::ClearAudio => e@ is ClearAudio,
            Emission::Text { is_final, text, language, speaker } => {
                &&& e@ is Text
                &&& e@->is_final == is_final
                &&& e@->text == text@
                &&& e@->language is Some <==> language is Some
                &&& language is Some ==> e@->language->0 == language->0@
                &&& match speaker {
                    None => e@->speaker is None,
                    Some(Speaker::AiAgent) => e@->speaker == Some(SpeakerView::AiAgent),
                    Some(Speaker::Named(name)) => e@->speaker == Some(SpeakerView::Named(name@)),
                }
            },
            Emission::RequestCompleted { request_id } => {
                &&& e@ is RequestCompleted
                &&& e@->RequestCompleted_request_id is Some <==> request_id is Some
                &&& request_id is Some ==> e@->RequestCompleted_request_id->0 == request_id->0@
            },
            Emission::ServiceEvent { path, event } => e@ == EmissionView::ServiceEvent {
                path,
                event: event@,
            },
            Emission::BillingRecords { request_id, scope, records, schedule } => {
                &&& e@ is BillingRecords
                &&& e@->BillingRecords_request_id is Some <==> request_id is Some
                &&& request_id is Some ==> e@->BillingRecords_request_id->0 == request_id->0@
                &&& e@->scope is Some <==> scope is Some
                &&& scope is Some ==> e@->scope->0 == scope->0@
                &&& e@->schedule == schedule
                &&& e@->records.len() == records@.len()
                &&& forall|i: int|
                    0 <= i < records@.len() ==> (#[trigger] e@->records[i]).name
                        == records@[i].name@ && e@->records[i].value == records@[i].value
            },
        },
{
}

/// A list of what was put out shows each of it, in order.
pub proof fn law_emissions_keep_their_order<E: View>(out: Seq<Emission<E>>)
    ensures
        emissions(out).len() == out.len(),
        forall|i: int| 0 <= i < out.len() ==> #[trigger] emissions(out)[i] == out[i]@,
{
}

/// Records are counts or durations under their names. Bills that are due now say so, and texts of
/// the participant have no speaker while those of the agent have it.
pub proof fn law_records_and_texts<E>(
    name: Seq<char>,
    count: u64,
    nanos: u128,
    is_final: bool,
    text: Seq<char>,
    request_id: Option<Seq<char>>,
    scope: Option<Seq<char>>,
    records: Seq<RecordView>,
)
    ensures
        count_record(name, count).name == name && count_record(name, count).value
            == BillingValue::Count(count),
        duration_record(name, nanos).name == name && duration_record(name, nanos).value
            == BillingValue::Duration(nanos),
        ({
            let e = plain_text::<E>(is_final, text);
            e is Text && e->is_final == is_final && e->text == text && e->language is None
                && e->speaker is None
        }),
        ({
            let e = agent_text::<E>(is_final, text);
            e is Text && e->is_final == is_final && e->text == text && e->language is None
                && e->speaker == Some(SpeakerView::AiAgent)
        }),
        ({
            let e = bill_now::<E>(request_id, scope, records);
            e is BillingRecords && e->BillingRecords_request_id == request_id && e->scope == scope
                && e->records == records && e->schedule == BillingSchedule::Now
        }),
{
}

} // verus!

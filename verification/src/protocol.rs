//! The events that clients and the server exchange.

use vstd::prelude::*;

use vstd::std_specs::convert::FromSpecImpl;

use serde_json::Value;

use crate::audio::from_le_bytes;
use crate::audio::le_bytes;
use crate::audio::lemma_samples_round_trip;
use crate::audio::samples_of;
use crate::audio::to_le_bytes;
use crate::base64_codec::base64_bytes;
use crate::base64_codec::base64_error;
use crate::base64_codec::base64_text;
use crate::base64_codec::decode_base64;
use crate::base64_codec::encode_base64;
use crate::base64_codec::is_base64;
use crate::base64_codec::law_base64_round_trip;
use crate::error::Error;
use crate::modality::InputModality;
use crate::modality::OutputModality;
use crate::output::BillingRecord;
use crate::output::OutputPath;
use crate::table::Key;
use crate::text::same_text;

verus! {

/// The identifier of a conversation.
#[derive(Debug)]
pub struct ConversationId(String);

impl View for ConversationId {
    type V = Seq<char>;

    closed spec fn view(&self) -> Seq<char> {
        self.0@
    }
}

impl ConversationId {
    /// The identifier with the given text.
    pub closed spec fn of(text: String) -> ConversationId {
        ConversationId(text)
    }

    /// The text of the identifier.
    pub fn as_str(&self) -> (r: &str)
        ensures
            r@ == self@,
    {
        self.0.as_str()
    }
}

impl FromSpecImpl<String> for ConversationId {
    open spec fn obeys_from_spec() -> bool {
        true
    }

    open spec fn from_spec(text: String) -> ConversationId {
        ConversationId::of(text)
    }
}

impl From<String> for ConversationId {
    fn from(text: String) -> (r: ConversationId) {
        ConversationId(text)
    }
}

impl Clone for ConversationId {
    fn clone(&self) -> (r: ConversationId)
        ensures
            r == *self,
    {
        ConversationId(self.0.clone())
    }
}

/// The identifier that is made from a text has that text.
pub proof fn law_id_has_its_text(text: String)
    ensures
        ConversationId::of(text)@ == text@,
{
}

impl Key for ConversationId {
    fn same(&self, other: &Self) -> (r: bool) {
        same_text(self.0.as_str(), other.0.as_str())
    }
}

/// Samples, which are exchanged as base64 text.
#[derive(Debug)]
pub struct Samples(pub Vec<i16>);

impl View for Samples {
    type V = Seq<i16>;

    open spec fn view(&self) -> Seq<i16> {
        self.0@
    }
}

/// The text that samples are exchanged as: the base64 text of their bytes, low bytes first.
pub open spec fn samples_text(samples: Seq<i16>) -> Seq<char> {
    base64_text(le_bytes(samples))
}

/// The samples that a text stands for, or why it stands for none.
pub open spec fn text_samples(text: Seq<char>) -> Result<Seq<i16>, Seq<char>> {
    if !is_base64(text) {
        Err(base64_error(text))
    } else if base64_bytes(text).len() % 2 != 0 {
        Err("Invalid byte length for i16 samples"@)
    } else {
        Ok(samples_of(base64_bytes(text)))
    }
}

impl Samples {
    /// The text that the samples are exchanged as.
    pub fn serialize(&self) -> (r: String)
        ensures
            r@ == samples_text(self@),
    {
        let bytes = to_le_bytes(&self.0);
        encode_base64(&bytes)
    }

    /// The samples that a text stands for.
    pub fn deserialize(text: &str) -> (r: Result<Samples, Error>)
        ensures
            r is Ok <==> text_samples(text@) is Ok,
            r matches Ok(samples) ==> text_samples(text@)->Ok_0 == samples@,
            r matches Err(e) ==> e@ == seq![text_samples(text@)->Err_0],
    {
        let bytes = match decode_base64(text) {
            Ok(bytes) => bytes,
            Err(error) => return Err(error),
        };
        if bytes.len() % 2 != 0 {
            return Err(Error::new("Invalid byte length for i16 samples"));
        }
        Ok(Samples(from_le_bytes(&bytes)))
    }
}

/// Samples that are exchanged arrive as they were.
pub proof fn law_samples_round_trip(samples: Seq<i16>)
    ensures
        text_samples(samples_text(samples)) == Ok::<Seq<i16>, Seq<char>>(samples),
{
    law_base64_round_trip(le_bytes(samples));
    lemma_samples_round_trip(samples);
}

/// An event from a client.
#[derive(Debug)]
pub enum ClientEvent {
    Start {
        id: ConversationId,
        /// The service to select.
        service: String,
        params: Value,
        input_modality: InputModality,
        /// The outputs, in the exact formats that the client expects.
        output_modalities: Vec<OutputModality>,
        /// If it is there, billing records can be collected under it.
        billing_id: Option<String>,
    },
    Stop { id: ConversationId },
    Audio { id: ConversationId, samples: Samples },
    Text {
        id: ConversationId,
        content: String,
        content_type: Option<String>,
        billing_scope: Option<String>,
    },
    Service { id: ConversationId, value: Value },
}

impl ClientEvent {
    /// The conversation that an event belongs to.
    pub open spec fn id(self) -> ConversationId {
        match self {
            ClientEvent::Start { id, .. } => id,
            ClientEvent::Stop { id } => id,
            ClientEvent::Audio { id, .. } => id,
            ClientEvent::Text { id, .. } => id,
            ClientEvent::Service { id, .. } => id,
        }
    }

    /// The conversation that the event belongs to.
    pub fn conversation_id(&self) -> (r: &ConversationId)
        ensures
            *r == self.id(),
    {
        match self {
            ClientEvent::Start { id, .. } => id,
            ClientEvent::Stop { id } => id,
            ClientEvent::Audio { id, .. } => id,
            ClientEvent::Text { id, .. } => id,
            ClientEvent::Service { id, .. } => id,
        }
    }
}

/// An event from the server.
#[derive(Debug)]
pub enum ServerEvent {
    Started { id: ConversationId, modalities: Vec<OutputModality> },
    Stopped { id: ConversationId },
    Error { id: ConversationId, message: String },
    Audio { id: ConversationId, samples: Samples },
    /// The client has to drop all audio that it has not played, and to play at once what follows.
    ClearAudio { id: ConversationId },
    Text { id: ConversationId, is_final: bool, content: String },
    /// A request of the client is fully processed.
    RequestCompleted { id: ConversationId, request_id: Option<String> },
    Service { id: ConversationId, path: OutputPath, value: Value },
    /// What is billed in band. It travels with the media.
    BillingRecords {
        id: ConversationId,
        request_id: Option<String>,
        service: String,
        scope: Option<String>,
        records: Vec<BillingRecord>,
    },
}

impl ServerEvent {
    /// The conversation that an event belongs to.
    pub open spec fn id(self) -> ConversationId {
        match self {
            ServerEvent::Started { id, .. } => id,
            ServerEvent::Stopped { id } => id,
            ServerEvent::Error { id, .. } => id,
            ServerEvent::Audio { id, .. } => id,
            ServerEvent::ClearAudio { id } => id,
            ServerEvent::Text { id, .. } => id,
            ServerEvent::RequestCompleted { id, .. } => id,
            ServerEvent::Service { id, .. } => id,
            ServerEvent::BillingRecords { id, .. } => id,
        }
    }

    /// The same event of another conversation.
    pub open spec fn with_id(self, id: ConversationId) -> ServerEvent {
        match self {
            ServerEvent::Started { id: _, modalities } => ServerEvent::Started { id, modalities },
            ServerEvent::Stopped { id: _ } => ServerEvent::Stopped { id },
            ServerEvent::Error { id: _, message } => ServerEvent::Error { id, message },
            ServerEvent::Audio { id: _, samples } => ServerEvent::Audio { id, samples },
            ServerEvent::ClearAudio { id: _ } => ServerEvent::ClearAudio { id },
            ServerEvent::Text { id: _, is_final, content } => ServerEvent::Text {
                id,
                is_final,
                content,
            },
            ServerEvent::RequestCompleted { id: _, request_id } => ServerEvent::RequestCompleted {
                id,
                request_id,
            },
            ServerEvent::Service { id: _, path, value } => ServerEvent::Service { id, path, value },
            ServerEvent::BillingRecords { id: _, request_id, service, scope, records } =>
                ServerEvent::BillingRecords { id, request_id, service, scope, records },
        }
    }

    /// The path that an event travels on.
    pub open spec fn path(self) -> OutputPath {
        match self {
            ServerEvent::Started { .. } => OutputPath::Control,
            ServerEvent::Stopped { .. } => OutputPath::Control,
            ServerEvent::Error { .. } => OutputPath::Control,
            ServerEvent::Service { path, .. } => path,
            _ => OutputPath::Media,
        }
    }

    /// The conversation that the event belongs to.
    pub fn conversation_id(&self) -> (r: &ConversationId)
        ensures
            *r == self.id(),
    {
        match self {
            ServerEvent::Started { id, .. } => id,
            ServerEvent::Stopped { id } => id,
            ServerEvent::Error { id, .. } => id,
            ServerEvent::Audio { id, .. } => id,
            ServerEvent::Text { id, .. } => id,
            ServerEvent::RequestCompleted { id, .. } => id,
            ServerEvent::ClearAudio { id } => id,
            ServerEvent::Service { id, .. } => id,
            ServerEvent::BillingRecords { id, .. } => id,
        }
    }

    /// Makes the event one of another conversation.
    pub fn set_conversation_id(&mut self, id: ConversationId)
        ensures
            *final(self) == old(self).with_id(id),
    {
        let new_id = id;
        match self {
            ServerEvent::Started { id, .. } => {
                *id = new_id;
            },
            ServerEvent::Stopped { id } => {
                *id = new_id;
            },
            ServerEvent::Error { id, .. } => {
                *id = new_id;
            },
            ServerEvent::Audio { id, .. } => {
                *id = new_id;
            },
            ServerEvent::ClearAudio { id } => {
                *id = new_id;
            },
            ServerEvent::Text { id, .. } => {
                *id = new_id;
            },
            ServerEvent::RequestCompleted { id, .. } => {
                *id = new_id;
            },
            ServerEvent::Service { id, .. } => {
                *id = new_id;
            },
            ServerEvent::BillingRecords { id, .. } => {
                *id = new_id;
            },
        }
    }

    /// The path that the event travels on.
    pub fn output_path(&self) -> (r: OutputPath)
        ensures
            r == self.path(),
    {
        match self {
            ServerEvent::Started { .. } => OutputPath::Control,
            ServerEvent::Stopped { .. } => OutputPath::Control,
            ServerEvent::Error { .. } => OutputPath::Control,
            ServerEvent::Audio { .. } => OutputPath::Media,
            ServerEvent::ClearAudio { .. } => OutputPath::Media,
            ServerEvent::Text { .. } => OutputPath::Media,
            ServerEvent::RequestCompleted { .. } => OutputPath::Media,
            ServerEvent::Service { path, .. } => *path,
            ServerEvent::BillingRecords { .. } => OutputPath::Media,
        }
    }
}

/// An event that is moved to another conversation belongs to that one, travels on the same path,
/// and can be moved back.
pub proof fn law_moved_events(event: ServerEvent, id: ConversationId)
    ensures
        event.with_id(id).id() == id,
        event.with_id(id).path() == event.path(),
        event.with_id(id).with_id(event.id()) == event,
{
}

/// Each event has the id of its conversation.
pub proof fn law_events_have_their_ids(id: ConversationId, client: ClientEvent, server: ServerEvent)
    ensures
        client matches ClientEvent::Start { id: own, .. } ==> client.id() == own,
        client matches ClientEvent::Stop { id: own } ==> client.id() == own,
        client matches ClientEvent::Audio { id: own, .. } ==> client.id() == own,
        client matches ClientEvent::Text { id: own, .. } ==> client.id() == own,
        client matches ClientEvent::Service { id: own, .. } ==> client.id() == own,
        server matches ServerEvent::Started { id: own, .. } ==> server.id() == own,
        server matches ServerEvent::Stopped { id: own } ==> server.id() == own,
        server matches ServerEvent::Error { id: own, .. } ==> server.id() == own,
        server matches ServerEvent::Audio { id: own, .. } ==> server.id() == own,
        server matches ServerEvent::ClearAudio { id: own } ==> server.id() == own,
        server matches ServerEvent::Text { id: own, .. } ==> server.id() == own,
        server matches ServerEvent::RequestCompleted { id: own, .. } ==> server.id() == own,
        server matches ServerEvent::Service { id: own, .. } ==> server.id() == own,
        server matches ServerEvent::BillingRecords { id: own, .. } ==> server.id() == own,
{
}

/// What belongs to the media goes their way, so that it is not overtaken. How the conversation goes
/// and what services report beside the media does not.
pub proof fn law_paths(server: ServerEvent)
    ensures
        server is Audio || server is ClearAudio || server is Text || server is RequestCompleted
            || server is BillingRecords ==> server.path() == OutputPath::Media,
        server is Started || server is Stopped || server is Error ==> server.path()
            == OutputPath::Control,
        server matches ServerEvent::Service { path, .. } ==> server.path() == path,
{
}

/// An event that is moved to another conversation keeps all else.
pub proof fn law_moved_events_keep_their_contents(server: ServerEvent, id: ConversationId)
    ensures
        match (server.with_id(id), server) {
            (
                ServerEvent::Started { id: to, modalities: a },
                ServerEvent::Started { modalities: b, .. },
            ) => to == id && a == b,
            (ServerEvent::Stopped { id: to }, ServerEvent::Stopped { .. }) => to == id,
            (
                ServerEvent::Error { id: to, message: a },
                ServerEvent::Error { message: b, .. },
            ) => to == id && a == b,
            (
                ServerEvent::Audio { id: to, samples: a },
                ServerEvent::Audio { samples: b, .. },
            ) => to == id && a == b,
            (ServerEvent::ClearAudio { id: to }, ServerEvent::ClearAudio { .. }) => to == id,
            (
                ServerEvent::Text { id: to, is_final: a, content: c },
                ServerEvent::Text { is_final: b, content: d, .. },
            ) => to == id && a == b && c == d,
            (
                ServerEvent::RequestCompleted { id: to, request_id: a },
                ServerEvent::RequestCompleted { request_id: b, .. },
            ) => to == id && a == b,
            (
                ServerEvent::Service { id: to, path: a, value: c },
                ServerEvent::Service { path: b, value: d, .. },
            ) => to == id && a == b && c == d,
            (
                ServerEvent::BillingRecords {
                    id: to,
                    request_id: a,
                    service: c,
                    scope: e,
                    records: g,
                },
                ServerEvent::BillingRecords {
                    request_id: b,
                    service: d,
                    scope: f,
                    records: h,
                    ..
                },
            ) => to == id && a == b && c == d && e == f && g == h,
            _ => false,
        },
{
}

/// Samples travel as base64 text of two bytes each, the low one first. What has half a sample left
/// over is refused.
pub proof fn law_samples_travel_low_byte_first(samples: Seq<i16>, bytes: Seq<u8>)
    ensures
        is_base64(samples_text(samples)),
        base64_bytes(samples_text(samples)).len() == 2 * samples.len(),
        forall|i: int|
            0 <= i < samples.len() ==> {
                let b = base64_bytes(samples_text(samples));
                let code = b[2 * i] as int + 256 * (b[2 * i + 1] as int);
                code == #[trigger] samples[i] || code == samples[i] + 65536
            },
        text_samples(base64_text(bytes)) is Ok <==> bytes.len() % 2 == 0,
        bytes.len() % 2 == 1 ==> text_samples(base64_text(bytes)) == Err::<Seq<i16>, Seq<char>>(
            "Invalid byte length for i16 samples"@,
        ),
{
    crate::base64_codec::law_base64_round_trip(le_bytes(samples));
    crate::base64_codec::law_base64_round_trip(bytes);
    crate::audio::law_bytes_of_samples(samples);
}

/// Samples that are written as text are read again as they were, and where an event goes is told by the
/// event.
pub proof fn law_written_samples(
    samples: Samples,
    text: String,
    read_text: &str,
    read: Result<Samples, Error>,
    event: ServerEvent,
    path: OutputPath,
)
    requires
        call_ensures(Samples::serialize, (&samples,), text),
        read_text@ == text@,
        call_ensures(Samples::deserialize, (read_text,), read),
        call_ensures(ServerEvent::output_path, (&event,), path),
    ensures
        read is Ok,
        read->Ok_0.0@ == samples.0@,
        event is Audio || event is Text || event is ClearAudio || event is RequestCompleted
            || event is BillingRecords ==> path == OutputPath::Media,
        event is Started || event is Stopped || event is Error ==> path == OutputPath::Control,
        event matches ServerEvent::Service { path: own, .. } ==> path == own,
{
    law_samples_round_trip(samples@);
}

} // verus!

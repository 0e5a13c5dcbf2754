//! What comes in: from the participants of a conversation, and over a socket from a remote service.

use vstd::prelude::*;

use crate::audio::AudioFrame;

verus! {

/// One input of a conversation. `S` is what the service's own events are read as.
#[derive(Debug)]
pub enum Input<S> {
    /// Audio that a participant sent.
    Audio { frame: AudioFrame },
    /// Text that a participant sent.
    Text {
        request_id: Option<String>,
        text: String,
        text_type: Option<String>,
        /// Whether the text ends here, as opposed to being continued by the next one.
        is_final: bool,
    },
    /// An event of the service's own.
    ServiceEvent { value: S },
}

/// One message from a socket. `T` is what the text of a message is read as.
#[derive(Debug)]
pub enum SocketMessage<T> {
    /// A text, and what was read from it or why it could not be read.
    Text { raw: String, event: Result<T, String> },
    /// A request for a sign of life.
    Ping(Vec<u8>),
    /// The other side closes the socket.
    Close,
    /// Anything else, described for an error message.
    Other { description: String },
}

/// How the loop over a socket goes on.
#[derive(Debug)]
pub enum FlowControl {
    /// Go on.
    Continue,
    /// Answer a ping, and go on.
    PongAndContinue(Vec<u8>),
    /// Leave the loop.
    End,
}

/// How the loop over a socket goes on, as mathematical values.
pub enum FlowView {
    Continue,
    PongAndContinue(Seq<u8>),
    End,
}

impl View for FlowControl {
    type V = FlowView;

    open spec fn view(&self) -> FlowView {
        match *self {
            FlowControl::Continue => FlowView::Continue,
            FlowControl::PongAndContinue(payload) => FlowView::PongAndContinue(payload@),
            FlowControl::End => FlowView::End,
        }
    }
}

/// How a loop goes on is shown as it is.
pub proof fn law_flow_is_shown(flow: FlowControl)
    ensures
        flow is Continue <==> flow@ is Continue,
        flow is End <==> flow@ is End,
        flow matches FlowControl::PongAndContinue(payload) ==> flow@
            == FlowView::PongAndContinue(payload@),
{
}

} // verus!

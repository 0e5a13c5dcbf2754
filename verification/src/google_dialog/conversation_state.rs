//! What is remembered in the course of a conversation.

use vstd::prelude::*;

use crate::error::Error;
use crate::table::Table;
use crate::text::concat3;
use crate::text::opt_view;

verus! {

/// A function call that the model made and that has no result yet.
pub enum ToolCallEntry {
    Pending { name: String },
    Canceled,
}

/// A function call without a result, as mathematical values.
pub enum OpenCall {
    Pending { name: Seq<char> },
    Canceled,
}

impl View for ToolCallEntry {
    type V = OpenCall;

    open spec fn view(&self) -> OpenCall {
        match *self {
            ToolCallEntry::Pending { name } => OpenCall::Pending { name: name@ },
            ToolCallEntry::Canceled => OpenCall::Canceled,
        }
    }
}

/// Keeps track of the function calls that have no result yet.
pub struct ToolCallTracker {
    calls: Table<String, ToolCallEntry>,
}

impl View for ToolCallTracker {
    type V = Map<Seq<char>, OpenCall>;

    closed spec fn view(&self) -> Map<Seq<char>, OpenCall> {
        self.calls@
    }
}

impl Default for ToolCallTracker {
    fn default() -> (r: ToolCallTracker)
        ensures
            r@ == Map::<Seq<char>, OpenCall>::empty(),
    {
        ToolCallTracker { calls: Table::new() }
    }
}

/// A message about a function call.
pub open spec fn call_message(call_id: Seq<char>, complaint: Seq<char>) -> Seq<char> {
    "tool call `"@ + call_id + complaint
}

/// What is wrong with a new function call, if anything: its id is in use.
pub open spec fn register_error(calls: Map<Seq<char>, OpenCall>, call_id: Seq<char>) -> Option<
    Seq<char>,
> {
    if !calls.contains_key(call_id) {
        None
    } else if calls[call_id] is Pending {
        Some(call_message(call_id, "` is already pending before register"@))
    } else {
        Some(call_message(call_id, "` was already canceled before register"@))
    }
}

/// What is wrong with a cancellation, if anything: there is no such call to cancel.
pub open spec fn cancel_error(calls: Map<Seq<char>, OpenCall>, call_id: Seq<char>) -> Option<
    Seq<char>,
> {
    if !calls.contains_key(call_id) {
        Some(call_message(call_id, "` is not pending when cancellation arrives"@))
    } else if calls[call_id] is Canceled {
        Some(call_message(call_id, "` was already canceled before cancellation"@))
    } else {
        None
    }
}

/// What is wrong with a result, if anything: there is no such call.
pub open spec fn resolve_error(calls: Map<Seq<char>, OpenCall>, call_id: Seq<char>) -> Option<
    Seq<char>,
> {
    if calls.contains_key(call_id) {
        None
    } else {
        Some("functionCallResult references unknown `callId`: `"@ + call_id + "`"@)
    }
}

/// The name of the function that a result is for, unless the call was canceled.
pub open spec fn resolved_name(calls: Map<Seq<char>, OpenCall>, call_id: Seq<char>) -> Option<
    Seq<char>,
> {
    match calls[call_id] {
        OpenCall::Pending { name } => Some(name),
        OpenCall::Canceled => None,
    }
}

impl ToolCallTracker {
    /// Takes note of a function call.
    pub fn register(&mut self, call_id: String, name: String) -> (r: Result<(), Error>)
        ensures
            r is Ok <==> register_error(old(self)@, call_id@) is None,
            r is Ok ==> final(self)@ == old(self)@.insert(
                call_id@,
                OpenCall::Pending { name: name@ },
            ),
            r matches Err(e) ==> final(self)@ == old(self)@ && e@ == seq![
                register_error(old(self)@, call_id@)->0,
            ],
    {
        match self.calls.get(&call_id) {
            Some(ToolCallEntry::Pending { .. }) => {
                return Err(
                    Error::from_text(
                        concat3(
                            "tool call `",
                            call_id.as_str(),
                            "` is already pending before register",
                        ),
                    ),
                );
            },
            Some(ToolCallEntry::Canceled) => {
                return Err(
                    Error::from_text(
                        concat3(
                            "tool call `",
                            call_id.as_str(),
                            "` was already canceled before register",
                        ),
                    ),
                );
            },
            None => {},
        }
        let _ = self.calls.insert(call_id, ToolCallEntry::Pending { name });
        Ok(())
    }

    /// Takes note that the result of a function call is no longer wanted.
    pub fn cancel(&mut self, call_id: String) -> (r: Result<(), Error>)
        ensures
            r is Ok <==> cancel_error(old(self)@, call_id@) is None,
            r is Ok ==> final(self)@ == old(self)@.insert(call_id@, OpenCall::Canceled),
            r matches Err(e) ==> final(self)@ == old(self)@ && e@ == seq![
                cancel_error(old(self)@, call_id@)->0,
            ],
    {
        match self.calls.get(&call_id) {
            Some(ToolCallEntry::Pending { .. }) => {},
            Some(ToolCallEntry::Canceled) => {
                return Err(
                    Error::from_text(
                        concat3(
                            "tool call `",
                            call_id.as_str(),
                            "` was already canceled before cancellation",
                        ),
                    ),
                );
            },
            None => {
                return Err(
                    Error::from_text(
                        concat3(
                            "tool call `",
                            call_id.as_str(),
                            "` is not pending when cancellation arrives",
                        ),
                    ),
                );
            },
        }
        let _ = self.calls.insert(call_id, ToolCallEntry::Canceled);
        Ok(())
    }

    /// Ends a function call that has a result, and returns the function's name unless the call was
    /// canceled.
    pub fn resolve(&mut self, call_id: &str) -> (r: Result<Option<String>, Error>)
        ensures
            r is Ok <==> resolve_error(old(self)@, call_id@) is None,
            r matches Ok(name) ==> opt_view(name) == resolved_name(old(self)@, call_id@),
            r matches Err(e) ==> e@ == seq![resolve_error(old(self)@, call_id@)->0],
            final(self)@ == old(self)@.remove(call_id@),
    {
        let key = call_id.to_owned();
        match self.calls.remove(&key) {
            Some(ToolCallEntry::Pending { name }) => Ok(Some(name)),
            Some(ToolCallEntry::Canceled) => Ok(None),
            None => Err(
                Error::from_text(
                    concat3(
                        "functionCallResult references unknown `callId`: `",
                        call_id,
                        "`",
                    ),
                ),
            ),
        }
    }
}

/// The state of a conversation.
pub struct ConversationState {
    /// What the model said so far in its turn.
    pub output_transcription_buffer: String,
    pub tool_calls: ToolCallTracker,
}

/// The state of a conversation, as mathematical values.
pub struct StateView {
    pub transcript: Seq<char>,
    pub calls: Map<Seq<char>, OpenCall>,
}

impl View for ConversationState {
    type V = StateView;

    open spec fn view(&self) -> StateView {
        StateView { transcript: self.output_transcription_buffer@, calls: self.tool_calls@ }
    }
}

impl ConversationState {
    /// The state at the beginning.
    pub fn new() -> (r: ConversationState)
        ensures
            r@ == (StateView { transcript: Seq::empty(), calls: Map::empty() }),
    {
        let r = ConversationState {
            output_transcription_buffer: String::new(),
            tool_calls: ToolCallTracker::default(),
        };
        assert(r@.transcript =~= Seq::empty());
        r
    }
}

/// A call that was noted gives its function's name back, once: a second result is an error.
pub proof fn law_register_then_resolve(
    calls: Map<Seq<char>, OpenCall>,
    call_id: Seq<char>,
    name: Seq<char>,
)
    requires
        register_error(calls, call_id) is None,
    ensures
        ({
            let noted = calls.insert(call_id, OpenCall::Pending { name });
            &&& resolve_error(noted, call_id) is None
            &&& resolved_name(noted, call_id) == Some(name)
            &&& noted.remove(call_id) == calls
            &&& resolve_error(noted.remove(call_id), call_id) is Some
        }),
{
    assert(calls.insert(call_id, OpenCall::Pending { name }).remove(call_id) =~= calls);
}

/// The result of a canceled call is accepted, but there is no function to hand it to.
pub proof fn law_cancel_then_resolve(calls: Map<Seq<char>, OpenCall>, call_id: Seq<char>)
    requires
        cancel_error(calls, call_id) is None,
    ensures
        ({
            let canceled = calls.insert(call_id, OpenCall::Canceled);
            &&& resolve_error(canceled, call_id) is None
            &&& resolved_name(canceled, call_id) is None
            &&& cancel_error(canceled, call_id) is Some
        }),
{
}

/// An id cannot be used for a second call before the first one has its result, canceled or not.
pub proof fn law_no_duplicate_calls(
    calls: Map<Seq<char>, OpenCall>,
    call_id: Seq<char>,
    open: OpenCall,
)
    ensures
        register_error(calls.insert(call_id, open), call_id) is Some,
        register_error(calls.insert(call_id, open).remove(call_id), call_id) is None,
{
}

} // verus!

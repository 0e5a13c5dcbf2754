//! Prompts, which may have to wait until the model is done with a response.

use std::collections::VecDeque;
use vstd::prelude::*;

use crate::error::Error;
use crate::openai_dialog::types::send;
use crate::openai_dialog::types::sent_view;
use crate::openai_dialog::types::ClientEvent;
use crate::openai_dialog::types::ClientEventView;
use crate::openai_dialog::types::ServerError;
use crate::text::concat3;
use crate::text::opt_view;
use crate::text::same_text;

verus! {

/// What the model is doing.
#[derive(Debug, Clone, Copy, PartialEq, Eq, Structural)]
pub enum ResponseState {
    Idle,
    ExpectingFunctionResult,
    Responding,
}

/// Instructions that the model is to respond to.
pub struct PromptRequest(pub String);

/// Sends prompts one at a time, and only while the model is idle.
pub struct PromptCoordinator {
    pub response_state: ResponseState,
    /// The prompt that was sent last, with its event, until the model is idle again.
    pub inflight_prompt: Option<(String, PromptRequest)>,
    /// The prompts that wait, the next one first.
    pub pending_prompts: VecDeque<PromptRequest>,
}

/// The state of the prompts, as mathematical values.
pub struct Prompts {
    pub state: ResponseState,
    pub inflight: Option<(Seq<char>, Seq<char>)>,
    pub pending: Seq<Seq<char>>,
}

/// The texts of a list of prompts.
pub open spec fn prompt_texts(prompts: Seq<PromptRequest>) -> Seq<Seq<char>> {
    prompts.map_values(|p: PromptRequest| p.0@)
}

impl View for PromptCoordinator {
    type V = Prompts;

    open spec fn view(&self) -> Prompts {
        Prompts {
            state: self.response_state,
            inflight: match self.inflight_prompt {
                Some((event_id, prompt)) => Some((event_id@, prompt.0@)),
                None => None,
            },
            pending: prompt_texts(self.pending_prompts@),
        }
    }
}

/// The event that sends a prompt.
pub open spec fn prompt_event(prompt: Seq<char>, event_id: Option<Seq<char>>) -> ClientEventView {
    ClientEventView::PromptResponse { instructions: prompt, event_id }
}

/// Whether an error tells that the model is busy with another response.
pub open spec fn is_busy_error(error: ServerError) -> bool {
    opt_view(error.code) == Some("conversation_already_has_active_response"@)
}

/// The message that a server error ends the conversation with.
pub open spec fn server_error_message(error: ServerError, raw: Seq<char>) -> Seq<char> {
    error.description@ + ", raw: "@ + raw
}

impl Prompts {
    /// Nothing sent, nothing waiting, the model idle.
    pub open spec fn none() -> Prompts {
        Prompts { state: ResponseState::Idle, inflight: None, pending: Seq::empty() }
    }

    /// Whether the next prompt can be sent.
    pub open spec fn ready(self) -> bool {
        self.inflight is None && self.state == ResponseState::Idle && self.pending.len() > 0
    }

    /// After sending the next prompt under the given event id, if it can be sent.
    pub open spec fn flushed(self, event_id: Seq<char>) -> Prompts {
        if self.ready() {
            Prompts {
                inflight: Some((event_id, self.pending[0])),
                pending: self.pending.drop_first(),
                ..self
            }
        } else {
            self
        }
    }

    /// What is sent by that.
    pub open spec fn flush_sends(self, event_id: Seq<char>) -> Seq<ClientEventView> {
        if self.ready() {
            seq![prompt_event(self.pending[0], Some(event_id))]
        } else {
            Seq::empty()
        }
    }

    /// With a prompt at the end of those that wait.
    pub open spec fn queued(self, prompt: Seq<char>) -> Prompts {
        Prompts { pending: self.pending.push(prompt), ..self }
    }

    /// With the model in a new state. The prompt that was sent is done with once the model is idle.
    pub open spec fn moved_to(self, state: ResponseState) -> Prompts {
        Prompts {
            state,
            inflight: if state == ResponseState::Idle {
                None
            } else {
                self.inflight
            },
            ..self
        }
    }

    /// Whether going to a new state is a reason to send the next prompt.
    pub open spec fn becomes_idle(self, state: ResponseState) -> bool {
        self.state != ResponseState::Idle && state == ResponseState::Idle
    }

    /// After the model went to a new state.
    pub open spec fn updated(self, state: ResponseState, event_id: Seq<char>) -> Prompts {
        if self.becomes_idle(state) {
            self.moved_to(state).flushed(event_id)
        } else {
            self.moved_to(state)
        }
    }

    /// What is sent by that.
    pub open spec fn update_sends(self, state: ResponseState, event_id: Seq<char>) -> Seq<
        ClientEventView,
    > {
        if self.becomes_idle(state) {
            self.moved_to(state).flush_sends(event_id)
        } else {
            Seq::empty()
        }
    }

    /// Whether an error tells that the prompt that was sent last found the model busy.
    pub open spec fn rejected_by(self, error: ServerError) -> bool {
        is_busy_error(error) && self.inflight is Some && opt_view(error.event_id) == Some(
            (self.inflight->0).0,
        )
    }

    /// With the prompt that was sent last put back as the next one.
    pub open spec fn rescheduled(self) -> Prompts {
        Prompts {
            inflight: None,
            pending: seq![(self.inflight->0).1] + self.pending,
            ..self
        }
    }

    /// The prompts that are not done with, in the order in which they are processed.
    pub open spec fn outstanding(self) -> Seq<Seq<char>> {
        match self.inflight {
            Some((_, prompt)) => seq![prompt] + self.pending,
            None => self.pending,
        }
    }
}

impl PromptCoordinator {
    /// No prompts, the model idle.
    pub fn new() -> (r: PromptCoordinator)
        ensures
            r@ == Prompts::none(),
    {
        let r = PromptCoordinator {
            response_state: ResponseState::Idle,
            inflight_prompt: None,
            pending_prompts: VecDeque::new(),
        };
        assert(r@.pending =~= Seq::empty());
        r
    }

    /// Sends a prompt if possible, or keeps it until it can be sent. `event_id` is the id for the
    /// event if one is sent.
    pub fn push_prompt(
        &mut self,
        request: PromptRequest,
        event_id: String,
        sent: &mut Vec<ClientEvent>,
    )
        ensures
            final(self)@ == old(self)@.queued(request.0@).flushed(event_id@),
            sent_view(final(sent)@) == sent_view(old(sent)@) + old(self)@.queued(
                request.0@,
            ).flush_sends(event_id@),
    {
        self.pending_prompts.push_back(request);
        assert(self@.pending =~= old(self)@.queued(request.0@).pending);
        self.flush_prompt(event_id, sent);
    }

    /// Follows the model into a new state, and sends the next prompt if the model became idle.
    pub fn update_response_state(
        &mut self,
        state: ResponseState,
        event_id: String,
        sent: &mut Vec<ClientEvent>,
    )
        ensures
            final(self)@ == old(self)@.updated(state, event_id@),
            sent_view(final(sent)@) == sent_view(old(sent)@) + old(self)@.update_sends(
                state,
                event_id@,
            ),
    {
        if self.inflight_prompt.is_some() && state == ResponseState::Idle {
            self.inflight_prompt = None;
        }
        let previous = self.response_state;
        self.response_state = state;
        assert(self@ == old(self)@.moved_to(state));
        if previous != ResponseState::Idle && state == ResponseState::Idle {
            self.flush_prompt(event_id, sent);
        } else {
            assert(sent_view(sent@) =~= sent_view(old(sent)@) + Seq::empty());
        }
    }

    /// Sends the next prompt, if there is one and it can be sent.
    pub fn flush_prompt(&mut self, event_id: String, sent: &mut Vec<ClientEvent>)
        ensures
            final(self)@ == old(self)@.flushed(event_id@),
            sent_view(final(sent)@) == sent_view(old(sent)@) + old(self)@.flush_sends(event_id@),
    {
        if self.inflight_prompt.is_some() || self.response_state != ResponseState::Idle {
            assert(sent_view(sent@) =~= sent_view(old(sent)@) + Seq::empty());
            return;
        }
        match self.pending_prompts.pop_front() {
            None => {
                assert(sent_view(sent@) =~= sent_view(old(sent)@) + Seq::empty());
            },
            Some(prompt) => {
                assert(self@.pending =~= old(self)@.pending.drop_first());
                self.send_prompt_with_tracking(prompt, event_id, sent);
            },
        }
    }

    /// Sends a prompt and remembers it as the one that was sent last.
    fn send_prompt_with_tracking(
        &mut self,
        prompt: PromptRequest,
        event_id: String,
        sent: &mut Vec<ClientEvent>,
    )
        ensures
            final(self)@ == (Prompts {
                inflight: Some((event_id@, prompt.0@)),
                ..old(self)@
            }),
            sent_view(final(sent)@) == sent_view(old(sent)@).push(
                prompt_event(prompt.0@, Some(event_id@)),
            ),
    {
        send_prompt_event(&prompt, Some(event_id.clone()), sent);
        self.inflight_prompt = Some((event_id, prompt));
    }

    /// Puts the prompt that was sent last back if it found the model busy. Every other error ends
    /// the conversation.
    pub fn handle_server_error(&mut self, raw: &str, error: &ServerError) -> (r: Result<(), Error>)
        ensures
            r is Ok <==> old(self)@.rejected_by(*error),
            r is Ok ==> final(self)@ == old(self)@.rescheduled(),
            r matches Err(e) ==> final(self)@ == old(self)@ && e@ == seq![
                server_error_message(*error, raw@),
            ],
    {
        if is_active_response_error(error) {
            let mut inflight: Option<(String, PromptRequest)> = None;
            core::mem::swap(&mut self.inflight_prompt, &mut inflight);
            match inflight {
                Some((event_id, prompt)) => {
                    let mine = match &error.event_id {
                        Some(id) => same_text(id.as_str(), event_id.as_str()),
                        None => false,
                    };
                    if mine {
                        self.pending_prompts.push_front(prompt);
                        assert(self@.pending =~= old(self)@.rescheduled().pending);
                        return Ok(());
                    }
                    self.inflight_prompt = Some((event_id, prompt));
                },
                None => {},
            }
        }
        Err(Error::from_text(concat3(error.description.as_str(), ", raw: ", raw)))
    }
}

/// Whether an error tells that the model is busy with another response.
pub fn is_active_response_error(error: &ServerError) -> (r: bool)
    ensures
        r == is_busy_error(*error),
{
    match &error.code {
        Some(code) => same_text(code.as_str(), "conversation_already_has_active_response"),
        None => false,
    }
}

/// Sends a prompt.
pub fn send_prompt_event(
    prompt: &PromptRequest,
    event_id: Option<String>,
    sent: &mut Vec<ClientEvent>,
)
    ensures
        sent_view(final(sent)@) == sent_view(old(sent)@).push(
            prompt_event(prompt.0@, opt_view(event_id)),
        ),
{
    send(sent, ClientEvent::PromptResponse { instructions: prompt.0.clone(), event_id });
}

/// Sending the next prompt loses none and changes no order.
pub proof fn law_flush_keeps_prompts(prompts: Prompts, event_id: Seq<char>)
    ensures
        prompts.flushed(event_id).outstanding() == prompts.outstanding(),
{
    assert(prompts.flushed(event_id).outstanding() =~= prompts.outstanding());
}

/// A new prompt comes after all that are not done with.
pub proof fn law_prompts_in_order(prompts: Prompts, prompt: Seq<char>, event_id: Seq<char>)
    ensures
        prompts.queued(prompt).flushed(event_id).outstanding() == prompts.outstanding().push(prompt),
{
    assert(prompts.queued(prompt).outstanding() =~= prompts.outstanding().push(prompt));
    law_flush_keeps_prompts(prompts.queued(prompt), event_id);
}

/// A prompt that found the model busy is not lost, and stays ahead of those that wait.
pub proof fn law_rejected_prompt_is_next(prompts: Prompts, error: ServerError)
    requires
        prompts.rejected_by(error),
    ensures
        prompts.rescheduled().outstanding() == prompts.outstanding(),
        prompts.rescheduled().inflight is None,
{
}

/// A prompt is sent only while the model is idle and no other prompt is on its way, and one at a
/// time. If the model becomes idle, the prompt that was on its way is done with, and the others
/// stay in order.
pub proof fn law_one_prompt_at_a_time(prompts: Prompts, state: ResponseState, event_id: Seq<char>)
    ensures
        prompts.flush_sends(event_id).len() <= 1,
        prompts.flush_sends(event_id).len() == 1 ==> prompts.inflight is None && prompts.state
            == ResponseState::Idle,
        prompts.update_sends(state, event_id).len() <= 1,
        prompts.update_sends(state, event_id).len() == 1 ==> state == ResponseState::Idle,
        state == ResponseState::Idle ==> prompts.updated(state, event_id).outstanding()
            == prompts.pending,
        state != ResponseState::Idle ==> prompts.updated(state, event_id).outstanding()
            == prompts.outstanding(),
{
    law_flush_keeps_prompts(prompts.moved_to(state), event_id);
}

/// A prompt waits behind those that came before it, and the first is sent when no response is under
/// way and none was sent that is not answered.
pub proof fn law_pushed_prompts(
    prompts: &mut PromptCoordinator,
    request: PromptRequest,
    event_id: String,
    sent: &mut Vec<ClientEvent>,
)
    requires
        call_ensures(PromptCoordinator::push_prompt, (prompts, request, event_id, sent), ()),
    ensures
        ({
            let p = old(prompts)@;
            let q = final(prompts)@;
            let s = sent_view(final(sent)@);
            let n = old(sent)@.len() as int;
            let goes = p.inflight is None && p.state is Idle;
            &&& q.state == p.state
            &&& q.outstanding() == p.outstanding().push(request.0@)
            &&& !goes ==> s == sent_view(old(sent)@) && q.inflight == p.inflight && q.pending
                == p.pending.push(request.0@)
            &&& goes ==> {
                &&& s.len() == n + 1
                &&& s[n] is PromptResponse
                &&& s[n]->instructions == p.pending.push(request.0@)[0]
                &&& s[n]->event_id == Some(event_id@)
                &&& q.inflight == Some((event_id@, p.pending.push(request.0@)[0]))
            }
        }),
{
    let p = old(prompts)@;
    law_prompts_in_order(p, request.0@, event_id@);
    assert(sent_view(old(sent)@).len() == old(sent)@.len());
    assert(sent_view(old(sent)@) + Seq::<ClientEventView>::empty() =~= sent_view(old(sent)@));
}

/// A prompt that the server refuses because it is busy is the next one to be sent. Every other error
/// is passed on.
pub proof fn law_refused_prompts(
    prompts: &mut PromptCoordinator,
    raw: &str,
    error: ServerError,
    r: Result<(), Error>,
)
    requires
        call_ensures(PromptCoordinator::handle_server_error, (prompts, raw, &error), r),
    ensures
        ({
            let p = old(prompts)@;
            let q = final(prompts)@;
            &&& r is Ok ==> {
                &&& error.code is Some && error.code->0@
                    == "conversation_already_has_active_response"@
                &&& p.inflight is Some
                &&& error.event_id is Some
                &&& p.inflight == Some((error.event_id->0@, q.pending[0]))
                &&& q.inflight is None
                &&& q.pending.drop_first() == p.pending
                &&& q.state == p.state
            }
            &&& r is Err ==> q == p && r->Err_0@ == seq![error.description@ + ", raw: "@ + raw@]
            &&& error.code is None || error.event_id is None || p.inflight is None ==> r is Err
            &&& error.code is Some && error.code->0@
                == "conversation_already_has_active_response"@ && error.event_id is Some
                && p.inflight is Some && (p.inflight->0).0 == error.event_id->0@ ==> r is Ok
        }),
{
    let p = old(prompts)@;
    if r is Ok {
        assert((seq![(p.inflight->0).1] + p.pending).drop_first() =~= p.pending);
    }
}

} // verus!

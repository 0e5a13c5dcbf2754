//! The life of a synthesis context.
//!
//! Requests are synthesized one at a time: after the last fragment of a request, input is paused
//! until the server reports that the context is finished, so that a single context is live.

use vstd::prelude::*;

use crate::error::Error;
use crate::text::clone_opt;
use crate::text::decimal;
use crate::text::decimal_text;
use crate::text::lemma_decimal_injective;
use crate::text::opt_str_view;
use crate::text::opt_view;
use crate::text::same_opt;

verus! {

/// A context at the server, in which one request is synthesized.
pub struct ActiveContext {
    pub id: String,
    pub request_id: Option<String>,
}

/// A context, as mathematical values.
pub struct ContextView {
    pub id: Seq<char>,
    pub request_id: Option<Seq<char>>,
}

impl View for ActiveContext {
    type V = ContextView;

    open spec fn view(&self) -> ContextView {
        ContextView { id: self.id@, request_id: opt_view(self.request_id) }
    }
}

/// How far the synthesis has come.
pub enum Phase {
    /// No context is live; waiting for the text of the next request.
    Accepting,
    /// A context is live and takes text.
    Synthesizing(ActiveContext),
    /// The context was closed; input is paused until the server reports that it is finished.
    Draining(ActiveContext),
    /// The input ended. There is a context if it ended in the middle of a request, which is still
    /// to be completed.
    Closing(Option<ActiveContext>),
}

/// How far the synthesis has come, as mathematical values.
pub enum PhaseView {
    Accepting,
    Synthesizing(ContextView),
    Draining(ContextView),
    Closing(Option<ContextView>),
}

/// The view of a context that may be absent.
pub open spec fn context_view(context: Option<ActiveContext>) -> Option<ContextView> {
    match context {
        Some(c) => Some(c@),
        None => None,
    }
}

impl View for Phase {
    type V = PhaseView;

    open spec fn view(&self) -> PhaseView {
        match *self {
            Phase::Accepting => PhaseView::Accepting,
            Phase::Synthesizing(context) => PhaseView::Synthesizing(context@),
            Phase::Draining(context) => PhaseView::Draining(context@),
            Phase::Closing(context) => PhaseView::Closing(context_view(context)),
        }
    }
}

/// Keeps track of the live context and of the input around it.
pub struct SynthesisState {
    pub phase: Phase,
    /// The number of the context that was opened last.
    pub next_id: u64,
}

/// The state of the synthesis, as mathematical values.
pub struct SynthesisView {
    pub phase: PhaseView,
    pub opened: nat,
}

impl View for SynthesisState {
    type V = SynthesisView;

    open spec fn view(&self) -> SynthesisView {
        SynthesisView { phase: self.phase@, opened: self.next_id as nat }
    }
}

/// The message for a request id that changes before a request is complete.
pub open spec fn request_id_changed() -> Seq<char> {
    "ElevenLabs synthesize request id changed within a text sequence"@
}

impl SynthesisView {
    /// Nothing was synthesized yet.
    pub open spec fn initial() -> SynthesisView {
        SynthesisView { phase: PhaseView::Accepting, opened: 0 }
    }

    /// Whether text is taken.
    pub open spec fn accepts_input(self) -> bool {
        self.phase is Accepting || self.phase is Synthesizing
    }

    /// Whether the input ended.
    pub open spec fn is_closing(self) -> bool {
        self.phase is Closing
    }

    /// The context that is live, if any.
    pub open spec fn live(self) -> Option<ContextView> {
        match self.phase {
            PhaseView::Accepting => None,
            PhaseView::Synthesizing(context) => Some(context),
            PhaseView::Draining(context) => Some(context),
            PhaseView::Closing(context) => context,
        }
    }

    /// The id of the live context.
    pub open spec fn live_id(self) -> Option<Seq<char>> {
        match self.live() {
            Some(context) => Some(context.id),
            None => None,
        }
    }

    /// Whether a fragment with the given request id belongs to another request than the one that
    /// is being synthesized. A fragment without an id belongs to it in any case.
    pub open spec fn changes_request(self, request_id: Option<Seq<char>>) -> bool {
        self.phase matches PhaseView::Synthesizing(context) && request_id is Some && request_id
            != context.request_id
    }

    /// After a fragment: the first one of a request opens a context, which has its request id.
    pub open spec fn recorded(self, request_id: Option<Seq<char>>) -> SynthesisView {
        match self.phase {
            PhaseView::Accepting => SynthesisView {
                phase: PhaseView::Synthesizing(
                    ContextView { id: decimal(self.opened + 1), request_id },
                ),
                opened: self.opened + 1,
            },
            _ => self,
        }
    }

    /// After the last fragment of a request. Where no context takes text, there is none after it
    /// either.
    pub open spec fn finalized(self) -> SynthesisView {
        SynthesisView {
            phase: match self.phase {
                PhaseView::Synthesizing(context) => PhaseView::Draining(context),
                _ => PhaseView::Accepting,
            },
            ..self
        }
    }

    /// The context of the request that the input ended in the middle of.
    pub open spec fn interrupted(self) -> Option<ContextView> {
        match self.phase {
            PhaseView::Synthesizing(context) => Some(context),
            _ => None,
        }
    }

    /// After the end of the input.
    pub open spec fn input_closed(self) -> SynthesisView {
        SynthesisView { phase: PhaseView::Closing(self.interrupted()), ..self }
    }

    /// After the server reported that the context is finished. That changes nothing while the
    /// context takes text or there is none.
    pub open spec fn completed(self) -> SynthesisView {
        match self.phase {
            PhaseView::Draining(_) => SynthesisView { phase: PhaseView::Accepting, ..self },
            PhaseView::Closing(_) => SynthesisView { phase: PhaseView::Closing(None), ..self },
            _ => self,
        }
    }

    /// The request that is complete then.
    pub open spec fn completed_request(self) -> Option<Seq<char>> {
        match self.phase {
            PhaseView::Draining(context) => context.request_id,
            PhaseView::Closing(Some(context)) => context.request_id,
            _ => None,
        }
    }

    /// The request that text is billed to.
    pub open spec fn billed_request(self) -> Option<Seq<char>> {
        match self.phase {
            PhaseView::Synthesizing(context) => context.request_id,
            PhaseView::Draining(context) => context.request_id,
            _ => None,
        }
    }
}

impl SynthesisState {
    /// Nothing was synthesized yet.
    pub fn new() -> (r: SynthesisState)
        ensures
            r@ == SynthesisView::initial(),
    {
        SynthesisState { phase: Phase::Accepting, next_id: 0 }
    }

    /// Whether text is taken. Input is paused while a closed context is finished, and after its
    /// end.
    pub fn accepts_input(&self) -> (r: bool)
        ensures
            r == self@.accepts_input(),
    {
        match &self.phase {
            Phase::Accepting => true,
            Phase::Synthesizing(_) => true,
            Phase::Draining(_) => false,
            Phase::Closing(_) => false,
        }
    }

    /// Records a fragment and returns the id of its context. The first fragment of a request opens
    /// the context, with a request id that must not change until the request is complete.
    pub fn record_fragment(&mut self, request_id: Option<String>) -> (r: Result<String, Error>)
        requires
            old(self)@.accepts_input(),
            old(self)@.phase is Accepting ==> old(self).next_id < u64::MAX,
        ensures
            r is Err <==> old(self)@.changes_request(opt_view(request_id)),
            r matches Ok(id) ==> final(self)@ == old(self)@.recorded(opt_view(request_id)) && Some(
                id@,
            ) == final(self)@.live_id(),
            r matches Err(e) ==> *final(self) == *old(self) && e@ == seq![request_id_changed()],
    {
        match &self.phase {
            Phase::Synthesizing(context) => {
                if request_id.is_some() && !same_opt(&request_id, &context.request_id) {
                    Err(
                        Error::new("ElevenLabs synthesize request id changed within a text sequence"),
                    )
                } else {
                    Ok(context.id.clone())
                }
            },
            _ => {
                self.next_id = self.next_id + 1;
                let id = decimal_text(self.next_id);
                let context = ActiveContext { id: id.clone(), request_id };
                self.phase = Phase::Synthesizing(context);
                Ok(id)
            },
        }
    }

    /// The request that the text is billed to.
    pub fn active_request_id(&self) -> (r: Option<String>)
        ensures
            opt_view(r) == self@.billed_request(),
    {
        match &self.phase {
            Phase::Synthesizing(context) => clone_opt(&context.request_id),
            Phase::Draining(context) => clone_opt(&context.request_id),
            Phase::Accepting => None,
            Phase::Closing(_) => None,
        }
    }

    /// Pauses the input after the last fragment of a request. In any phase but that of a request,
    /// whatever context there is is dropped and input is taken again.
    pub fn finalize(&mut self)
        ensures
            final(self)@ == old(self)@.finalized(),
    {
        let mut phase = Phase::Accepting;
        core::mem::swap(&mut self.phase, &mut phase);
        self.phase = match phase {
            Phase::Synthesizing(context) => Phase::Draining(context),
            _ => Phase::Accepting,
        };
    }

    /// Ends the input and returns the id of the context that is left to be flushed, if any.
    pub fn close_input(&mut self) -> (r: Option<String>)
        ensures
            final(self)@ == old(self)@.input_closed(),
            opt_view(r) == match old(self)@.interrupted() {
                Some(context) => Some(context.id),
                None => None,
            },
    {
        let mut phase = Phase::Closing(None);
        core::mem::swap(&mut self.phase, &mut phase);
        match phase {
            Phase::Synthesizing(context) => {
                let id = context.id.clone();
                self.phase = Phase::Closing(Some(context));
                Some(id)
            },
            _ => None,
        }
    }

    /// Whether the input ended.
    pub fn is_closing(&self) -> (r: bool)
        ensures
            r == self@.is_closing(),
    {
        match &self.phase {
            Phase::Closing(_) => true,
            _ => false,
        }
    }

    /// The id of the live context, which the messages of the server have to match.
    pub fn active_context_id(&self) -> (r: Option<&str>)
        ensures
            opt_str_view(r) == self@.live_id(),
    {
        match &self.phase {
            Phase::Synthesizing(context) => Some(context.id.as_str()),
            Phase::Draining(context) => Some(context.id.as_str()),
            Phase::Closing(Some(context)) => Some(context.id.as_str()),
            Phase::Accepting => None,
            Phase::Closing(None) => None,
        }
    }

    /// Completes the request after the server reported that the context is finished, and takes
    /// input again unless it ended. Returns the request.
    pub fn context_finalized(&mut self) -> (r: Option<String>)
        ensures
            final(self)@ == old(self)@.completed(),
            opt_view(r) == old(self)@.completed_request(),
    {
        let mut phase = Phase::Accepting;
        core::mem::swap(&mut self.phase, &mut phase);
        match phase {
            Phase::Draining(context) => context.request_id,
            Phase::Closing(context) => {
                self.phase = Phase::Closing(None);
                match context {
                    Some(context) => context.request_id,
                    None => None,
                }
            },
            other => {
                self.phase = other;
                None
            },
        }
    }
}

/// A request is completed under the request id of its first fragment: further fragments keep the
/// context, the last one pauses the input, and the report of the server takes it up again.
pub proof fn law_request_life(
    state: SynthesisView,
    first: Option<Seq<char>>,
    next: Option<Seq<char>>,
)
    requires
        state.phase is Accepting,
    ensures
        ({
            let opened = state.recorded(first);
            let drained = opened.recorded(next).finalized();
            &&& opened.recorded(next) == opened
            &&& opened.changes_request(next) <==> next is Some && next != first
            &&& opened.billed_request() == first
            &&& !drained.accepts_input()
            &&& drained.live_id() == opened.live_id()
            &&& drained.completed_request() == first
            &&& drained.completed() == (SynthesisView { opened: state.opened + 1, ..state })
            &&& drained.completed().accepts_input()
        }),
{
}

/// Each context has an id of its own.
pub proof fn law_context_ids_are_new(
    a: SynthesisView,
    b: SynthesisView,
    of_a: Option<Seq<char>>,
    of_b: Option<Seq<char>>,
)
    requires
        a.phase is Accepting,
        b.phase is Accepting,
        a.opened < b.opened,
    ensures
        a.recorded(of_a).live_id() != b.recorded(of_b).live_id(),
{
    if decimal(a.opened + 1) == decimal(b.opened + 1) {
        lemma_decimal_injective(a.opened + 1, b.opened + 1);
    }
}

/// No step goes back to a context number that was used, and after its end no input is taken,
/// whatever the server reports.
pub proof fn law_synthesis_goes_forward(state: SynthesisView, request_id: Option<Seq<char>>)
    ensures
        state.recorded(request_id).opened >= state.opened,
        state.finalized().opened == state.opened,
        state.completed().opened == state.opened,
        state.input_closed().opened == state.opened,
        state.input_closed().is_closing(),
        state.is_closing() ==> state.completed().is_closing(),
        state.is_closing() ==> !state.accepts_input(),
{
}

/// If the input ends in the middle of a request, the request is still completed.
pub proof fn law_interrupted_request_is_completed(state: SynthesisView, context: ContextView)
    requires
        state.phase == PhaseView::Synthesizing(context),
    ensures
        state.input_closed().live_id() == Some(context.id),
        state.input_closed().completed_request() == context.request_id,
        state.input_closed().completed().live() is None,
{
}

} // verus!

//! The orchestration loop as a state machine.
//!
//! A run starts with a system and a user message and a request outstanding.
//! Each reply of the model either ends the run or asks for tool calls; the
//! caller runs the registered handlers of those calls and hands their
//! outcomes back, and the machine answers every call, in order, with one
//! tool message before the next request. The caller performs the actions
//! (sending, running tools); the machine makes every decision.

use vstd::prelude::*;
use crate::conversation::{
    assistant_message, calls_view, content_or_empty, opt_text, plain_message, tool_message,
    ConversationState, MessageView, Role, ToolCall, ToolCallView,
};
use crate::errors::{
    call_error_text, outcome_text, unknown_tool_text, OpenAiCallError, ToolCallError, ToolOutcome,
};
use crate::registry::ToolRegistry;
use crate::response::{ChatResponse, IncomingMessage};

verus! {

/// The iteration bound of a run unless the caller picks another.
pub const DEFAULT_MAX_ITERATIONS: usize = 5;

/// Why a run was aborted.
#[derive(Debug)]
pub enum AbortReason {
    Transport { iteration: usize, detail: String },
    Protocol(String),
    EmptyChoices,
    Cancelled,
}

/// What an abort reason holds.
pub ghost enum AbortView {
    Transport { iteration: nat, detail: Seq<char> },
    Protocol(Seq<char>),
    EmptyChoices,
    Cancelled,
}

impl View for AbortReason {
    type V = AbortView;

    open spec fn view(&self) -> AbortView {
        match self {
            AbortReason::Transport { iteration, detail } => AbortView::Transport {
                iteration: *iteration as nat,
                detail: detail@,
            },
            AbortReason::Protocol(d) => AbortView::Protocol(d@),
            AbortReason::EmptyChoices => AbortView::EmptyChoices,
            AbortReason::Cancelled => AbortView::Cancelled,
        }
    }
}

/// How a run ended.
#[derive(Debug)]
pub enum RunOutcome {
    Success(String),
    Truncated,
    Aborted(AbortReason),
}

/// What a run outcome holds.
pub ghost enum OutcomeView {
    Success(Seq<char>),
    Truncated,
    Aborted(AbortView),
}

impl View for RunOutcome {
    type V = OutcomeView;

    open spec fn view(&self) -> OutcomeView {
        match self {
            RunOutcome::Success(t) => OutcomeView::Success(t@),
            RunOutcome::Truncated => OutcomeView::Truncated,
            RunOutcome::Aborted(a) => OutcomeView::Aborted(a@),
        }
    }
}

/// Where a run stands.
#[derive(Debug)]
pub enum Phase {
    AwaitingModel,
    ExecutingTools,
    Finished(RunOutcome),
}

/// What a phase holds.
pub ghost enum PhaseView {
    AwaitingModel,
    ExecutingTools,
    Finished(OutcomeView),
}

impl View for Phase {
    type V = PhaseView;

    open spec fn view(&self) -> PhaseView {
        match self {
            Phase::AwaitingModel => PhaseView::AwaitingModel,
            Phase::ExecutingTools => PhaseView::ExecutingTools,
            Phase::Finished(o) => PhaseView::Finished(o@),
        }
    }
}

/// What the caller has to do next: send a request built from the
/// conversation and the tool descriptions, run the pending tool calls, or
/// report the outcome.
#[derive(Clone, Copy, Debug, PartialEq, Eq, Structural)]
pub enum Action {
    Send,
    RunTools,
    Finish,
}

/// The whole state of a run.
pub ghost struct LoopView {
    pub model: Seq<char>,
    pub tools: Seq<Seq<char>>,
    pub max_iterations: nat,
    pub conversation: Seq<MessageView>,
    pub iteration: nat,
    pub requests_sent: nat,
    pub phase: PhaseView,
}

/// The action that a phase asks of the caller.
pub open spec fn action_of(p: PhaseView) -> Action {
    match p {
        PhaseView::AwaitingModel => Action::Send,
        PhaseView::ExecutingTools => Action::RunTools,
        PhaseView::Finished(_) => Action::Finish,
    }
}

/// The state of a run: one request is outstanding while the model is
/// awaited; the tool calls of the last assistant message are pending while
/// tools run; at most `max_iterations` requests are ever sent.
pub open spec fn loop_wf(s: LoopView) -> bool {
    &&& s.iteration <= s.max_iterations
    &&& s.requests_sent <= s.max_iterations
    &&& match s.phase {
        PhaseView::AwaitingModel => s.iteration < s.max_iterations && s.requests_sent == s.iteration
            + 1,
        PhaseView::ExecutingTools => {
            &&& s.iteration < s.max_iterations
            &&& s.requests_sent == s.iteration + 1
            &&& s.conversation.len() > 0
            &&& s.conversation.last().role == Role::Assistant
            &&& s.conversation.last().tool_calls.len() > 0
        },
        PhaseView::Finished(OutcomeView::Truncated) => s.iteration == s.max_iterations
            && s.requests_sent == s.max_iterations,
        PhaseView::Finished(_) => s.iteration < s.max_iterations && s.requests_sent == s.iteration
            + 1,
    }
}

/// A new run: the seed messages and, unless the bound is zero, the first
/// request outstanding.
pub open spec fn initial_state(
    model: Seq<char>,
    tools: Seq<Seq<char>>,
    max_iterations: nat,
    system: Seq<char>,
    user: Seq<char>,
) -> LoopView {
    LoopView {
        model,
        tools,
        max_iterations,
        conversation: seq![plain_message(Role::System, system), plain_message(Role::User, user)],
        iteration: 0,
        requests_sent: if max_iterations == 0 {
            0
        } else {
            1
        },
        phase: if max_iterations == 0 {
            PhaseView::Finished(OutcomeView::Truncated)
        } else {
            PhaseView::AwaitingModel
        },
    }
}

/// The tool calls that wait for an answer while tools run.
pub open spec fn pending_calls(s: LoopView) -> Seq<ToolCallView> {
    s.conversation.last().tool_calls
}

/// The positions of the calls that name a registered tool, in order.
pub open spec fn known_positions(calls: Seq<ToolCallView>, tools: Seq<Seq<char>>) -> Seq<nat>
    decreases calls.len(),
{
    if calls.len() == 0 {
        Seq::empty()
    } else {
        let rest = known_positions(calls.drop_last(), tools);
        if tools.contains(calls.last().name) {
            rest.push((calls.len() - 1) as nat)
        } else {
            rest
        }
    }
}

/// The tool messages that answer `calls` in order: a call of a registered
/// tool is answered with the next of `outcomes`, any other call reports the
/// unknown tool.
pub open spec fn tool_replies(
    calls: Seq<ToolCallView>,
    tools: Seq<Seq<char>>,
    outcomes: Seq<ToolOutcome>,
) -> Seq<MessageView>
    decreases calls.len(),
{
    if calls.len() == 0 {
        Seq::empty()
    } else {
        let c = calls.last();
        let k = known_positions(calls.drop_last(), tools).len();
        let content = if tools.contains(c.name) {
            outcome_text(outcomes[k as int])
        } else {
            unknown_tool_text(c.name)
        };
        tool_replies(calls.drop_last(), tools, outcomes).push(tool_message(c.id, content))
    }
}

/// The text of a model message: its content, or empty when absent.
pub open spec fn reply_text(m: IncomingMessage) -> Seq<char> {
    content_or_empty(opt_text(m.content))
}

/// The state after the model's reply (or the failure to get one) arrives.
pub open spec fn after_reply(s: LoopView, reply: Result<ChatResponse, OpenAiCallError>) -> LoopView {
    if !(s.phase is AwaitingModel) {
        s
    } else {
        match reply {
            Err(e) => {
                let reason = match e {
                    OpenAiCallError::Http(_) => AbortView::Transport {
                        iteration: s.iteration,
                        detail: call_error_text(e),
                    },
                    _ => AbortView::Protocol(call_error_text(e)),
                };
                LoopView { phase: PhaseView::Finished(OutcomeView::Aborted(reason)), ..s }
            },
            Ok(resp) => {
                if resp.choices@.len() == 0 {
                    LoopView {
                        phase: PhaseView::Finished(OutcomeView::Aborted(AbortView::EmptyChoices)),
                        ..s
                    }
                } else {
                    let m = resp.choices@[0].message;
                    if m.tool_calls@.len() == 0 {
                        LoopView {
                            phase: PhaseView::Finished(OutcomeView::Success(reply_text(m))),
                            ..s
                        }
                    } else {
                        LoopView {
                            conversation: s.conversation.push(
                                assistant_message(reply_text(m), calls_view(m.tool_calls@)),
                            ),
                            phase: PhaseView::ExecutingTools,
                            ..s
                        }
                    }
                }
            },
        }
    }
}

/// The state after the outcomes of the pending tool calls arrive.
pub open spec fn after_outcomes(s: LoopView, outcomes: Seq<ToolOutcome>) -> LoopView {
    if !(s.phase is ExecutingTools) {
        s
    } else {
        let conversation = s.conversation + tool_replies(pending_calls(s), s.tools, outcomes);
        let iteration = s.iteration + 1;
        if iteration >= s.max_iterations {
            LoopView {
                conversation,
                iteration,
                phase: PhaseView::Finished(OutcomeView::Truncated),
                ..s
            }
        } else {
            LoopView {
                conversation,
                iteration,
                requests_sent: s.requests_sent + 1,
                phase: PhaseView::AwaitingModel,
                ..s
            }
        }
    }
}

/// The state after the caller cancels the run.
pub open spec fn after_cancel(s: LoopView) -> LoopView {
    if s.phase is Finished {
        s
    } else {
        LoopView { phase: PhaseView::Finished(OutcomeView::Aborted(AbortView::Cancelled)), ..s }
    }
}

proof fn lemma_known_prefix(calls: Seq<ToolCallView>, tools: Seq<Seq<char>>, j: int)
    requires
        0 <= j <= calls.len(),
    ensures
        known_positions(calls.take(j), tools).len() <= known_positions(calls, tools).len(),
    decreases calls.len(),
{
    if j == calls.len() {
        assert(calls.take(j) =~= calls);
    } else {
        assert(calls.take(j) =~= calls.drop_last().take(j));
        lemma_known_prefix(calls.drop_last(), tools, j);
    }
}

/// One run of the orchestration loop.
pub struct Orchestrator {
    model: String,
    max_iterations: usize,
    registry: ToolRegistry,
    conversation: ConversationState,
    iteration: usize,
    requests_sent: usize,
    phase: Phase,
}

impl View for Orchestrator {
    type V = LoopView;

    closed spec fn view(&self) -> LoopView {
        LoopView {
            model: self.model@,
            tools: self.registry@,
            max_iterations: self.max_iterations as nat,
            conversation: self.conversation@,
            iteration: self.iteration as nat,
            requests_sent: self.requests_sent as nat,
            phase: self.phase@,
        }
    }
}

impl Orchestrator {
    /// Starts a run seeded with a system and a user message.
    pub fn new(
        model: String,
        max_iterations: usize,
        registry: ToolRegistry,
        system: String,
        user: String,
    ) -> (r: Orchestrator)
        ensures
            r@ == initial_state(model@, registry@, max_iterations as nat, system@, user@),
            loop_wf(r@),
    {
        let mut conversation = ConversationState::new();
        conversation.append_system(system);
        conversation.append_user(user);
        let started = max_iterations > 0;
        let r = Orchestrator {
            model,
            max_iterations,
            registry,
            conversation,
            iteration: 0,
            requests_sent: if started {
                1
            } else {
                0
            },
            phase: if started {
                Phase::AwaitingModel
            } else {
                Phase::Finished(RunOutcome::Truncated)
            },
        };
        assert(r@.conversation =~= initial_state(
            model@,
            registry@,
            max_iterations as nat,
            system@,
            user@,
        ).conversation);
        r
    }

    /// What the caller has to do next.
    pub fn pending_action(&self) -> (r: Action)
        ensures
            r == action_of(self@.phase),
    {
        match self.phase {
            Phase::AwaitingModel => Action::Send,
            Phase::ExecutingTools => Action::RunTools,
            Phase::Finished(_) => Action::Finish,
        }
    }

    /// Takes in the model's reply, or the failure to get one.
    pub fn on_reply(&mut self, reply: Result<ChatResponse, OpenAiCallError>) -> (r: Action)
        requires
            loop_wf(old(self)@),
        ensures
            final(self)@ == after_reply(old(self)@, reply),
            loop_wf(final(self)@),
            r == action_of(final(self)@.phase),
    {
        if !matches!(self.phase, Phase::AwaitingModel) {
            return self.pending_action();
        }
        match reply {
            Err(e) => {
                let detail = e.message();
                let reason = match e {
                    OpenAiCallError::Http(_) => AbortReason::Transport {
                        iteration: self.iteration,
                        detail,
                    },
                    _ => AbortReason::Protocol(detail),
                };
                self.phase = Phase::Finished(RunOutcome::Aborted(reason));
                Action::Finish
            },
            Ok(resp) => {
                let mut choices = resp.choices;
                if choices.len() == 0 {
                    self.phase = Phase::Finished(RunOutcome::Aborted(AbortReason::EmptyChoices));
                    return Action::Finish;
                }
                let choice = choices.swap_remove(0);
                let msg = choice.message;
                if msg.tool_calls.len() == 0 {
                    let text = match msg.content {
                        Some(t) => t,
                        None => String::new(),
                    };
                    self.phase = Phase::Finished(RunOutcome::Success(text));
                    Action::Finish
                } else {
                    self.conversation.append_assistant(msg.content, msg.tool_calls);
                    self.phase = Phase::ExecutingTools;
                    Action::RunTools
                }
            },
        }
    }

    /// Takes in the outcomes of the pending calls of registered tools, one
    /// for each position that `pending_invocations` gives, in that order.
    pub fn on_tool_outcomes(&mut self, outcomes: Vec<ToolOutcome>) -> (r: Action)
        requires
            loop_wf(old(self)@),
            old(self)@.phase is ExecutingTools ==> outcomes@.len() == known_positions(
                pending_calls(old(self)@),
                old(self)@.tools,
            ).len(),
        ensures
            final(self)@ == after_outcomes(old(self)@, outcomes@),
            loop_wf(final(self)@),
            r == action_of(final(self)@.phase),
    {
        if !matches!(self.phase, Phase::ExecutingTools) {
            return self.pending_action();
        }
        let ghost start = self.conversation@;
        let ghost tools = self.registry@;
        let base = self.conversation.len() - 1;
        let n = self.conversation.get(base).tool_calls.len();
        let ghost calls = start[base as int].tool_calls;
        assert(calls == pending_calls(self@));
        assert(start + tool_replies(calls.take(0), tools, outcomes@) =~= start);
        let total = outcomes.len();
        let mut i: usize = 0;
        let mut k: usize = 0;
        while i < n
            invariant
                base + 1 == start.len(),
                calls == start[base as int].tool_calls,
                n == calls.len(),
                i <= n,
                self.registry@ == tools,
                self.conversation@ == start + tool_replies(calls.take(i as int), tools, outcomes@),
                k == known_positions(calls.take(i as int), tools).len(),
                outcomes@.len() == known_positions(calls, tools).len(),
                total == outcomes@.len(),
                self.model@ == old(self).model@,
                self.max_iterations == old(self).max_iterations,
                self.iteration == old(self).iteration,
                self.requests_sent == old(self).requests_sent,
                self.phase is ExecutingTools,
                self.iteration < self.max_iterations,
                self.requests_sent == self.iteration + 1,
            decreases n - i,
        {
            let ghost before = self.conversation@;
            assert(calls.take(i as int + 1).drop_last() =~= calls.take(i as int));
            proof {
                lemma_known_prefix(calls, tools, i as int + 1);
            }
            let msg = self.conversation.get(base);
            assert(msg.tool_calls@[i as int]@ == calls[i as int]);
            let call: &ToolCall = &msg.tool_calls[i];
            let id = call.id.clone();
            let content = match self.registry.lookup(&call.function.name) {
                Some(_) => {
                    assert(tools.contains(calls[i as int].name));
                    assert(known_positions(calls.take(i as int + 1), tools).len() == k + 1);
                    let t = outcomes[k].text();
                    k += 1;
                    t
                },
                None => ToolCallError::UnknownTool(call.function.name.clone()).message(),
            };
            self.conversation.append_tool_result(id, content);
            assert(self.conversation@ =~= start + tool_replies(
                calls.take(i as int + 1),
                tools,
                outcomes@,
            ));
            i += 1;
        }
        assert(calls.take(n as int) =~= calls);
        self.iteration = self.iteration + 1;
        if self.iteration >= self.max_iterations {
            self.phase = Phase::Finished(RunOutcome::Truncated);
            Action::Finish
        } else {
            self.requests_sent = self.requests_sent + 1;
            self.phase = Phase::AwaitingModel;
            Action::Send
        }
    }

    /// The positions, among the pending calls, of the calls whose tool is
    /// registered: the caller runs those handlers, in this order. Empty
    /// unless tools are to run.
    pub fn pending_invocations(&self) -> (r: Vec<usize>)
        requires
            loop_wf(self@),
        ensures
            self@.phase is ExecutingTools ==> r@.map_values(|i: usize| i as nat) == known_positions(
                pending_calls(self@),
                self@.tools,
            ),
            !(self@.phase is ExecutingTools) ==> r@.len() == 0,
    {
        let mut r: Vec<usize> = Vec::new();
        if !matches!(self.phase, Phase::ExecutingTools) {
            return r;
        }
        let base = self.conversation.len() - 1;
        let msg = self.conversation.get(base);
        let ghost calls = pending_calls(self@);
        let ghost tools = self.registry@;
        let n = msg.tool_calls.len();
        let mut i: usize = 0;
        assert(r@.map_values(|i: usize| i as nat) =~= known_positions(calls.take(0), tools));
        while i < n
            invariant
                n == calls.len(),
                calls == calls_view(msg.tool_calls@),
                tools == self.registry@,
                i <= n,
                r@.map_values(|i: usize| i as nat) == known_positions(calls.take(i as int), tools),
            decreases n - i,
        {
            assert(calls.take(i as int + 1).drop_last() =~= calls.take(i as int));
            if self.registry.lookup(&msg.tool_calls[i].function.name).is_some() {
                r.push(i);
            }
            assert(r@.map_values(|i: usize| i as nat) =~= known_positions(
                calls.take(i as int + 1),
                tools,
            ));
            i += 1;
        }
        assert(calls.take(n as int) =~= calls);
        r
    }

    /// The tool calls that wait for an answer.
    pub fn pending_calls(&self) -> (r: &[ToolCall])
        requires
            loop_wf(self@),
            self@.phase is ExecutingTools,
        ensures
            calls_view(r@) == pending_calls(self@),
    {
        let base = self.conversation.len() - 1;
        self.conversation.get(base).tool_calls.as_slice()
    }

    /// The conversation so far.
    pub fn conversation(&self) -> (r: &ConversationState)
        ensures
            r@ == self@.conversation,
    {
        &self.conversation
    }

    /// The registered tools.
    pub fn registry(&self) -> (r: &ToolRegistry)
        ensures
            r@ == self@.tools,
    {
        &self.registry
    }

    /// The model that requests name.
    pub fn model(&self) -> (r: &String)
        ensures
            r@ == self@.model,
    {
        &self.model
    }

    /// The number of requests sent so far, counting the outstanding one.
    pub fn requests_sent(&self) -> (r: usize)
        ensures
            r == self@.requests_sent,
    {
        self.requests_sent
    }

    /// The number of completed iterations.
    pub fn iteration(&self) -> (r: usize)
        ensures
            r == self@.iteration,
    {
        self.iteration
    }

    /// How the run ended, once it has.
    pub fn outcome(&self) -> (r: Option<&RunOutcome>)
        ensures
            match self@.phase {
                PhaseView::Finished(o) => r is Some && r.unwrap()@ == o,
                _ => r is None,
            },
    {
        match &self.phase {
            Phase::Finished(o) => Some(o),
            _ => None,
        }
    }

    /// Cancels the run: the conversation stays as it is.
    pub fn cancel(&mut self) -> (r: Action)
        requires
            loop_wf(old(self)@),
        ensures
            final(self)@ == after_cancel(old(self)@),
            loop_wf(final(self)@),
            r == Action::Finish,
    {
        if !matches!(self.phase, Phase::Finished(_)) {
            self.phase = Phase::Finished(RunOutcome::Aborted(AbortReason::Cancelled));
        }
        Action::Finish
    }
}

} // verus!

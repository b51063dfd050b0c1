//! What holds of every run of the orchestration loop.

use vstd::prelude::*;
use crate::conversation::{assistant_message, calls_view, tool_message, MessageView, Role, ToolCallView};
use crate::errors::{outcome_text, tool_error_text, unknown_tool_text, OpenAiCallError, ToolOutcome};
use crate::orchestrator::{
    action_of, after_cancel, after_outcomes, after_reply, initial_state, known_positions,
    loop_wf, pending_calls, reply_text, tool_replies, AbortView, Action, LoopView, OutcomeView,
    PhaseView,
};
use crate::response::ChatResponse;

verus! {

/// The reply asks for at least one tool call.
pub open spec fn asks_for_tools(reply: Result<ChatResponse, OpenAiCallError>) -> bool {
    match reply {
        Ok(resp) => resp.choices@.len() > 0 && resp.choices@[0].message.tool_calls@.len() > 0,
        Err(_) => false,
    }
}

/// A run driven by a caller: each reply in turn is taken in while the model
/// is awaited, followed by the outcomes of the tools it asked for.
pub open spec fn drive(
    s: LoopView,
    replies: Seq<Result<ChatResponse, OpenAiCallError>>,
    outcomes: Seq<Seq<ToolOutcome>>,
) -> LoopView
    decreases replies.len(),
{
    if replies.len() == 0 || !(s.phase is AwaitingModel) {
        s
    } else {
        let t = after_outcomes(after_reply(s, replies[0]), outcomes[0]);
        drive(t, replies.drop_first(), outcomes.drop_first())
    }
}

/// Taking in a reply keeps a run well formed.
pub proof fn lemma_reply_keeps_wf(s: LoopView, reply: Result<ChatResponse, OpenAiCallError>)
    requires
        loop_wf(s),
    ensures
        loop_wf(after_reply(s, reply)),
{
}

/// Taking in tool outcomes keeps a run well formed.
pub proof fn lemma_outcomes_keep_wf(s: LoopView, outcomes: Seq<ToolOutcome>)
    requires
        loop_wf(s),
    ensures
        loop_wf(after_outcomes(s, outcomes)),
{
}

/// The answers to a sequence of calls: one tool message per call, the i-th
/// answering the i-th call, with the outcome of its handler when the tool is
/// registered and a report of the unknown tool otherwise.
pub proof fn lemma_tool_replies_at(
    calls: Seq<ToolCallView>,
    tools: Seq<Seq<char>>,
    outcomes: Seq<ToolOutcome>,
    i: int,
)
    requires
        0 <= i < calls.len(),
    ensures
        tool_replies(calls, tools, outcomes).len() == calls.len(),
        tool_replies(calls, tools, outcomes)[i] == tool_message(
            calls[i].id,
            if tools.contains(calls[i].name) {
                outcome_text(outcomes[known_positions(calls.take(i), tools).len() as int])
            } else {
                unknown_tool_text(calls[i].name)
            },
        ),
    decreases calls.len(),
{
    lemma_tool_replies_len(calls, tools, outcomes);
    if i < calls.len() - 1 {
        assert(calls.drop_last().take(i) =~= calls.take(i));
        lemma_tool_replies_at(calls.drop_last(), tools, outcomes, i);
    } else {
        assert(calls.drop_last() =~= calls.take(i));
    }
}

proof fn lemma_tool_replies_len(
    calls: Seq<ToolCallView>,
    tools: Seq<Seq<char>>,
    outcomes: Seq<ToolOutcome>,
)
    ensures
        tool_replies(calls, tools, outcomes).len() == calls.len(),
    decreases calls.len(),
{
    if calls.len() > 0 {
        lemma_tool_replies_len(calls.drop_last(), tools, outcomes);
    }
}

/// A model turn that asks for N tool calls is followed by exactly N tool
/// messages, after the assistant message that holds the calls: the i-th
/// answers the i-th call, by its id.
pub proof fn tool_count_invariant(
    s: LoopView,
    reply: Result<ChatResponse, OpenAiCallError>,
    outcomes: Seq<ToolOutcome>,
)
    requires
        loop_wf(s),
        s.phase is AwaitingModel,
        asks_for_tools(reply),
    ensures
        ({
            let calls = calls_view(reply->Ok_0.choices@[0].message.tool_calls@);
            let t = after_outcomes(after_reply(s, reply), outcomes);
            let n = s.conversation.len();
            &&& t.conversation.len() == n + 1 + calls.len()
            &&& t.conversation.take(n as int) == s.conversation
            &&& t.conversation[n as int] == assistant_message(
                reply_text(reply->Ok_0.choices@[0].message),
                calls,
            )
            &&& forall|i: int|
                0 <= i < calls.len() ==> {
                    &&& #[trigger] t.conversation[n + 1 + i].role == Role::Tool
                    &&& t.conversation[n + 1 + i].tool_call_id == Some(calls[i].id)
                }
        }),
{
    let calls = calls_view(reply->Ok_0.choices@[0].message.tool_calls@);
    let s1 = after_reply(s, reply);
    let t = after_outcomes(s1, outcomes);
    let n = s.conversation.len();
    assert(pending_calls(s1) == calls);
    lemma_tool_replies_len(calls, s.tools, outcomes);
    assert(t.conversation.take(n as int) =~= s.conversation);
    assert forall|i: int| 0 <= i < calls.len() implies {
        &&& #[trigger] t.conversation[n + 1 + i].role == Role::Tool
        &&& t.conversation[n + 1 + i].tool_call_id == Some(calls[i].id)
    } by {
        lemma_tool_replies_at(calls, s.tools, outcomes, i);
    }
}

/// A first reply without tool calls ends the run with its text after exactly
/// one request.
pub proof fn immediate_termination(
    model: Seq<char>,
    tools: Seq<Seq<char>>,
    max_iterations: nat,
    system: Seq<char>,
    user: Seq<char>,
    resp: ChatResponse,
)
    requires
        max_iterations > 0,
        resp.choices@.len() > 0,
        resp.choices@[0].message.tool_calls@.len() == 0,
    ensures
        ({
            let t = after_reply(
                initial_state(model, tools, max_iterations, system, user),
                Ok(resp),
            );
            &&& t.phase == PhaseView::Finished(
                OutcomeView::Success(reply_text(resp.choices@[0].message)),
            )
            &&& t.requests_sent == 1
            &&& action_of(t.phase) == Action::Finish
        }),
{
}

proof fn lemma_drive_truncates(
    s: LoopView,
    replies: Seq<Result<ChatResponse, OpenAiCallError>>,
    outcomes: Seq<Seq<ToolOutcome>>,
)
    requires
        loop_wf(s),
        s.phase is AwaitingModel,
        replies.len() >= s.max_iterations - s.iteration,
        forall|j: int| 0 <= j < replies.len() ==> asks_for_tools(#[trigger] replies[j]),
    ensures
        drive(s, replies, outcomes).phase == PhaseView::Finished(OutcomeView::Truncated),
        drive(s, replies, outcomes).requests_sent == s.max_iterations,
    decreases replies.len(),
{
    assert(asks_for_tools(replies[0]));
    let t = after_outcomes(after_reply(s, replies[0]), outcomes[0]);
    if t.phase is AwaitingModel {
        assert forall|j: int| 0 <= j < replies.drop_first().len() implies asks_for_tools(
            #[trigger] replies.drop_first()[j],
        ) by {
            assert(replies.drop_first()[j] == replies[j + 1]);
        }
        lemma_drive_truncates(t, replies.drop_first(), outcomes.drop_first());
    } else {
        assert(drive(t, replies.drop_first(), outcomes.drop_first()) == t);
    }
}

/// With an iteration bound of K and a model that always asks for a tool,
/// the run ends truncated after exactly K requests; no further request is
/// ever sent.
pub proof fn bounded_iteration(
    model: Seq<char>,
    tools: Seq<Seq<char>>,
    max_iterations: nat,
    system: Seq<char>,
    user: Seq<char>,
    replies: Seq<Result<ChatResponse, OpenAiCallError>>,
    outcomes: Seq<Seq<ToolOutcome>>,
)
    requires
        max_iterations > 0,
        replies.len() >= max_iterations,
        forall|j: int| 0 <= j < replies.len() ==> asks_for_tools(#[trigger] replies[j]),
    ensures
        ({
            let t = drive(initial_state(model, tools, max_iterations, system, user), replies, outcomes);
            &&& t.phase == PhaseView::Finished(OutcomeView::Truncated)
            &&& t.requests_sent == max_iterations
        }),
{
    lemma_drive_truncates(
        initial_state(model, tools, max_iterations, system, user),
        replies,
        outcomes,
    );
}

/// No run ever sends more requests than its bound.
pub proof fn requests_within_bound(
    s: LoopView,
    replies: Seq<Result<ChatResponse, OpenAiCallError>>,
    outcomes: Seq<Seq<ToolOutcome>>,
)
    requires
        loop_wf(s),
    ensures
        loop_wf(drive(s, replies, outcomes)),
        drive(s, replies, outcomes).requests_sent <= s.max_iterations,
    decreases replies.len(),
{
    if replies.len() > 0 && s.phase is AwaitingModel {
        let t = after_outcomes(after_reply(s, replies[0]), outcomes[0]);
        lemma_reply_keeps_wf(s, replies[0]);
        lemma_outcomes_keep_wf(after_reply(s, replies[0]), outcomes[0]);
        requests_within_bound(t, replies.drop_first(), outcomes.drop_first());
    }
}

/// A call of a tool that is not registered is answered with a tool message
/// that reports the unknown tool, and the run goes on to the next request
/// unless its bound is reached.
pub proof fn unknown_tool_safety(s: LoopView, outcomes: Seq<ToolOutcome>, i: int)
    requires
        loop_wf(s),
        s.phase is ExecutingTools,
        0 <= i < pending_calls(s).len(),
        !s.tools.contains(pending_calls(s)[i].name),
    ensures
        ({
            let t = after_outcomes(s, outcomes);
            let c = pending_calls(s)[i];
            &&& t.conversation[s.conversation.len() + i] == tool_message(
                c.id,
                unknown_tool_text(c.name),
            )
            &&& s.iteration + 1 < s.max_iterations ==> t.phase is AwaitingModel
        }),
{
    lemma_tool_replies_at(pending_calls(s), s.tools, outcomes, i);
}

/// A call whose handler fails (on arguments that are not valid JSON, say)
/// is answered with a tool message that reports the failure, and the run
/// goes on to the next request unless its bound is reached.
pub proof fn failed_handler_safety(s: LoopView, outcomes: Seq<ToolOutcome>, i: int)
    requires
        loop_wf(s),
        s.phase is ExecutingTools,
        0 <= i < pending_calls(s).len(),
        s.tools.contains(pending_calls(s)[i].name),
        outcomes[known_positions(pending_calls(s).take(i), s.tools).len() as int] is Failure,
    ensures
        ({
            let t = after_outcomes(s, outcomes);
            let c = pending_calls(s)[i];
            let e = outcomes[known_positions(pending_calls(s).take(i), s.tools).len() as int]->Failure_0;
            &&& t.conversation[s.conversation.len() + i] == tool_message(c.id, tool_error_text(e))
            &&& s.iteration + 1 < s.max_iterations ==> t.phase is AwaitingModel
        }),
{
    lemma_tool_replies_at(pending_calls(s), s.tools, outcomes, i);
}

/// Whether the message at `j` answers a call of an earlier assistant message.
pub open spec fn answers_earlier_call(log: Seq<MessageView>, j: int) -> bool {
    exists|a: int, c: int|
        0 <= a < j && log[a].role == Role::Assistant && 0 <= c < log[a].tool_calls.len()
            && log[j].tool_call_id == Some(#[trigger] log[a].tool_calls[c].id)
}

/// Every tool message of the log answers a call of an earlier assistant message.
pub open spec fn tool_messages_answer_calls(log: Seq<MessageView>) -> bool {
    forall|j: int| 0 <= j < log.len() && #[trigger] log[j].role == Role::Tool ==> answers_earlier_call(log, j)
}

proof fn lemma_prefix_answers(log: Seq<MessageView>, more: Seq<MessageView>, j: int)
    requires
        0 <= j < log.len(),
        answers_earlier_call(log, j),
    ensures
        answers_earlier_call(log + more, j),
{
    let (a, c) = choose|a: int, c: int|
        0 <= a < j && log[a].role == Role::Assistant && 0 <= c < log[a].tool_calls.len()
            && log[j].tool_call_id == Some(#[trigger] log[a].tool_calls[c].id);
    let l2 = log + more;
    assert(l2[a] == log[a]);
    assert(l2[j] == log[j]);
    assert(l2[a].tool_calls[c].id == log[a].tool_calls[c].id);
}

proof fn lemma_step_answers(s: LoopView, reply: Result<ChatResponse, OpenAiCallError>, outcomes: Seq<ToolOutcome>)
    requires
        loop_wf(s),
        tool_messages_answer_calls(s.conversation),
    ensures
        tool_messages_answer_calls(after_reply(s, reply).conversation),
        tool_messages_answer_calls(after_outcomes(after_reply(s, reply), outcomes).conversation),
{
    let s1 = after_reply(s, reply);
    lemma_reply_keeps_wf(s, reply);
    if s1.conversation != s.conversation {
        let m = s1.conversation.last();
        assert(s1.conversation =~= s.conversation + seq![m]);
        assert forall|j: int| 0 <= j < s1.conversation.len() && #[trigger] s1.conversation[j].role == Role::Tool
            implies answers_earlier_call(s1.conversation, j) by {
            lemma_prefix_answers(s.conversation, seq![m], j);
        }
    }
    if s1.phase is ExecutingTools {
        let calls = pending_calls(s1);
        let n = s1.conversation.len();
        let replies = tool_replies(calls, s1.tools, outcomes);
        let t = after_outcomes(s1, outcomes);
        lemma_tool_replies_len(calls, s1.tools, outcomes);
        assert(t.conversation == s1.conversation + replies);
        assert forall|j: int| 0 <= j < t.conversation.len() && #[trigger] t.conversation[j].role == Role::Tool
            implies answers_earlier_call(t.conversation, j) by {
            if j < n {
                lemma_prefix_answers(s1.conversation, replies, j);
            } else {
                let i = j - n;
                lemma_tool_replies_at(calls, s1.tools, outcomes, i);
                assert(t.conversation[n - 1] == s1.conversation.last());
                assert(t.conversation[j].tool_call_id == Some(t.conversation[n - 1].tool_calls[i].id));
            }
        }
    }
}

/// From a log in which every tool message answers a call of an earlier
/// assistant message, every run keeps it so; a new run's log has no tool
/// message at all.
pub proof fn tool_messages_follow_their_calls(
    s: LoopView,
    replies: Seq<Result<ChatResponse, OpenAiCallError>>,
    outcomes: Seq<Seq<ToolOutcome>>,
)
    requires
        loop_wf(s),
        tool_messages_answer_calls(s.conversation),
    ensures
        tool_messages_answer_calls(drive(s, replies, outcomes).conversation),
    decreases replies.len(),
{
    if replies.len() > 0 && s.phase is AwaitingModel {
        let t = after_outcomes(after_reply(s, replies[0]), outcomes[0]);
        lemma_step_answers(s, replies[0], outcomes[0]);
        lemma_reply_keeps_wf(s, replies[0]);
        lemma_outcomes_keep_wf(after_reply(s, replies[0]), outcomes[0]);
        tool_messages_follow_their_calls(t, replies.drop_first(), outcomes.drop_first());
    }
}

/// A new run starts with no tool message.
pub proof fn new_run_has_no_tool_message(
    model: Seq<char>,
    tools: Seq<Seq<char>>,
    max_iterations: nat,
    system: Seq<char>,
    user: Seq<char>,
)
    ensures
        tool_messages_answer_calls(initial_state(model, tools, max_iterations, system, user).conversation),
{
}

/// Cancelling while the model is awaited aborts the run and keeps the
/// conversation exactly as the previous iterations left it.
pub proof fn cancellation(s: LoopView)
    requires
        loop_wf(s),
        s.phase is AwaitingModel,
    ensures
        after_cancel(s).phase == PhaseView::Finished(OutcomeView::Aborted(AbortView::Cancelled)),
        after_cancel(s).conversation == s.conversation,
        after_cancel(s).requests_sent == s.requests_sent,
{
}

} // verus!

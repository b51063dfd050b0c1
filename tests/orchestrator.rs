use chat_tools::conversation::{CalledFunction, Role, ToolCall};
use chat_tools::errors::{OpenAiCallError, ToolCallError, ToolOutcome};
use chat_tools::first_call::{execute_first_tool_call, ToolCallOutcome};
use chat_tools::orchestrator::{AbortReason, Action, Orchestrator, RunOutcome, DEFAULT_MAX_ITERATIONS};
use chat_tools::registry::{JsonSchemaObject, RegistryError, ToolDefinition, ToolFunctionDefinition, ToolRegistry};
use chat_tools::response::{ChatResponse, Choice, IncomingMessage};

fn definition(name: &str) -> ToolDefinition {
    ToolDefinition {
        tool_type: "function".to_string(),
        function: ToolFunctionDefinition {
            name: name.to_string(),
            description: "test tool".to_string(),
            parameters: JsonSchemaObject {
                schema_type: "object".to_string(),
                properties: serde_json::Value::Object(serde_json::Map::new()),
                required: vec!["a".to_string(), "b".to_string()],
            },
        },
    }
}

fn registry(names: &[&str]) -> ToolRegistry {
    let mut r = ToolRegistry::new();
    for n in names {
        assert!(r.register(definition(n)).is_ok());
    }
    r
}

fn call(id: &str, name: &str, arguments: &str) -> ToolCall {
    ToolCall {
        id: id.to_string(),
        call_type: "function".to_string(),
        function: CalledFunction { name: name.to_string(), arguments: arguments.to_string() },
    }
}

fn reply(content: Option<&str>, calls: Vec<ToolCall>) -> Result<ChatResponse, OpenAiCallError> {
    Ok(ChatResponse {
        choices: vec![Choice {
            message: IncomingMessage {
                role: "assistant".to_string(),
                content: content.map(|c| c.to_string()),
                tool_calls: calls,
            },
        }],
    })
}

fn start(max: usize, names: &[&str], user: &str) -> Orchestrator {
    Orchestrator::new(
        "gpt-4o-mini".to_string(),
        max,
        registry(names),
        "system prompt".to_string(),
        user.to_string(),
    )
}

#[test]
fn sum_scenario_ends_after_two_requests() {
    let mut o = start(DEFAULT_MAX_ITERATIONS, &["sum"], "3 and 8, add them");
    assert_eq!(o.pending_action(), Action::Send);
    assert_eq!(o.conversation().len(), 2);
    let a = o.on_reply(reply(None, vec![call("call_1", "sum", "{\"a\":3,\"b\":8}")]));
    assert_eq!(a, Action::RunTools);
    assert_eq!(o.pending_invocations(), vec![0]);
    let args = &o.pending_calls()[0].function.arguments;
    assert_eq!(args, "{\"a\":3,\"b\":8}");
    let result: f64 = 3.0 + 8.0;
    let a = o.on_tool_outcomes(vec![ToolOutcome::Success(result.to_string())]);
    assert_eq!(a, Action::Send);
    let log = o.conversation().snapshot();
    assert_eq!(log.len(), 4);
    assert_eq!(log[2].role, Role::Assistant);
    assert_eq!(log[2].content, "");
    assert_eq!(log[3].role, Role::Tool);
    assert_eq!(log[3].tool_call_id.as_deref(), Some("call_1"));
    assert_eq!(log[3].content, "11");
    let a = o.on_reply(reply(Some("3 + 8 = 11"), vec![]));
    assert_eq!(a, Action::Finish);
    assert_eq!(o.requests_sent(), 2);
    match o.outcome() {
        Some(RunOutcome::Success(t)) => assert_eq!(t, "3 + 8 = 11"),
        other => panic!("unexpected outcome {:?}", other),
    }
}

#[test]
fn first_reply_without_calls_ends_at_once() {
    let mut o = start(5, &["sum"], "hi");
    let a = o.on_reply(reply(Some("hello"), vec![]));
    assert_eq!(a, Action::Finish);
    assert_eq!(o.requests_sent(), 1);
    assert_eq!(o.conversation().len(), 2);
    assert!(matches!(o.outcome(), Some(RunOutcome::Success(t)) if t == "hello"));
}

#[test]
fn absent_final_content_is_empty_answer() {
    let mut o = start(5, &[], "hi");
    o.on_reply(reply(None, vec![]));
    assert!(matches!(o.outcome(), Some(RunOutcome::Success(t)) if t.is_empty()));
}

#[test]
fn run_is_truncated_after_max_iterations() {
    let k = 3;
    let mut o = start(k, &["sum"], "loop");
    let mut actions = Vec::new();
    for i in 0..10 {
        if o.pending_action() != Action::Send {
            break;
        }
        let id = format!("call_{i}");
        o.on_reply(reply(None, vec![call(&id, "sum", "{}")]));
        actions.push(o.on_tool_outcomes(vec![ToolOutcome::Success("1".to_string())]));
    }
    assert_eq!(actions, vec![Action::Send, Action::Send, Action::Finish]);
    assert_eq!(o.requests_sent(), k);
    assert_eq!(o.iteration(), k);
    assert!(matches!(o.outcome(), Some(RunOutcome::Truncated)));
    assert_eq!(o.conversation().len(), 2 + 2 * k);
}

#[test]
fn zero_bound_sends_nothing() {
    let o = start(0, &[], "x");
    assert_eq!(o.pending_action(), Action::Finish);
    assert_eq!(o.requests_sent(), 0);
    assert!(matches!(o.outcome(), Some(RunOutcome::Truncated)));
}

#[test]
fn every_call_gets_one_answer_in_order() {
    let mut o = start(5, &["sum", "times"], "many");
    let content = Some("thinking");
    o.on_reply(reply(
        content,
        vec![call("c1", "times", "{}"), call("c2", "nope", "{}"), call("c3", "sum", "{}")],
    ));
    assert_eq!(o.pending_invocations(), vec![0, 2]);
    let a = o.on_tool_outcomes(vec![
        ToolOutcome::Success("6".to_string()),
        ToolOutcome::Success("5".to_string()),
    ]);
    assert_eq!(a, Action::Send);
    let log = o.conversation().snapshot();
    assert_eq!(log.len(), 6);
    assert_eq!(log[2].content, "thinking");
    assert_eq!(log[2].tool_calls.len(), 3);
    let ids: Vec<_> = log[3..].iter().map(|m| m.tool_call_id.clone().unwrap()).collect();
    assert_eq!(ids, vec!["c1", "c2", "c3"]);
    assert_eq!(log[3].content, "6");
    assert_eq!(log[5].content, "5");
}

#[test]
fn unknown_tool_is_reported_and_run_goes_on() {
    let mut o = start(5, &["sum"], "x");
    o.on_reply(reply(None, vec![call("c9", "divide", "{}")]));
    assert!(o.pending_invocations().is_empty());
    let a = o.on_tool_outcomes(vec![]);
    assert_eq!(a, Action::Send);
    let log = o.conversation().snapshot();
    assert_eq!(log[3].role, Role::Tool);
    assert_eq!(log[3].tool_call_id.as_deref(), Some("c9"));
    assert_eq!(log[3].content, "未知のツール: divide");
}

#[test]
fn bad_arguments_are_reported_and_run_goes_on() {
    let mut o = start(5, &["sum"], "x");
    o.on_reply(reply(None, vec![call("c1", "sum", "not json")]));
    let a = o.on_tool_outcomes(vec![ToolOutcome::Failure(ToolCallError::ArgParse(
        "expected value".to_string(),
    ))]);
    assert_eq!(a, Action::Send);
    assert_eq!(o.conversation().snapshot()[3].content, "引数パース失敗: expected value");
    o.on_reply(reply(None, vec![call("c2", "sum", "{}")]));
    o.on_tool_outcomes(vec![ToolOutcome::Failure(ToolCallError::HandlerFailure("boom".to_string()))]);
    assert_eq!(o.conversation().snapshot()[5].content, "ツール実行失敗: boom");
}

#[test]
fn cancel_keeps_earlier_history() {
    let mut o = start(5, &["sum"], "x");
    o.on_reply(reply(None, vec![call("c1", "sum", "{}")]));
    o.on_tool_outcomes(vec![ToolOutcome::Success("1".to_string())]);
    let before = o.conversation().len();
    assert_eq!(o.cancel(), Action::Finish);
    assert_eq!(o.conversation().len(), before);
    assert!(matches!(o.outcome(), Some(RunOutcome::Aborted(AbortReason::Cancelled))));
    assert_eq!(o.on_reply(reply(Some("late"), vec![])), Action::Finish);
    assert!(matches!(o.outcome(), Some(RunOutcome::Aborted(AbortReason::Cancelled))));
}

#[test]
fn transport_failure_aborts_with_iteration() {
    let mut o = start(5, &["sum"], "x");
    o.on_reply(reply(None, vec![call("c1", "sum", "{}")]));
    o.on_tool_outcomes(vec![ToolOutcome::Success("1".to_string())]);
    let a = o.on_reply(Err(OpenAiCallError::Http("status=500 body=oops".to_string())));
    assert_eq!(a, Action::Finish);
    match o.outcome() {
        Some(RunOutcome::Aborted(AbortReason::Transport { iteration, detail })) => {
            assert_eq!(*iteration, 1);
            assert_eq!(detail, "HTTPエラー: status=500 body=oops");
        }
        other => panic!("unexpected outcome {:?}", other),
    }
}

#[test]
fn malformed_reply_is_protocol_error() {
    let mut o = start(5, &[], "x");
    o.on_reply(Err(OpenAiCallError::JsonParse("missing field".to_string())));
    assert!(matches!(o.outcome(), Some(RunOutcome::Aborted(AbortReason::Protocol(d))) if d == "JSONパース失敗: missing field"));
}

#[test]
fn empty_choices_abort() {
    let mut o = start(5, &[], "x");
    o.on_reply(Ok(ChatResponse { choices: vec![] }));
    assert!(matches!(o.outcome(), Some(RunOutcome::Aborted(AbortReason::EmptyChoices))));
    assert_eq!(o.requests_sent(), 1);
}

#[test]
fn duplicate_tool_is_refused() {
    let mut r = registry(&["sum"]);
    match r.register(definition("sum")) {
        Err(RegistryError::DuplicateTool(n)) => assert_eq!(n, "sum"),
        Ok(()) => panic!("duplicate accepted"),
    }
    assert_eq!(r.describe_all().len(), 1);
    assert_eq!(r.lookup(&"sum".to_string()), Some(0));
    assert_eq!(r.lookup(&"times".to_string()), None);
}

#[test]
fn first_call_selection() {
    let r = registry(&["calc_sum"]);
    let empty = ChatResponse { choices: vec![] };
    assert!(matches!(execute_first_tool_call(&empty, &r), Err(ToolCallError::EmptyChoices)));
    let none = reply(Some("hi"), vec![]).unwrap();
    assert!(matches!(execute_first_tool_call(&none, &r), Ok(ToolCallOutcome::NoToolCall)));
    let unknown = reply(None, vec![call("x", "calc_pow", "{}")]).unwrap();
    assert!(matches!(execute_first_tool_call(&unknown, &r), Err(ToolCallError::UnknownTool(n)) if n == "calc_pow"));
    let known = reply(None, vec![call("id1", "calc_sum", "{\"a\":1,\"b\":2}"), call("id2", "x", "")]).unwrap();
    match execute_first_tool_call(&known, &r) {
        Ok(ToolCallOutcome::Resolved { tool_name, tool_call_id, raw_arguments }) => {
            assert_eq!(tool_name, "calc_sum");
            assert_eq!(tool_call_id, "id1");
            assert_eq!(raw_arguments, "{\"a\":1,\"b\":2}");
        }
        other => panic!("unexpected {:?}", other),
    }
}

#[test]
fn error_messages() {
    assert_eq!(ToolCallError::EmptyChoices.message(), "choices が空");
    assert_eq!(OpenAiCallError::JsonBuild("x".to_string()).message(), "JSON生成失敗: x");
}

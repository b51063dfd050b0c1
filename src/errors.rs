//! Error kinds of tool calls and of calls to the chat service, and the
//! outcome of running one tool.

use vstd::prelude::*;

verus! {

/// Why a tool call produced no result.
#[derive(Debug)]
pub enum ToolCallError {
    EmptyChoices,
    UnknownTool(String),
    ArgParse(String),
    HandlerFailure(String),
}

/// The description of a call to a tool that is not registered.
pub open spec fn unknown_tool_text(name: Seq<char>) -> Seq<char> {
    "未知のツール: "@ + name
}

/// The human-readable description of a tool-call error.
pub open spec fn tool_error_text(e: ToolCallError) -> Seq<char> {
    match e {
        ToolCallError::EmptyChoices => "choices が空"@,
        ToolCallError::UnknownTool(n) => unknown_tool_text(n@),
        ToolCallError::ArgParse(d) => "引数パース失敗: "@ + d@,
        ToolCallError::HandlerFailure(d) => "ツール実行失敗: "@ + d@,
    }
}

impl ToolCallError {
    /// The human-readable description of this error.
    pub fn message(&self) -> (r: String)
        ensures
            r@ == tool_error_text(*self),
    {
        match self {
            ToolCallError::EmptyChoices => String::from_str("choices が空"),
            ToolCallError::UnknownTool(n) => String::from_str("未知のツール: ").concat(n.as_str()),
            ToolCallError::ArgParse(d) => String::from_str("引数パース失敗: ").concat(d.as_str()),
            ToolCallError::HandlerFailure(d) => String::from_str("ツール実行失敗: ").concat(
                d.as_str(),
            ),
        }
    }
}

/// Why a call to the chat service failed.
#[derive(Debug)]
pub enum OpenAiCallError {
    Http(String),
    JsonBuild(String),
    JsonParse(String),
}

/// The human-readable description of a chat-service error.
pub open spec fn call_error_text(e: OpenAiCallError) -> Seq<char> {
    match e {
        OpenAiCallError::Http(d) => "HTTPエラー: "@ + d@,
        OpenAiCallError::JsonBuild(d) => "JSON生成失敗: "@ + d@,
        OpenAiCallError::JsonParse(d) => "JSONパース失敗: "@ + d@,
    }
}

impl OpenAiCallError {
    /// The human-readable description of this error.
    pub fn message(&self) -> (r: String)
        ensures
            r@ == call_error_text(*self),
    {
        match self {
            OpenAiCallError::Http(d) => String::from_str("HTTPエラー: ").concat(d.as_str()),
            OpenAiCallError::JsonBuild(d) => String::from_str("JSON生成失敗: ").concat(d.as_str()),
            OpenAiCallError::JsonParse(d) => String::from_str("JSONパース失敗: ").concat(
                d.as_str(),
            ),
        }
    }
}

/// What running one tool handler gave: its result text, or an error.
#[derive(Debug)]
pub enum ToolOutcome {
    Success(String),
    Failure(ToolCallError),
}

/// The content of the tool message that reports an outcome.
pub open spec fn outcome_text(o: ToolOutcome) -> Seq<char> {
    match o {
        ToolOutcome::Success(t) => t@,
        ToolOutcome::Failure(e) => tool_error_text(e),
    }
}

impl ToolOutcome {
    /// The content of the tool message that reports this outcome.
    pub fn text(&self) -> (r: String)
        ensures
            r@ == outcome_text(*self),
    {
        match self {
            ToolOutcome::Success(t) => t.clone(),
            ToolOutcome::Failure(e) => e.message(),
        }
    }
}

} // verus!

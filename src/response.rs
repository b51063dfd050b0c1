//! The shape of a reply of the chat service.

use vstd::prelude::*;
use crate::conversation::ToolCall;

verus! {

/// A reply of the chat service: the candidate messages it offers.
#[derive(Debug)]
pub struct ChatResponse {
    pub choices: Vec<Choice>,
}

/// One candidate of a reply.
#[derive(Debug)]
pub struct Choice {
    pub message: IncomingMessage,
}

/// The message of a candidate; `tool_calls` is empty when the model
/// answers without calling a tool.
#[derive(Debug)]
pub struct IncomingMessage {
    pub role: String,
    pub content: Option<String>,
    pub tool_calls: Vec<ToolCall>,
}

} // verus!

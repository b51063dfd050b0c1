//! Single-shot handling of a reply: pick out the first tool call, if any.

use vstd::prelude::*;
use crate::errors::ToolCallError;
use crate::registry::ToolRegistry;
use crate::response::ChatResponse;

verus! {

/// What the first candidate of a reply asks for.
#[derive(Debug)]
pub enum ToolCallOutcome {
    NoToolCall,
    Resolved { tool_name: String, tool_call_id: String, raw_arguments: String },
}

/// Picks the first tool call of the first candidate and checks that its tool
/// is registered; running the tool is up to the caller.
pub fn execute_first_tool_call(parsed: &ChatResponse, registry: &ToolRegistry) -> (r: Result<
    ToolCallOutcome,
    ToolCallError,
>)
    ensures
        parsed.choices@.len() == 0 ==> r is Err && r->Err_0 is EmptyChoices,
        parsed.choices@.len() > 0 ==> {
            let calls = parsed.choices@[0].message.tool_calls@;
            &&& calls.len() == 0 ==> r is Ok && r->Ok_0 is NoToolCall
            &&& calls.len() > 0 && !registry@.contains(calls[0].function.name@) ==> r is Err && (
            match r->Err_0 {
                ToolCallError::UnknownTool(n) => n@ == calls[0].function.name@,
                _ => false,
            })
            &&& calls.len() > 0 && registry@.contains(calls[0].function.name@) ==> r is Ok && (
            match r->Ok_0 {
                ToolCallOutcome::Resolved { tool_name, tool_call_id, raw_arguments } => {
                    &&& tool_name@ == calls[0].function.name@
                    &&& tool_call_id@ == calls[0].id@
                    &&& raw_arguments@ == calls[0].function.arguments@
                },
                _ => false,
            })
        },
{
    if parsed.choices.len() == 0 {
        return Err(ToolCallError::EmptyChoices);
    }
    let msg = &parsed.choices[0].message;
    if msg.tool_calls.len() == 0 {
        return Ok(ToolCallOutcome::NoToolCall);
    }
    let tc = &msg.tool_calls[0];
    match registry.lookup(&tc.function.name) {
        None => Err(ToolCallError::UnknownTool(tc.function.name.clone())),
        Some(_) => Ok(
            ToolCallOutcome::Resolved {
                tool_name: tc.function.name.clone(),
                tool_call_id: tc.id.clone(),
                raw_arguments: tc.function.arguments.clone(),
            },
        ),
    }
}

} // verus!

//! A library around a chat model that may call local tools: the conversation
//! log, the tool registry and dispatcher, the state machine of the
//! orchestration loop, and the memo and weather-memo logic that the tools use.

pub mod clock;
pub mod conversation;
pub mod errors;
pub mod first_call;
pub mod guarantees;
pub mod janken;
pub mod memo;
pub mod orchestrator;
pub mod registry;
pub mod response;
pub mod text;
pub mod weather;

//! The conversation log: an ordered, append-only sequence of role-tagged
//! messages, sent to the model and extended with its replies.

use vstd::prelude::*;

verus! {

/// Who wrote a message.
#[derive(Clone, Copy, Debug, PartialEq, Eq, Structural)]
pub enum Role {
    System,
    User,
    Assistant,
    Tool,
}

impl Role {
    /// The role's name on the wire.
    pub fn as_str(&self) -> (r: &'static str)
        ensures
            r@ == role_name(*self),
    {
        match self {
            Role::System => "system",
            Role::User => "user",
            Role::Assistant => "assistant",
            Role::Tool => "tool",
        }
    }
}

/// The role's name on the wire.
pub open spec fn role_name(r: Role) -> Seq<char> {
    match r {
        Role::System => "system"@,
        Role::User => "user"@,
        Role::Assistant => "assistant"@,
        Role::Tool => "tool"@,
    }
}

/// The function that a tool call asks for, with its arguments as raw JSON text.
#[derive(Debug)]
pub struct CalledFunction {
    pub name: String,
    pub arguments: String,
}

/// One tool call requested by the model.
#[derive(Debug)]
pub struct ToolCall {
    pub id: String,
    pub call_type: String,
    pub function: CalledFunction,
}

/// What a tool call holds, as text.
pub ghost struct ToolCallView {
    pub id: Seq<char>,
    pub call_type: Seq<char>,
    pub name: Seq<char>,
    pub arguments: Seq<char>,
}

impl View for ToolCall {
    type V = ToolCallView;

    open spec fn view(&self) -> ToolCallView {
        ToolCallView {
            id: self.id@,
            call_type: self.call_type@,
            name: self.function.name@,
            arguments: self.function.arguments@,
        }
    }
}

/// The views of a sequence of tool calls.
pub open spec fn calls_view(calls: Seq<ToolCall>) -> Seq<ToolCallView> {
    calls.map_values(|c: ToolCall| c@)
}

/// One entry of the conversation log. `tool_calls` is non-empty only on
/// assistant messages and `tool_call_id` is present only on tool messages.
#[derive(Debug)]
pub struct OutgoingMessage {
    pub role: Role,
    pub content: String,
    pub tool_calls: Vec<ToolCall>,
    pub tool_call_id: Option<String>,
}

/// What a log entry holds.
pub ghost struct MessageView {
    pub role: Role,
    pub content: Seq<char>,
    pub tool_calls: Seq<ToolCallView>,
    pub tool_call_id: Option<Seq<char>>,
}

/// The view of an optional string.
pub open spec fn opt_text(o: Option<String>) -> Option<Seq<char>> {
    match o {
        Some(s) => Some(s@),
        None => None,
    }
}

impl View for OutgoingMessage {
    type V = MessageView;

    open spec fn view(&self) -> MessageView {
        MessageView {
            role: self.role,
            content: self.content@,
            tool_calls: calls_view(self.tool_calls@),
            tool_call_id: opt_text(self.tool_call_id),
        }
    }
}

/// A message of the given role and text, with no tool calls.
pub open spec fn plain_message(role: Role, text: Seq<char>) -> MessageView {
    MessageView { role, content: text, tool_calls: Seq::empty(), tool_call_id: None }
}

/// An assistant message that asks for the given tool calls.
pub open spec fn assistant_message(content: Seq<char>, calls: Seq<ToolCallView>) -> MessageView {
    MessageView { role: Role::Assistant, content, tool_calls: calls, tool_call_id: None }
}

/// A tool message that answers the call with the given id.
pub open spec fn tool_message(id: Seq<char>, content: Seq<char>) -> MessageView {
    MessageView { role: Role::Tool, content, tool_calls: Seq::empty(), tool_call_id: Some(id) }
}

/// The content of an optional reply text: the text, or empty when absent.
pub open spec fn content_or_empty(c: Option<Seq<char>>) -> Seq<char> {
    match c {
        Some(t) => t,
        None => Seq::empty(),
    }
}

/// The ordered message log of one run.
pub struct ConversationState {
    messages: Vec<OutgoingMessage>,
}

impl View for ConversationState {
    type V = Seq<MessageView>;

    closed spec fn view(&self) -> Seq<MessageView> {
        self.messages@.map_values(|m: OutgoingMessage| m@)
    }
}

impl ConversationState {
    /// An empty log.
    pub fn new() -> (r: ConversationState)
        ensures
            r@ == Seq::<MessageView>::empty(),
    {
        let r = ConversationState { messages: Vec::new() };
        assert(r@ =~= Seq::<MessageView>::empty());
        r
    }

    fn push(&mut self, m: OutgoingMessage)
        ensures
            final(self)@ == old(self)@.push(m@),
    {
        self.messages.push(m);
        assert(final(self)@ =~= old(self)@.push(m@));
    }

    /// Appends a system message.
    pub fn append_system(&mut self, text: String)
        ensures
            final(self)@ == old(self)@.push(plain_message(Role::System, text@)),
    {
        let m = OutgoingMessage {
            role: Role::System,
            content: text,
            tool_calls: Vec::new(),
            tool_call_id: None,
        };
        assert(m@.tool_calls =~= Seq::<ToolCallView>::empty());
        self.push(m);
    }

    /// Appends a user message.
    pub fn append_user(&mut self, text: String)
        ensures
            final(self)@ == old(self)@.push(plain_message(Role::User, text@)),
    {
        let m = OutgoingMessage {
            role: Role::User,
            content: text,
            tool_calls: Vec::new(),
            tool_call_id: None,
        };
        assert(m@.tool_calls =~= Seq::<ToolCallView>::empty());
        self.push(m);
    }

    /// Appends an assistant message; absent content is stored as empty text.
    pub fn append_assistant(&mut self, content: Option<String>, tool_calls: Vec<ToolCall>)
        ensures
            final(self)@ == old(self)@.push(
                assistant_message(content_or_empty(opt_text(content)), calls_view(tool_calls@)),
            ),
    {
        let text = match content {
            Some(t) => t,
            None => String::new(),
        };
        let m = OutgoingMessage { role: Role::Assistant, content: text, tool_calls, tool_call_id: None };
        self.push(m);
    }

    /// Appends the result of the tool call with id `tool_call_id`.
    pub fn append_tool_result(&mut self, tool_call_id: String, content: String)
        ensures
            final(self)@ == old(self)@.push(tool_message(tool_call_id@, content@)),
    {
        let m = OutgoingMessage {
            role: Role::Tool,
            content,
            tool_calls: Vec::new(),
            tool_call_id: Some(tool_call_id),
        };
        assert(m@.tool_calls =~= Seq::<ToolCallView>::empty());
        self.push(m);
    }

    /// The messages in insertion order.
    pub fn snapshot(&self) -> (r: &[OutgoingMessage])
        ensures
            r@.map_values(|m: OutgoingMessage| m@) == self@,
    {
        self.messages.as_slice()
    }

    /// The message at position `i`.
    pub fn get(&self, i: usize) -> (r: &OutgoingMessage)
        requires
            i < self@.len(),
        ensures
            r@ == self@[i as int],
    {
        &self.messages[i]
    }

    /// The number of messages.
    pub fn len(&self) -> (r: usize)
        ensures
            r == self@.len(),
    {
        self.messages.len()
    }
}

} // verus!

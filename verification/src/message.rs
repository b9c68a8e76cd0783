use vstd::prelude::*;

verus! {

/// The name and the JSON-encoded arguments of a function that the model asked for.
#[derive(Clone, Debug)]
pub struct FunctionCall {
    pub name: String,
    pub arguments: String,
}

/// A tool call that the model asked for in one of its replies.
#[derive(Clone, Debug)]
pub struct ToolCall {
    pub id: String,
    pub call_type: String,
    pub function: FunctionCall,
}

/// One entry of the agent's conversation.
#[allow(inconsistent_fields)]
#[derive(Clone, Debug)]
pub enum Message {
    System { content: String },
    User { content: String, name: Option<String> },
    Assistant {
        content: Option<String>,
        tool_calls: Option<Vec<ToolCall>>,
        reasoning_content: Option<String>,
    },
    Tool { content: String, tool_call_id: String },
}

/// The role of a message in the wire format of a chat completion request.
#[derive(Clone, Copy, Debug, PartialEq, Eq, Structural)]
pub enum MessageRole {
    System,
    User,
    Assistant,
    Tool,
}

/// A message in the wire format of a chat completion request.
#[derive(Clone, Debug)]
pub struct ChatMessage {
    pub role: MessageRole,
    pub content: String,
    pub name: Option<String>,
    pub tool_calls: Option<Vec<ToolCall>>,
    pub tool_call_id: Option<String>,
}

/// What the agent reports while a conversation runs.
#[derive(Clone, Debug)]
pub enum AgentEvent {
    TokenDelta(String),
    ToolCallStart { id: String, name: String, arguments: String },
    ToolCallComplete { id: String, name: String, result: String },
    FinalResponse(String),
    TokenUsage { cache_read: u64, cache_creation: u64 },
    Error(String),
}

/// A reusable procedure that the agent learned, with its track record.
#[derive(Clone, Debug)]
pub struct Skill {
    pub id: String,
    pub name: String,
    pub description: String,
    pub instructions: String,
    pub usage_count: i32,
    pub success_count: i32,
    pub created_at: i64,
    pub updated_at: i64,
}

} // verus!

verus! {

/// What a tool call holds, as character sequences.
pub struct ToolCallView {
    pub id: Seq<char>,
    pub call_type: Seq<char>,
    pub name: Seq<char>,
    pub arguments: Seq<char>,
}

/// What a message holds, as character sequences.
#[allow(inconsistent_fields)]
pub enum MessageView {
    System { content: Seq<char> },
    User { content: Seq<char>, name: Option<Seq<char>> },
    Assistant {
        content: Option<Seq<char>>,
        tool_calls: Option<Seq<ToolCallView>>,
        reasoning_content: Option<Seq<char>>,
    },
    Tool { content: Seq<char>, tool_call_id: Seq<char> },
}

impl DeepView for ToolCall {
    type V = ToolCallView;

    open spec fn deep_view(&self) -> ToolCallView {
        ToolCallView {
            id: self.id@,
            call_type: self.call_type@,
            name: self.function.name@,
            arguments: self.function.arguments@,
        }
    }
}

impl DeepView for Message {
    type V = MessageView;

    open spec fn deep_view(&self) -> MessageView {
        match self {
            Message::System { content } => MessageView::System { content: content@ },
            Message::User { content, name } => MessageView::User {
                content: content@,
                name: name.deep_view(),
            },
            Message::Assistant { content, tool_calls, reasoning_content } => MessageView::Assistant {
                content: content.deep_view(),
                tool_calls: tool_calls.deep_view(),
                reasoning_content: reasoning_content.deep_view(),
            },
            Message::Tool { content, tool_call_id } => MessageView::Tool {
                content: content@,
                tool_call_id: tool_call_id@,
            },
        }
    }
}

/// A copy of `s`.
pub fn copy_opt_string(s: &Option<String>) -> (r: Option<String>)
    ensures
        r.deep_view() == s.deep_view(),
{
    match s {
        Some(t) => Some(t.clone()),
        None => None,
    }
}

/// A copy of `c`.
pub fn copy_tool_call(c: &ToolCall) -> (r: ToolCall)
    ensures
        r.deep_view() == c.deep_view(),
{
    ToolCall {
        id: c.id.clone(),
        call_type: c.call_type.clone(),
        function: FunctionCall { name: c.function.name.clone(), arguments: c.function.arguments.clone() },
    }
}

/// A copy of `calls`.
pub fn copy_tool_calls(calls: &Vec<ToolCall>) -> (r: Vec<ToolCall>)
    ensures
        r.deep_view() == calls.deep_view(),
{
    let mut r: Vec<ToolCall> = Vec::new();
    for i in 0..calls.len()
        invariant
            r@.len() == i,
            forall|k: int| 0 <= k < i ==> #[trigger] r@[k].deep_view() == calls@[k].deep_view(),
    {
        r.push(copy_tool_call(&calls[i]));
    }
    assert(r.deep_view() =~= calls.deep_view());
    r
}

/// A copy of `calls`.
pub fn copy_opt_tool_calls(calls: &Option<Vec<ToolCall>>) -> (r: Option<Vec<ToolCall>>)
    ensures
        r.deep_view() == calls.deep_view(),
{
    match calls {
        Some(v) => Some(copy_tool_calls(v)),
        None => None,
    }
}

/// A copy of `m`.
pub fn copy_message(m: &Message) -> (r: Message)
    ensures
        r.deep_view() == m.deep_view(),
{
    match m {
        Message::System { content } => Message::System { content: content.clone() },
        Message::User { content, name } => Message::User {
            content: content.clone(),
            name: copy_opt_string(name),
        },
        Message::Assistant { content, tool_calls, reasoning_content } => Message::Assistant {
            content: copy_opt_string(content),
            tool_calls: copy_opt_tool_calls(tool_calls),
            reasoning_content: copy_opt_string(reasoning_content),
        },
        Message::Tool { content, tool_call_id } => Message::Tool {
            content: content.clone(),
            tool_call_id: tool_call_id.clone(),
        },
    }
}

} // verus!

verus! {

/// What a wire-format chat message holds, as character sequences.
pub struct ChatMessageView {
    pub role: MessageRole,
    pub content: Seq<char>,
    pub name: Option<Seq<char>>,
    pub tool_calls: Option<Seq<ToolCallView>>,
    pub tool_call_id: Option<Seq<char>>,
}

impl DeepView for ChatMessage {
    type V = ChatMessageView;

    open spec fn deep_view(&self) -> ChatMessageView {
        ChatMessageView {
            role: self.role,
            content: self.content@,
            name: self.name.deep_view(),
            tool_calls: self.tool_calls.deep_view(),
            tool_call_id: self.tool_call_id.deep_view(),
        }
    }
}

/// `c` marked as a call of a function.
pub open spec fn as_function_call(c: ToolCallView) -> ToolCallView {
    ToolCallView { call_type: "function"@, ..c }
}

/// The tool calls `cs`, each marked as a call of a function.
pub open spec fn as_function_calls(cs: Seq<ToolCallView>) -> Seq<ToolCallView> {
    cs.map_values(|c: ToolCallView| as_function_call(c))
}

/// The wire form of a conversation message: an assistant turn without
/// content sends empty content, and its tool calls go out as function calls.
pub open spec fn chat_of(m: MessageView) -> ChatMessageView {
    match m {
        MessageView::System { content } => ChatMessageView {
            role: MessageRole::System,
            content,
            name: None,
            tool_calls: None,
            tool_call_id: None,
        },
        MessageView::User { content, name } => ChatMessageView {
            role: MessageRole::User,
            content,
            name,
            tool_calls: None,
            tool_call_id: None,
        },
        MessageView::Assistant { content, tool_calls, .. } => ChatMessageView {
            role: MessageRole::Assistant,
            content: match content {
                Some(c) => c,
                None => Seq::<char>::empty(),
            },
            name: None,
            tool_calls: match tool_calls {
                Some(cs) => Some(as_function_calls(cs)),
                None => None,
            },
            tool_call_id: None,
        },
        MessageView::Tool { content, tool_call_id } => ChatMessageView {
            role: MessageRole::Tool,
            content,
            name: None,
            tool_calls: None,
            tool_call_id: Some(tool_call_id),
        },
    }
}

/// A copy of `c` marked as a call of a function.
fn function_call_of(c: &ToolCall) -> (r: ToolCall)
    ensures
        r.deep_view() == as_function_call(c.deep_view()),
{
    ToolCall {
        id: c.id.clone(),
        call_type: String::from_str("function"),
        function: FunctionCall { name: c.function.name.clone(), arguments: c.function.arguments.clone() },
    }
}

/// The wire form of one conversation message.
pub fn to_chat_message(m: &Message) -> (r: ChatMessage)
    ensures
        r.deep_view() == chat_of(m.deep_view()),
{
    match m {
        Message::System { content } => ChatMessage {
            role: MessageRole::System,
            content: content.clone(),
            name: None,
            tool_calls: None,
            tool_call_id: None,
        },
        Message::User { content, name } => ChatMessage {
            role: MessageRole::User,
            content: content.clone(),
            name: copy_opt_string(name),
            tool_calls: None,
            tool_call_id: None,
        },
        Message::Assistant { content, tool_calls, .. } => {
            let text = match content {
                Some(c) => c.clone(),
                None => String::new(),
            };
            let calls = match tool_calls {
                Some(cs) => {
                    let mut out: Vec<ToolCall> = Vec::new();
                    for i in 0..cs.len()
                        invariant
                            out@.len() == i,
                            forall|k: int|
                                0 <= k < i ==> #[trigger] out@[k].deep_view() == as_function_call(
                                    cs@[k].deep_view(),
                                ),
                    {
                        out.push(function_call_of(&cs[i]));
                    }
                    assert(out.deep_view() =~= as_function_calls(cs.deep_view()));
                    Some(out)
                },
                None => None,
            };
            ChatMessage {
                role: MessageRole::Assistant,
                content: text,
                name: None,
                tool_calls: calls,
                tool_call_id: None,
            }
        },
        Message::Tool { content, tool_call_id } => ChatMessage {
            role: MessageRole::Tool,
            content: content.clone(),
            name: None,
            tool_calls: None,
            tool_call_id: Some(tool_call_id.clone()),
        },
    }
}

/// The wire form of a whole conversation, message by message.
pub fn to_chat_messages(messages: &[Message]) -> (r: Vec<ChatMessage>)
    ensures
        r.deep_view() == messages.deep_view().map_values(|m: MessageView| chat_of(m)),
{
    let mut out: Vec<ChatMessage> = Vec::new();
    for i in 0..messages.len()
        invariant
            out@.len() == i,
            forall|k: int|
                0 <= k < i ==> #[trigger] out@[k].deep_view() == chat_of(messages@[k].deep_view()),
    {
        out.push(to_chat_message(&messages[i]));
    }
    assert(out.deep_view() =~= messages.deep_view().map_values(|m: MessageView| chat_of(m)));
    out
}

/// The user and assistant turns of a conversation, as the memory and
/// history passes read them: plain content, without names or tool calls.
pub open spec fn dialogue(ms: Seq<MessageView>) -> Seq<ChatMessageView>
    decreases ms.len(),
{
    if ms.len() == 0 {
        seq![]
    } else {
        let rest = dialogue(ms.drop_last());
        match ms.last() {
            MessageView::User { content, .. } => rest.push(ChatMessageView {
                role: MessageRole::User,
                content,
                name: None,
                tool_calls: None,
                tool_call_id: None,
            }),
            MessageView::Assistant { content, .. } => rest.push(ChatMessageView {
                role: MessageRole::Assistant,
                content: match content {
                    Some(c) => c,
                    None => Seq::<char>::empty(),
                },
                name: None,
                tool_calls: None,
                tool_call_id: None,
            }),
            _ => rest,
        }
    }
}

/// The user and assistant turns of a conversation, without names or tool calls.
pub fn dialogue_of(messages: &[Message]) -> (r: Vec<ChatMessage>)
    ensures
        r.deep_view() == dialogue(messages.deep_view()),
{
    let ghost ms = messages.deep_view();
    let mut out: Vec<ChatMessage> = Vec::new();
    for i in 0..messages.len()
        invariant
            ms == messages.deep_view(),
            out.deep_view() == dialogue(ms.take(i as int)),
    {
        proof {
            assert(ms.take(i + 1).drop_last() =~= ms.take(i as int));
            assert(ms[i as int] == messages@[i as int].deep_view());
        }
        let ghost before = out.deep_view();
        match &messages[i] {
            Message::User { content, .. } => {
                out.push(ChatMessage {
                    role: MessageRole::User,
                    content: content.clone(),
                    name: None,
                    tool_calls: None,
                    tool_call_id: None,
                });
            },
            Message::Assistant { content, .. } => {
                let text = match content {
                    Some(c) => c.clone(),
                    None => String::new(),
                };
                out.push(ChatMessage {
                    role: MessageRole::Assistant,
                    content: text,
                    name: None,
                    tool_calls: None,
                    tool_call_id: None,
                });
            },
            _ => {},
        }
        proof {
            assert(out.deep_view() =~= dialogue(ms.take(i + 1)));
        }
    }
    proof {
        assert(ms.take(messages@.len() as int) =~= ms);
    }
    out
}

} // verus!

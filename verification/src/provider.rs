//! What is exchanged with a model provider.

use crate::text::{opt_text, views};
use vstd::prelude::*;

verus! {

/// One tool call of a model: its id, the tool's name and its raw arguments.
pub struct ToolCall {
    pub id: String,
    pub name: String,
    pub arguments: String,
}

/// What a `ToolCall` stands for.
#[verifier::ext_equal]
pub struct ToolCallView {
    pub id: Seq<char>,
    pub name: Seq<char>,
    pub arguments: Seq<char>,
}

impl View for ToolCall {
    type V = ToolCallView;

    open spec fn view(&self) -> ToolCallView {
        ToolCallView { id: self.id@, name: self.name@, arguments: self.arguments@ }
    }
}

/// One message of a request.
pub struct ChatMessage {
    pub role: String,
    pub content: String,
    pub tool_calls: Option<Vec<ToolCall>>,
    pub tool_call_id: Option<String>,
    pub images: Vec<String>,
}

/// What a `ChatMessage` stands for.
#[verifier::ext_equal]
pub struct ChatMessageView {
    pub role: Seq<char>,
    pub content: Seq<char>,
    pub tool_calls: Option<Seq<ToolCallView>>,
    pub tool_call_id: Option<Seq<char>>,
    pub images: Seq<Seq<char>>,
}

impl View for ChatMessage {
    type V = ChatMessageView;

    open spec fn view(&self) -> ChatMessageView {
        ChatMessageView {
            role: self.role@,
            content: self.content@,
            tool_calls: match self.tool_calls {
                Some(calls) => Some(views(calls@)),
                None => None,
            },
            tool_call_id: opt_text(self.tool_call_id),
            images: views(self.images@),
        }
    }
}

/// The exact token counts that a provider reports for one response.
#[derive(Clone, Copy, PartialEq, Eq, Structural)]
pub struct Usage {
    pub prompt_tokens: u64,
    pub completion_tokens: u64,
    pub total_tokens: u64,
}

/// What a streamed response is made of.
pub enum StreamEvent {
    Token(String),
    Reasoning(String),
    Usage(Usage),
    Status(String),
    ToolCall { name: String, arguments: String, result: String },
    Done,
    Error(String),
}

/// What a `StreamEvent` stands for.
pub enum StreamEventView {
    Token(Seq<char>),
    Reasoning(Seq<char>),
    Usage(Usage),
    Status(Seq<char>),
    ToolCall { name: Seq<char>, arguments: Seq<char>, result: Seq<char> },
    Done,
    Error(Seq<char>),
}

impl View for StreamEvent {
    type V = StreamEventView;

    open spec fn view(&self) -> StreamEventView {
        match *self {
            StreamEvent::Token(s) => StreamEventView::Token(s@),
            StreamEvent::Reasoning(s) => StreamEventView::Reasoning(s@),
            StreamEvent::Usage(u) => StreamEventView::Usage(u),
            StreamEvent::Status(s) => StreamEventView::Status(s@),
            StreamEvent::ToolCall { name, arguments, result } => StreamEventView::ToolCall {
                name: name@,
                arguments: arguments@,
                result: result@,
            },
            StreamEvent::Done => StreamEventView::Done,
            StreamEvent::Error(s) => StreamEventView::Error(s@),
        }
    }
}

/// A message that holds text alone.
pub open spec fn text_message(role: Seq<char>, content: Seq<char>) -> ChatMessageView {
    ChatMessageView {
        role,
        content,
        tool_calls: None,
        tool_call_id: None,
        images: Seq::empty(),
    }
}

impl ChatMessage {
    /// A message that holds text alone.
    pub fn text(role: &str, content: String) -> (r: ChatMessage)
        ensures
            r@ == text_message(role@, content@),
    {
        let r = ChatMessage {
            role: role.to_owned(),
            content,
            tool_calls: None,
            tool_call_id: None,
            images: Vec::new(),
        };
        assert(r@ =~= text_message(role@, content@));
        r
    }
}

/// A request of a system prompt and one user message.
pub open spec fn request(system: Seq<char>, user: Seq<char>) -> Seq<ChatMessageView> {
    seq![text_message("system"@, system), text_message("user"@, user)]
}

/// A request of a system prompt and one user message.
pub fn request_of(system: &str, user: String) -> (r: Vec<ChatMessage>)
    ensures
        views(r@) == request(system@, user@),
{
    let ghost content = user@;
    let mut r: Vec<ChatMessage> = Vec::new();
    r.push(ChatMessage::text("system", system.to_owned()));
    r.push(ChatMessage::text("user", user));
    assert(views(r@) =~= request(system@, content));
    r
}

} // verus!

//! The conversation model: messages, their content items, and what a tool
//! hands back.

use crate::value::{Value, ValueView};
use vstd::prelude::*;

verus! {

/// Who wrote a message, or who may see an item.
#[derive(Clone, Copy, Debug, PartialEq, Eq, Structural)]
pub enum Role {
    User,
    Assistant,
}

/// The view of an optional string.
pub open spec fn optional_text(text: Option<String>) -> Option<Seq<char>> {
    match text {
        Some(s) => Some(s@),
        None => None,
    }
}

/// What a resource holds: text, or a binary payload in an encoded form.
#[derive(Debug, PartialEq, Eq)]
pub enum ResourceContents {
    TextResourceContents { uri: String, mime_type: Option<String>, text: String },
    BlobResourceContents { uri: String, mime_type: Option<String>, blob: String },
}

/// What a `ResourceContents` stands for.
pub enum ResourceContentsView {
    Text { uri: Seq<char>, mime_type: Option<Seq<char>>, text: Seq<char> },
    Blob { uri: Seq<char>, mime_type: Option<Seq<char>>, blob: Seq<char> },
}

impl View for ResourceContents {
    type V = ResourceContentsView;

    open spec fn view(&self) -> ResourceContentsView {
        match self {
            ResourceContents::TextResourceContents { uri, mime_type, text } => {
                ResourceContentsView::Text {
                    uri: uri@,
                    mime_type: optional_text(*mime_type),
                    text: text@,
                }
            },
            ResourceContents::BlobResourceContents { uri, mime_type, blob } => {
                ResourceContentsView::Blob {
                    uri: uri@,
                    mime_type: optional_text(*mime_type),
                    blob: blob@,
                }
            },
        }
    }
}

/// One item of a tool's result. Where it names an audience, only those roles
/// are meant to see it.
#[derive(Debug, PartialEq, Eq)]
pub enum ResultContent {
    Text { text: String, audience: Option<Vec<Role>> },
    Image { data: String, mime_type: String, audience: Option<Vec<Role>> },
    Resource { resource: ResourceContents, audience: Option<Vec<Role>> },
}

/// What a `ResultContent` stands for.
pub enum ResultContentView {
    Text { text: Seq<char>, audience: Option<Seq<Role>> },
    Image { data: Seq<char>, mime_type: Seq<char>, audience: Option<Seq<Role>> },
    Resource { resource: ResourceContentsView, audience: Option<Seq<Role>> },
}

/// The view of an optional audience.
pub open spec fn optional_roles(audience: Option<Vec<Role>>) -> Option<Seq<Role>> {
    match audience {
        Some(roles) => Some(roles@),
        None => None,
    }
}

impl View for ResultContent {
    type V = ResultContentView;

    open spec fn view(&self) -> ResultContentView {
        match self {
            ResultContent::Text { text, audience } => ResultContentView::Text {
                text: text@,
                audience: optional_roles(*audience),
            },
            ResultContent::Image { data, mime_type, audience } => ResultContentView::Image {
                data: data@,
                mime_type: mime_type@,
                audience: optional_roles(*audience),
            },
            ResultContent::Resource { resource, audience } => ResultContentView::Resource {
                resource: resource@,
                audience: optional_roles(*audience),
            },
        }
    }
}

impl ResultContentView {
    /// The roles that may see the item, where it names any.
    pub open spec fn audience(self) -> Option<Seq<Role>> {
        match self {
            ResultContentView::Text { audience, .. } => audience,
            ResultContentView::Image { audience, .. } => audience,
            ResultContentView::Resource { audience, .. } => audience,
        }
    }
}

impl ResultContent {
    /// The roles that may see the item, where it names any.
    pub fn audience(&self) -> (r: Option<&Vec<Role>>)
        ensures
            match r {
                Some(roles) => self@.audience() == Some(roles@),
                None => self@.audience() is None,
            },
    {
        match self {
            ResultContent::Text { audience, .. } => audience.as_ref(),
            ResultContent::Image { audience, .. } => audience.as_ref(),
            ResultContent::Resource { audience, .. } => audience.as_ref(),
        }
    }
}

/// A call of a tool: its qualified name and its arguments.
#[derive(Debug, PartialEq, Eq)]
pub struct ToolCall {
    pub name: String,
    pub arguments: Value,
}

/// What a `ToolCall` stands for.
pub struct ToolCallView {
    pub name: Seq<char>,
    pub arguments: ValueView,
}

impl View for ToolCall {
    type V = ToolCallView;

    open spec fn view(&self) -> ToolCallView {
        ToolCallView { name: self.name@, arguments: self.arguments@ }
    }
}

/// A request to call a tool: the call, or the text of the error that stands
/// in its place.
#[derive(Debug, PartialEq, Eq)]
pub struct ToolRequest {
    pub id: String,
    pub tool_call: Result<ToolCall, String>,
}

/// What a `ToolRequest` stands for.
pub struct ToolRequestView {
    pub id: Seq<char>,
    pub tool_call: Result<ToolCallView, Seq<char>>,
}

impl View for ToolRequest {
    type V = ToolRequestView;

    open spec fn view(&self) -> ToolRequestView {
        ToolRequestView {
            id: self.id@,
            tool_call: match self.tool_call {
                Ok(call) => Ok(call@),
                Err(e) => Err(e@),
            },
        }
    }
}

/// The views of the items of a tool's result.
pub open spec fn result_views(items: Seq<ResultContent>) -> Seq<ResultContentView> {
    Seq::new(items.len(), |i: int| items[i]@)
}

/// What a tool handed back: its result items, or the text of its error.
#[derive(Debug, PartialEq, Eq)]
pub struct ToolResponse {
    pub id: String,
    pub tool_result: Result<Vec<ResultContent>, String>,
}

/// What a `ToolResponse` stands for.
pub struct ToolResponseView {
    pub id: Seq<char>,
    pub tool_result: Result<Seq<ResultContentView>, Seq<char>>,
}

impl View for ToolResponse {
    type V = ToolResponseView;

    open spec fn view(&self) -> ToolResponseView {
        ToolResponseView {
            id: self.id@,
            tool_result: match self.tool_result {
                Ok(items) => Ok(result_views(items@)),
                Err(e) => Err(e@),
            },
        }
    }
}

/// One content item of a message.
#[derive(Debug, PartialEq, Eq)]
pub enum MessageContent {
    Text(String),
    Image { data: String, mime_type: String },
    ToolRequest(ToolRequest),
    ToolResponse(ToolResponse),
    Thinking(String),
    RedactedThinking(String),
    /// Any kind of content that has no rendering of its own.
    Unknown,
}

/// What a `MessageContent` stands for.
pub enum MessageContentView {
    Text(Seq<char>),
    Image { data: Seq<char>, mime_type: Seq<char> },
    ToolRequest(ToolRequestView),
    ToolResponse(ToolResponseView),
    Thinking(Seq<char>),
    RedactedThinking(Seq<char>),
    Unknown,
}

impl View for MessageContent {
    type V = MessageContentView;

    open spec fn view(&self) -> MessageContentView {
        match self {
            MessageContent::Text(text) => MessageContentView::Text(text@),
            MessageContent::Image { data, mime_type } => MessageContentView::Image {
                data: data@,
                mime_type: mime_type@,
            },
            MessageContent::ToolRequest(request) => MessageContentView::ToolRequest(request@),
            MessageContent::ToolResponse(response) => MessageContentView::ToolResponse(response@),
            MessageContent::Thinking(text) => MessageContentView::Thinking(text@),
            MessageContent::RedactedThinking(data) => MessageContentView::RedactedThinking(data@),
            MessageContent::Unknown => MessageContentView::Unknown,
        }
    }
}

impl MessageContent {
    /// Whether the item is a tool request.
    pub fn is_tool_request(&self) -> (b: bool)
        ensures
            b == (self@ is ToolRequest),
    {
        match self {
            MessageContent::ToolRequest(_) => true,
            _ => false,
        }
    }

    /// Whether the item is a tool response.
    pub fn is_tool_response(&self) -> (b: bool)
        ensures
            b == (self@ is ToolResponse),
    {
        match self {
            MessageContent::ToolResponse(_) => true,
            _ => false,
        }
    }
}

/// The views of the content items of a message.
pub open spec fn content_views(items: Seq<MessageContent>) -> Seq<MessageContentView> {
    Seq::new(items.len(), |i: int| items[i]@)
}

/// A message: who wrote it, when, and its content items in order.
#[derive(Debug, PartialEq, Eq)]
pub struct Message {
    pub role: Role,
    pub created: i64,
    pub content: Vec<MessageContent>,
}

/// What a `Message` stands for.
pub struct MessageView {
    pub role: Role,
    pub created: int,
    pub content: Seq<MessageContentView>,
}

impl View for Message {
    type V = MessageView;

    open spec fn view(&self) -> MessageView {
        MessageView {
            role: self.role,
            created: self.created as int,
            content: content_views(self.content@),
        }
    }
}

/// The views of the messages of a transcript.
pub open spec fn message_views(messages: Seq<Message>) -> Seq<MessageView> {
    Seq::new(messages.len(), |i: int| messages[i]@)
}

} // verus!

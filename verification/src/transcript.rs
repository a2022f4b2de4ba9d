//! The transcript driver: a header, then one section for each message.
//!
//! A message that only answers the tool requests of the message before it
//! gets no heading of its own, so that the answers read as part of the
//! request's section. Whether a message follows tool requests is the one
//! piece of state that is carried from message to message.

use crate::export::{message_text, message_to_markdown};
use crate::message::{message_views, Message, MessageView, Role};
use crate::text::{decimal, push_decimal};
use vstd::prelude::*;

verus! {

// ---------------------------------------------------------------------------
// Stated
// ---------------------------------------------------------------------------
/// A user message of which every content item is a tool response.
pub open spec fn is_only_tool_response(message: MessageView) -> bool {
    &&& message.role == Role::User
    &&& forall|i: int| 0 <= i < message.content.len() ==> message.content[i] is ToolResponse
}

/// A message with at least one tool request.
pub open spec fn has_tool_request(message: MessageView) -> bool {
    exists|i: int| 0 <= i < message.content.len() && message.content[i] is ToolRequest
}

/// The heading of a role.
pub open spec fn role_heading(role: Role) -> Seq<char> {
    match role {
        Role::User => "### User:\n"@,
        Role::Assistant => "### Assistant:\n"@,
    }
}

/// The heading of a message: none for one that only holds tool responses.
pub open spec fn heading_text(message: MessageView) -> Seq<char> {
    if is_only_tool_response(message) {
        Seq::empty()
    } else {
        role_heading(message.role)
    }
}

/// The section of one message, given whether the message before it held a
/// tool request that is still unanswered.
pub open spec fn section_text(pending: bool, message: MessageView, full: bool) -> Seq<char> {
    if pending && is_only_tool_response(message) {
        message_text(message, full) + "\n\n---\n\n"@
    } else {
        heading_text(message) + message_text(message, full) + "\n\n---\n\n"@
    }
}

/// Whether tool requests are unanswered after a message.
pub open spec fn pending_after(pending: bool, message: MessageView) -> bool {
    if pending && is_only_tool_response(message) {
        false
    } else {
        has_tool_request(message)
    }
}

/// Whether tool requests are unanswered after all of `messages`.
pub open spec fn pending_at_end(messages: Seq<MessageView>) -> bool
    decreases messages.len(),
{
    if messages.len() == 0 {
        false
    } else {
        pending_after(pending_at_end(messages.drop_last()), messages.last())
    }
}

/// The sections of `messages`, in order.
pub open spec fn sections_text(messages: Seq<MessageView>, full: bool) -> Seq<char>
    decreases messages.len(),
{
    if messages.len() == 0 {
        Seq::empty()
    } else {
        sections_text(messages.drop_last(), full) + section_text(
            pending_at_end(messages.drop_last()),
            messages.last(),
            full,
        )
    }
}

/// The title line of the document.
pub open spec fn session_header(name: Seq<char>) -> Seq<char> {
    "# Session Export: "@ + name + "\n\n"@
}

/// The line that counts the messages, and the rule under it.
pub open spec fn message_count_text(count: nat) -> Seq<char> {
    "*Total messages: "@ + decimal(count) + "*\n\n---\n\n"@
}

/// The whole document.
pub open spec fn session_markdown(messages: Seq<MessageView>, name: Seq<char>, full: bool) -> Seq<
    char,
> {
    if messages.len() == 0 {
        session_header(name) + "*(This session has no messages)*\n"@
    } else {
        session_header(name) + message_count_text(messages.len()) + sections_text(messages, full)
    }
}

/// The name of a session: the one given, else the stem of its file's name,
/// else a fixed name.
pub open spec fn session_name_text(
    file_stem: Option<Seq<char>>,
    name_override: Option<Seq<char>>,
) -> Seq<char> {
    match name_override {
        Some(name) => name,
        None => match file_stem {
            Some(stem) => stem,
            None => "Unnamed Session"@,
        },
    }
}

// ---------------------------------------------------------------------------
// Computed
// ---------------------------------------------------------------------------
/// What the driver remembers from one message to the next.
#[derive(Clone, Copy, Debug, PartialEq, Eq, Structural)]
pub struct RenderState {
    /// The message before held a tool request that no message answered yet.
    pub pending_tool_pairing: bool,
}

impl RenderState {
    /// The state before the first message.
    pub fn new() -> (state: RenderState)
        ensures
            !state.pending_tool_pairing,
    {
        RenderState { pending_tool_pairing: false }
    }
}

/// Whether the message is a user message that only holds tool responses.
pub fn message_is_only_tool_response(message: &Message) -> (b: bool)
    ensures
        b == is_only_tool_response(message@),
{
    match message.role {
        Role::User => {},
        Role::Assistant => {
            return false;
        },
    }
    let mut i: usize = 0;
    while i < message.content.len()
        invariant
            i <= message.content.len(),
            message.role == Role::User,
            forall|j: int| 0 <= j < i ==> message@.content[j] is ToolResponse,
        decreases message.content.len() - i,
    {
        if !message.content[i].is_tool_response() {
            assert(!(message@.content[i as int] is ToolResponse));
            return false;
        }
        i += 1;
    }
    true
}

/// Whether the message holds a tool request.
pub fn message_has_tool_request(message: &Message) -> (b: bool)
    ensures
        b == has_tool_request(message@),
{
    let mut i: usize = 0;
    while i < message.content.len()
        invariant
            i <= message.content.len(),
            forall|j: int| 0 <= j < i ==> !(message@.content[j] is ToolRequest),
        decreases message.content.len() - i,
    {
        if message.content[i].is_tool_request() {
            assert(message@.content[i as int] is ToolRequest);
            return true;
        }
        i += 1;
    }
    false
}

/// Renders the section of one message and moves the state on.
pub fn render_section(state: &mut RenderState, message: &Message, export_all_content: bool) -> (md:
    String)
    ensures
        md@ == section_text(old(state).pending_tool_pairing, message@, export_all_content),
        final(state).pending_tool_pairing == pending_after(
            old(state).pending_tool_pairing,
            message@,
        ),
{
    let is_only_tool_response = message_is_only_tool_response(message);
    let body = message_to_markdown(message, export_all_content);
    if state.pending_tool_pairing && is_only_tool_response {
        let mut md = body;
        md.append("\n\n---\n\n");
        state.pending_tool_pairing = false;
        return md;
    }
    let mut md = String::new();
    if !is_only_tool_response {
        match message.role {
            Role::User => {
                md.append("### User:\n");
            },
            Role::Assistant => {
                md.append("### Assistant:\n");
            },
        }
    }
    md.append(body.as_str());
    md.append("\n\n---\n\n");
    state.pending_tool_pairing = message_has_tool_request(message);
    md
}

/// Renders a whole session: the title, the number of messages, and the
/// section of each message in order. A session without messages renders
/// as the title and a notice.
pub fn export_session_to_markdown(
    messages: &Vec<Message>,
    session_name: &str,
    export_all_content: bool,
) -> (markdown_output: String)
    ensures
        markdown_output@ == session_markdown(
            message_views(messages@),
            session_name@,
            export_all_content,
        ),
{
    let mut markdown_output = String::from_str("# Session Export: ");
    markdown_output.append(session_name);
    markdown_output.append("\n\n");
    if messages.len() == 0 {
        markdown_output.append("*(This session has no messages)*\n");
        return markdown_output;
    }
    let ghost views = message_views(messages@);
    let mut sections = String::new();
    let mut state = RenderState::new();
    let mut i: usize = 0;
    while i < messages.len()
        invariant
            i <= messages.len(),
            views == message_views(messages@),
            sections@ == sections_text(views.take(i as int), export_all_content),
            state.pending_tool_pairing == pending_at_end(views.take(i as int)),
        decreases messages.len() - i,
    {
        assert(views.take(i + 1).drop_last() =~= views.take(i as int));
        let section = render_section(&mut state, &messages[i], export_all_content);
        sections.append(section.as_str());
        i += 1;
    }
    assert(views.take(messages.len() as int) =~= views);
    let mut count = String::from_str("*Total messages: ");
    push_decimal(&mut count, messages.len() as u64);
    count.append("*\n\n---\n\n");
    markdown_output.append(count.as_str());
    markdown_output.append(sections.as_str());
    markdown_output
}

/// The name under which a session is exported: the one given, else the stem
/// of its file's name, else `Unnamed Session`.
pub fn session_name(file_stem: Option<&str>, session_name_override: Option<&str>) -> (name: String)
    ensures
        name@ == session_name_text(
            match file_stem {
                Some(stem) => Some(stem@),
                None => None,
            },
            match session_name_override {
                Some(given) => Some(given@),
                None => None,
            },
        ),
{
    match session_name_override {
        Some(given) => String::from_str(given),
        None => match file_stem {
            Some(stem) => String::from_str(stem),
            None => String::from_str("Unnamed Session"),
        },
    }
}

} // verus!

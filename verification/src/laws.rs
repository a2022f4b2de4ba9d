//! What holds of every rendering, proved from the definitions.

use crate::export::{content_text, message_text, syntax_tag};
use crate::message::{message_views, Message, MessageContentView, MessageView, Role};
use crate::text::{
    after_last, contains_pattern, decimal, decimal_value, last_occurrence, lemma_decimal_value,
    lemma_last_occurrence, occurs_at, spaces,
};
use crate::transcript::{
    has_tool_request, heading_text, is_only_tool_response, message_count_text, pending_at_end,
    section_text, sections_text, session_header, session_markdown,
};
use crate::value::{escape_inline, member_text, simple_text, value_markdown, ValueView};
use vstd::prelude::*;

verus! {

// ---------------------------------------------------------------------------
// The header
// ---------------------------------------------------------------------------
/// The document of a session with messages holds, right after the title
/// line, the line that counts them, and the numeral in that line denotes
/// the number of messages.
pub proof fn lemma_header_counts_messages(messages: Seq<MessageView>, name: Seq<char>, full: bool)
    requires
        messages.len() > 0,
    ensures
        occurs_at(
            session_markdown(messages, name, full),
            message_count_text(messages.len()),
            session_header(name).len() as int,
        ),
        message_count_text(messages.len()) == "*Total messages: "@ + decimal(messages.len())
            + "*\n\n---\n\n"@,
        decimal_value(decimal(messages.len())) == messages.len(),
{
    lemma_decimal_value(messages.len());
    let document = session_markdown(messages, name, full);
    let header = session_header(name);
    let count = message_count_text(messages.len());
    assert(document.subrange(header.len() as int, (header.len() + count.len()) as int) =~= count);
}

/// The document of a session without messages is the title line and the
/// notice, and the notice holds no `#`, so no heading of a role.
pub proof fn lemma_empty_session(name: Seq<char>, full: bool)
    ensures
        session_markdown(Seq::empty(), name, full) == session_header(name)
            + "*(This session has no messages)*\n"@,
        !"*(This session has no messages)*\n"@.contains('#'),
        !contains_pattern("*(This session has no messages)*\n"@, "### User:\n"@),
        !contains_pattern("*(This session has no messages)*\n"@, "### Assistant:\n"@),
{
    reveal_strlit("*(This session has no messages)*\n");
    reveal_strlit("### User:\n");
    reveal_strlit("### Assistant:\n");
    let notice = "*(This session has no messages)*\n"@;
    assert forall|i: int| 0 <= i < notice.len() implies notice[i] != '#' by {}
    assert forall|i: int| !occurs_at(notice, "### User:\n"@, i) by {
        if occurs_at(notice, "### User:\n"@, i) {
            assert(notice.subrange(i, i + "### User:\n"@.len())[0] == '#');
        }
    }
    assert forall|i: int| !occurs_at(notice, "### Assistant:\n"@, i) by {
        if occurs_at(notice, "### Assistant:\n"@, i) {
            assert(notice.subrange(i, i + "### Assistant:\n"@.len())[0] == '#');
        }
    }
}

// ---------------------------------------------------------------------------
// Sections and pairing
// ---------------------------------------------------------------------------
/// The section of the message at `index`, as it stands in the document.
pub open spec fn section_at(messages: Seq<MessageView>, index: int, full: bool) -> Seq<char> {
    section_text(pending_at_end(messages.take(index)), messages[index], full)
}

/// The sections of the first `index + 1` messages are those of the first
/// `index` messages followed by the section of the message at `index`.
pub proof fn lemma_sections_extend(messages: Seq<MessageView>, index: int, full: bool)
    requires
        0 <= index < messages.len(),
    ensures
        sections_text(messages.take(index + 1), full) == sections_text(messages.take(index), full)
            + section_at(messages, index, full),
        sections_text(messages.take(messages.len() as int), full) == sections_text(messages, full),
{
    assert(messages.take(index + 1).drop_last() =~= messages.take(index));
    assert(messages.take(messages.len() as int) =~= messages);
}

/// A user message that only holds tool responses, right after a message
/// with a tool request, gets no heading: its section is its body and one
/// rule.
pub proof fn lemma_paired_response_has_no_heading(
    messages: Seq<MessageView>,
    index: int,
    full: bool,
)
    requires
        0 <= index,
        index + 1 < messages.len(),
        has_tool_request(messages[index]),
        is_only_tool_response(messages[index + 1]),
    ensures
        pending_at_end(messages.take(index + 1)),
        section_at(messages, index + 1, full) == message_text(messages[index + 1], full)
            + "\n\n---\n\n"@,
{
    let request = messages[index];
    let i = choose|i: int| 0 <= i < request.content.len() && request.content[i] is ToolRequest;
    assert(!(request.content[i] is ToolResponse));
    assert(!is_only_tool_response(request));
    assert(messages.take(index + 1).last() == request);
}

/// A message that holds anything but tool responses gets the heading of its
/// role, whatever came before it.
pub proof fn lemma_mixed_message_has_heading(message: MessageView, pending: bool, full: bool)
    requires
        exists|i: int| 0 <= i < message.content.len() && !(message.content[i] is ToolResponse),
    ensures
        section_text(pending, message, full) == (match message.role {
            Role::User => "### User:\n"@,
            Role::Assistant => "### Assistant:\n"@,
        }) + message_text(message, full) + "\n\n---\n\n"@,
{
}

/// An assistant message gets its heading, whatever it holds.
pub proof fn lemma_assistant_message_has_heading(message: MessageView, pending: bool, full: bool)
    requires
        message.role == Role::Assistant,
    ensures
        section_text(pending, message, full) == "### Assistant:\n"@ + message_text(message, full)
            + "\n\n---\n\n"@,
{
}

/// The text of a section does not depend on what came before it: a message
/// of tool responses alone never has a heading, and any other always has.
pub proof fn lemma_section_text_ignores_pairing(message: MessageView, full: bool)
    ensures
        section_text(true, message, full) == section_text(false, message, full),
{
}

// ---------------------------------------------------------------------------
// Redaction
// ---------------------------------------------------------------------------
/// A string of more than 4096 characters that is rendered on its own is
/// replaced by a marker that gives its full length, unless full content is
/// asked for; then it is shown whole.
pub proof fn lemma_oversized_string_is_redacted(s: Seq<char>, depth: nat)
    requires
        s.len() > 4096,
    ensures
        simple_text(ValueView::String(s), false) == "`[REDACTED: "@ + decimal(s.len())
            + " chars]`"@,
        decimal_value(decimal(s.len())) == s.len(),
        value_markdown(ValueView::String(s), depth, false) == spaces(2 * depth) + (
        "`[REDACTED: "@ + decimal(s.len()) + " chars]`"@) + "\n"@,
        simple_text(ValueView::String(s), true) == "`"@ + escape_inline(s) + "`"@,
        value_markdown(ValueView::String(s), depth, true) == spaces(2 * depth) + ("`"@
            + escape_inline(s) + "`"@) + "\n"@,
{
    lemma_decimal_value(s.len());
}

/// A string of at most 4096 characters is never withheld.
pub proof fn lemma_small_string_is_shown(s: Seq<char>, full: bool)
    requires
        s.len() <= 4096,
    ensures
        simple_text(ValueView::String(s), full) == "`"@ + escape_inline(s) + "`"@,
{
}

// ---------------------------------------------------------------------------
// Nesting
// ---------------------------------------------------------------------------
/// An object or array under a bullet is rendered on the lines after it, two
/// levels deeper.
pub proof fn lemma_nested_value_is_two_levels_deeper(
    v: ValueView,
    depth: nat,
    fence: Seq<char>,
    full: bool,
)
    requires
        v is Object || v is Array,
    ensures
        member_text(v, spaces(2 * depth), fence, full) == "\n"@ + value_markdown(
            v,
            depth + 2,
            full,
        ),
{
    reveal_strlit("    ");
    assert(spaces(2 * depth) + "    "@ =~= spaces(2 * (depth + 2)));
}

// ---------------------------------------------------------------------------
// Resources
// ---------------------------------------------------------------------------
/// A resource whose URI ends in `.py` is tagged for Python, whatever its
/// mime type.
pub proof fn lemma_python_extension(stem: Seq<char>, mime_type: Option<Seq<char>>)
    ensures
        after_last(stem + ".py"@, "."@) == "py"@,
        syntax_tag(stem + ".py"@, mime_type) == "python"@,
{
    reveal_strlit(".py");
    reveal_strlit(".");
    reveal_strlit("py");
    reveal_strlit("rs");
    reveal_strlit("js");
    reveal_strlit("ts");
    let uri = stem + ".py"@;
    let dot = "."@;
    lemma_last_occurrence(uri, dot);
    let at = last_occurrence(uri, dot);
    assert(uri.subrange(stem.len() as int, stem.len() as int + 1) =~= dot);
    assert(occurs_at(uri, dot, stem.len() as int));
    assert(at <= stem.len()) by {
        if at > stem.len() {
            assert(uri.subrange(at, at + 1)[0] == uri[at]);
        }
    }
    assert(uri.skip(stem.len() as int + 1) =~= "py"@);
    assert("py"@[0] != "rs"@[0]);
    assert("py"@[0] != "js"@[0]);
    assert("py"@[0] != "ts"@[0]);
}

/// A resource whose extension is not a known one is tagged with its mime
/// type, or not at all where that is `text` or missing.
pub proof fn lemma_unknown_extension(uri: Seq<char>, mime_type: Option<Seq<char>>)
    requires
        ({
            let extension = after_last(uri, "."@);
            &&& extension != "rs"@
            &&& extension != "js"@
            &&& extension != "ts"@
            &&& extension != "py"@
            &&& extension != "json"@
            &&& extension != "yaml"@
            &&& extension != "yml"@
            &&& extension != "md"@
            &&& extension != "html"@
            &&& extension != "css"@
            &&& extension != "sh"@
        }),
    ensures
        syntax_tag(uri, mime_type) == match mime_type {
            Some(mime) => if mime == "text"@ {
                Seq::<char>::empty()
            } else {
                mime
            },
            None => Seq::<char>::empty(),
        },
{
}

// ---------------------------------------------------------------------------
// Withheld content
// ---------------------------------------------------------------------------
/// Redacted reasoning renders as the same placeholder whatever it holds
/// and whether or not full content is asked for.
pub proof fn lemma_redacted_thinking_is_withheld(first: Seq<char>, second: Seq<char>)
    ensures
        content_text(MessageContentView::RedactedThinking(first), true) == "**Thinking:**\n"@
            + "> *Thinking was redacted*\n\n"@,
        content_text(MessageContentView::RedactedThinking(first), true) == content_text(
            MessageContentView::RedactedThinking(second),
            false,
        ),
{
}

// ---------------------------------------------------------------------------
// Determinism
// ---------------------------------------------------------------------------
/// The document is a function of what the messages, the name and the flag
/// stand for: two transcripts with the same views render alike.
pub proof fn lemma_rendering_is_deterministic(
    first: Vec<Message>,
    second: Vec<Message>,
    first_name: Seq<char>,
    second_name: Seq<char>,
    full: bool,
)
    requires
        message_views(first@) == message_views(second@),
        first_name == second_name,
    ensures
        session_markdown(message_views(first@), first_name, full) == session_markdown(
            message_views(second@),
            second_name,
            full,
        ),
{
}

} // verus!

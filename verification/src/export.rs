//! Markdown for the content items of a message: text, tool requests, tool
//! responses, images and reasoning.

use crate::message::{
    Message, MessageContent, MessageContentView, MessageView, ResourceContents,
    ResourceContentsView, ResultContent, ResultContentView, Role, ToolCall, ToolCallView,
    ToolRequest, ToolRequestView, ToolResponse, ToolResponseView,
};
use crate::text::{
    after_last, before_last, begins_with, begins_with_char, byte_count, byte_len, contains,
    contains_pattern, decimal, ends_with_char, finishes_with_char, head_before_last,
    last_occurrence, prefix, prefix_of, push_decimal, replace_char, replaced, same_text,
    starts_with, starts_with_char, tail_after_last, trim, trim_end_char, trimmed, trimmed_end_char,
};
use crate::value::{
    entries_text, entry_to_markdown, value_markdown, value_to_markdown, EntryView, Value,
    ValueView,
};
use vstd::prelude::*;

verus! {

// ---------------------------------------------------------------------------
// Tool requests, stated
// ---------------------------------------------------------------------------
/// The name of a tool without its namespace: what follows the last `__`.
pub open spec fn tool_short_name(name: Seq<char>) -> Seq<char> {
    after_last(name, "__"@)
}

/// The namespace of a tool: what precedes the last `__` of its name, or
/// `Tool` where the name has none.
pub open spec fn tool_namespace(name: Seq<char>) -> Seq<char> {
    if last_occurrence(name, "__"@) < 0 {
        "Tool"@
    } else {
        before_last(name, "__"@)
    }
}

/// The names under which the shell tool is known.
pub open spec fn is_shell_tool(name: Seq<char>) -> bool {
    name == "developer__shell"@ || name == "mcp__developer__shell"@
}

/// The names under which the text editor tool is known.
pub open spec fn is_text_editor_tool(name: Seq<char>) -> bool {
    name == "developer__text_editor"@ || name == "mcp__developer__text_editor"@
}

/// The value of the first entry with the given key.
pub open spec fn find_entry(entries: Seq<EntryView>, key: Seq<char>) -> Option<ValueView>
    decreases entries.len(),
{
    if entries.len() == 0 {
        None
    } else if entries[0].key == key {
        Some(entries[0].value)
    } else {
        find_entry(entries.drop_first(), key)
    }
}

/// The argument with the given key, where the arguments are an object that
/// has it.
pub open spec fn argument(arguments: ValueView, key: Seq<char>) -> Option<ValueView> {
    match arguments {
        ValueView::Object(entries) => find_entry(entries, key),
        _ => None,
    }
}

/// The argument with the given key, where it is a string.
pub open spec fn string_argument(arguments: ValueView, key: Seq<char>) -> Option<Seq<char>> {
    match argument(arguments, key) {
        Some(ValueView::String(s)) => Some(s),
        _ => None,
    }
}

/// The entries whose key is none of `taken`, in order.
pub open spec fn entries_without(entries: Seq<EntryView>, taken: Seq<Seq<char>>) -> Seq<
    EntryView,
> {
    entries.filter(|e: EntryView| !taken.contains(e.key))
}

/// The generic rendering of the arguments that have no layout of their own.
/// Nothing where no such argument is left.
pub open spec fn other_arguments_text(
    arguments: ValueView,
    taken: Seq<Seq<char>>,
    full: bool,
) -> Seq<char> {
    match arguments {
        ValueView::Object(entries) => {
            let rest = entries_without(entries, taken);
            if rest.len() == 0 {
                Seq::empty()
            } else {
                value_markdown(ValueView::Object(rest), 0, full)
            }
        },
        _ => Seq::empty(),
    }
}

/// The command of a shell call as a fenced block.
pub open spec fn command_text(arguments: ValueView) -> Seq<char> {
    match string_argument(arguments, "command"@) {
        Some(command) => "*   **command**:\n    ```sh\n    "@ + trim(command) + "\n    ```\n"@,
        None => Seq::empty(),
    }
}

/// The path of a text editor call as inline code.
pub open spec fn path_text(arguments: ValueView) -> Seq<char> {
    match string_argument(arguments, "path"@) {
        Some(path) => "*   **path**: `"@ + path + "`\n"@,
        None => Seq::empty(),
    }
}

/// The edit of a text editor call as a fenced block.
pub open spec fn code_edit_text(arguments: ValueView) -> Seq<char> {
    match string_argument(arguments, "code_edit"@) {
        Some(code) => "*   **code_edit**:\n    ```\n"@ + code + "\n    ```\n"@,
        None => Seq::empty(),
    }
}

/// The keys that the shell layout renders itself.
pub open spec fn shell_keys() -> Seq<Seq<char>> {
    seq!["command"@]
}

/// The keys that the text editor layout renders itself.
pub open spec fn text_editor_keys() -> Seq<Seq<char>> {
    seq!["path"@, "code_edit"@]
}

/// The arguments of a call, in the layout of its tool.
pub open spec fn arguments_text(call: ToolCallView, full: bool) -> Seq<char> {
    if is_shell_tool(call.name) {
        command_text(call.arguments) + other_arguments_text(call.arguments, shell_keys(), full)
    } else if is_text_editor_tool(call.name) {
        path_text(call.arguments) + code_edit_text(call.arguments) + other_arguments_text(
            call.arguments,
            text_editor_keys(),
            full,
        )
    } else {
        value_markdown(call.arguments, 0, full)
    }
}

/// The heading of a call and its arguments.
pub open spec fn tool_call_text(call: ToolCallView, full: bool) -> Seq<char> {
    "#### Tool Call: `"@ + tool_short_name(call.name) + "` (namespace: `"@ + tool_namespace(
        call.name,
    ) + "`)\n"@ + "**Arguments:**\n"@ + arguments_text(call, full)
}

/// The text of a tool request: the call, or its error in a fenced block.
pub open spec fn tool_request_text(request: ToolRequestView, full: bool) -> Seq<char> {
    match request.tool_call {
        Ok(call) => tool_call_text(call, full),
        Err(e) => "**Error in Tool Call:**\n```\n"@ + e + "\n```\n"@,
    }
}

// ---------------------------------------------------------------------------
// Tool responses, stated
// ---------------------------------------------------------------------------
/// Whether a result item is shown: always with full content, else unless it
/// names an audience without the assistant.
pub open spec fn is_visible(item: ResultContentView, full: bool) -> bool {
    full || match item.audience() {
        Some(roles) => roles.contains(Role::Assistant),
        None => true,
    }
}

/// Text that begins and ends like a JSON object or array.
pub open spec fn looks_like_json(t: Seq<char>) -> bool {
    ||| starts_with_char(t, '{') && ends_with_char(t, '}')
    ||| starts_with_char(t, '[') && ends_with_char(t, ']')
}

/// Text that begins and ends like markup and holds a closing tag.
pub open spec fn looks_like_markup(t: Seq<char>) -> bool {
    starts_with_char(t, '<') && ends_with_char(t, '>') && contains_pattern(t, "</"@)
}

/// The text of a textual result item.
pub open spec fn result_text(text: Seq<char>) -> Seq<char> {
    let t = trim(text);
    if looks_like_json(t) {
        "```json\n"@ + t + "\n```\n"@
    } else if looks_like_markup(t) {
        "```xml\n"@ + t + "\n```\n"@
    } else {
        text + "\n\n"@
    }
}

/// The placeholder of an image or other binary result item.
pub open spec fn result_image_text(data: Seq<char>, mime_type: Seq<char>) -> Seq<char> {
    if starts_with(mime_type, "image/"@) {
        "**Image:** `(type: "@ + mime_type + ", data: first 30 chars of base64...)`\n\n"@
    } else {
        "**Binary Content:** `(type: "@ + mime_type + ", length: "@ + decimal(byte_len(data))
            + " bytes)`\n\n"@
    }
}

/// The highlighter tag of a fenced block for a resource: by the extension of
/// its URI (what follows the last dot; the whole URI where it has none),
/// else its mime type, unless that is just `text`.
pub open spec fn syntax_tag(uri: Seq<char>, mime_type: Option<Seq<char>>) -> Seq<char> {
    let extension = after_last(uri, "."@);
    if extension == "rs"@ {
        "rust"@
    } else if extension == "js"@ {
        "javascript"@
    } else if extension == "ts"@ {
        "typescript"@
    } else if extension == "py"@ {
        "python"@
    } else if extension == "json"@ {
        "json"@
    } else if extension == "yaml"@ || extension == "yml"@ {
        "yaml"@
    } else if extension == "md"@ {
        "markdown"@
    } else if extension == "html"@ {
        "html"@
    } else if extension == "css"@ {
        "css"@
    } else if extension == "sh"@ {
        "bash"@
    } else {
        match mime_type {
            Some(mime) => if mime == "text"@ {
                Seq::empty()
            } else {
                mime
            },
            None => Seq::empty(),
        }
    }
}

/// The mime type of a binary resource as it is shown.
pub open spec fn shown_mime_type(mime_type: Option<Seq<char>>) -> Seq<char> {
    match mime_type {
        Some(mime) => mime,
        None => "unknown"@,
    }
}

/// The text of a resource: its text in a fenced block, or a placeholder for
/// its binary payload.
pub open spec fn resource_text(resource: ResourceContentsView) -> Seq<char> {
    match resource {
        ResourceContentsView::Text { uri, mime_type, text } => "**File:** `"@ + uri + "`\n"@
            + "```"@ + syntax_tag(uri, mime_type) + "\n"@ + trim(text) + "\n```\n\n"@,
        ResourceContentsView::Blob { uri, mime_type, blob } => "**Binary File:** `"@ + uri
            + "` (type: "@ + shown_mime_type(mime_type) + ", "@ + decimal(byte_len(blob))
            + " bytes)\n\n"@,
    }
}

/// The text of one result item.
pub open spec fn result_item_text(item: ResultContentView) -> Seq<char> {
    match item {
        ResultContentView::Text { text, .. } => result_text(text),
        ResultContentView::Image { data, mime_type, .. } => result_image_text(data, mime_type),
        ResultContentView::Resource { resource, .. } => resource_text(resource),
    }
}

/// The texts of the visible result items, in order.
pub open spec fn result_items_text(items: Seq<ResultContentView>, full: bool) -> Seq<char>
    decreases items.len(),
{
    if items.len() == 0 {
        Seq::empty()
    } else {
        result_items_text(items.drop_last(), full) + (if is_visible(items.last(), full) {
            result_item_text(items.last())
        } else {
            Seq::empty()
        })
    }
}

/// The notice that stands for an empty result.
pub open spec fn empty_result_notice(items: Seq<ResultContentView>) -> Seq<char> {
    if items.len() == 0 {
        "*No textual output from tool.*\n"@
    } else {
        Seq::empty()
    }
}

/// The text of a tool response: its items, or its error in a fenced block.
pub open spec fn tool_response_text(response: ToolResponseView, full: bool) -> Seq<char> {
    match response.tool_result {
        Ok(items) => "#### Tool Response:\n"@ + empty_result_notice(items) + result_items_text(
            items,
            full,
        ),
        Err(e) => "#### Tool Response:\n"@ + "**Error in Tool Response:**\n```\n"@ + e
            + "\n```\n"@,
    }
}

// ---------------------------------------------------------------------------
// Messages, stated
// ---------------------------------------------------------------------------
/// The text of one content item.
pub open spec fn content_text(item: MessageContentView, full: bool) -> Seq<char> {
    match item {
        MessageContentView::Text(text) => text + "\n\n"@,
        MessageContentView::ToolRequest(request) => tool_request_text(request, full) + "\n"@,
        MessageContentView::ToolResponse(response) => tool_response_text(response, full) + "\n"@,
        MessageContentView::Image { data, mime_type } => "**Image:** `(type: "@ + mime_type
            + ", data placeholder: "@ + prefix(data, 30) + "...)`\n\n"@,
        MessageContentView::Thinking(text) => "**Thinking:**\n"@ + "> "@ + replace_char(
            text,
            '\n',
            "\n> "@,
        ) + "\n\n"@,
        MessageContentView::RedactedThinking(_) => "**Thinking:**\n"@
            + "> *Thinking was redacted*\n\n"@,
        MessageContentView::Unknown =>
            "`WARNING: Message content type could not be rendered to Markdown`\n\n"@,
    }
}

/// The texts of the content items, in order.
pub open spec fn contents_text(items: Seq<MessageContentView>, full: bool) -> Seq<char>
    decreases items.len(),
{
    if items.len() == 0 {
        Seq::empty()
    } else {
        contents_text(items.drop_last(), full) + content_text(items.last(), full)
    }
}

/// The body of a message: the texts of its content items, without the line
/// breaks at the end.
pub open spec fn message_text(message: MessageView, full: bool) -> Seq<char> {
    trim_end_char(contents_text(message.content, full), '\n')
}

// ---------------------------------------------------------------------------
// Tool requests, computed
// ---------------------------------------------------------------------------
/// The views of a list of keys.
pub open spec fn key_views(keys: Seq<&str>) -> Seq<Seq<char>> {
    Seq::new(keys.len(), |i: int| keys[i]@)
}

/// The argument with the given key.
#[verifier::loop_isolation(false)]
fn find_argument<'a>(arguments: &'a Value, key: &str) -> (r: Option<&'a Value>)
    ensures
        argument(arguments@, key@) == match r {
            Some(v) => Some(v@),
            None => None::<ValueView>,
        },
{
    match arguments {
        Value::Object(entries) => {
            let ghost views = arguments@->Object_0;
            let mut i: usize = 0;
            assert(views.skip(0) =~= views);
            while i < entries.len()
                invariant
                    i <= entries.len(),
                    find_entry(views, key@) == find_entry(views.skip(i as int), key@),
                decreases entries.len() - i,
            {
                assert(views.skip(i as int)[0] == entries[i as int]@);
                if same_text(entries[i].key.as_str(), key) {
                    return Some(&entries[i].value);
                }
                assert(views.skip(i as int).drop_first() =~= views.skip(i + 1));
                i += 1;
            }
            None
        },
        _ => None,
    }
}

/// The argument with the given key, where it is a string.
fn find_string_argument<'a>(arguments: &'a Value, key: &str) -> (r: Option<&'a String>)
    ensures
        string_argument(arguments@, key@) == match r {
            Some(s) => Some(s@),
            None => None::<Seq<char>>,
        },
{
    match find_argument(arguments, key) {
        Some(Value::String(s)) => Some(s),
        _ => None,
    }
}

/// Whether `key` is one of `taken`.
fn is_taken(key: &str, taken: &Vec<&str>) -> (b: bool)
    ensures
        b == key_views(taken@).contains(key@),
{
    let mut i: usize = 0;
    while i < taken.len()
        invariant
            i <= taken.len(),
            forall|j: int| 0 <= j < i ==> key_views(taken@)[j] != key@,
        decreases taken.len() - i,
    {
        if same_text(taken[i], key) {
            assert(key_views(taken@)[i as int] == key@);
            return true;
        }
        i += 1;
    }
    false
}

/// Renders the arguments that have no layout of their own.
#[verifier::loop_isolation(false)]
fn other_arguments_to_markdown(arguments: &Value, taken: &Vec<&str>, full: bool) -> (r: String)
    ensures
        r@ == other_arguments_text(arguments@, key_views(taken@), full),
{
    let mut r = String::new();
    match arguments {
        Value::Object(entries) => {
            let ghost views = arguments@->Object_0;
            let ghost keys = key_views(taken@);
            let indent = String::new();
            let mut i: usize = 0;
            proof {
                reveal(Seq::filter);
            }
            while i < entries.len()
                invariant
                    i <= entries.len(),
                    r@ == entries_text(entries_without(views.take(i as int), keys), indent@, full),
                decreases entries.len() - i,
            {
                let ghost before = entries_without(views.take(i as int), keys);
                proof {
                    reveal(Seq::filter);
                    assert(views.take(i + 1).drop_last() =~= views.take(i as int));
                }
                if !is_taken(entries[i].key.as_str(), taken) {
                    let bullet = entry_to_markdown(&entries[i], indent.as_str(), full);
                    r.append(bullet.as_str());
                    proof {
                        let after = entries_without(views.take(i + 1), keys);
                        assert(after.drop_last() =~= before);
                    }
                }
                i += 1;
            }
            proof {
                assert(views.take(entries.len() as int) =~= views);
                assert(indent@ =~= crate::text::spaces(0));
            }
            r
        },
        _ => r,
    }
}

/// Renders the arguments of a shell call: the command as a fenced block,
/// then the rest.
fn shell_arguments_to_markdown(arguments: &Value, full: bool) -> (r: String)
    ensures
        r@ == command_text(arguments@) + other_arguments_text(arguments@, shell_keys(), full),
{
    let mut r = String::new();
    match find_string_argument(arguments, "command") {
        Some(command) => {
            let body = trimmed(command.as_str());
            r.append("*   **command**:\n    ```sh\n    ");
            r.append(body.as_str());
            r.append("\n    ```\n");
        },
        None => {},
    }
    let mut taken: Vec<&str> = Vec::new();
    taken.push("command");
    assert(key_views(taken@) =~= shell_keys());
    let rest = other_arguments_to_markdown(arguments, &taken, full);
    r.append(rest.as_str());
    r
}

/// Renders the arguments of a text editor call: the path inline, the edit as
/// a fenced block, then the rest.
fn text_editor_arguments_to_markdown(arguments: &Value, full: bool) -> (r: String)
    ensures
        r@ == path_text(arguments@) + code_edit_text(arguments@) + other_arguments_text(
            arguments@,
            text_editor_keys(),
            full,
        ),
{
    let mut path = String::new();
    match find_string_argument(arguments, "path") {
        Some(p) => {
            path.append("*   **path**: `");
            path.append(p.as_str());
            path.append("`\n");
        },
        None => {},
    }
    let mut edit = String::new();
    match find_string_argument(arguments, "code_edit") {
        Some(code) => {
            edit.append("*   **code_edit**:\n    ```\n");
            edit.append(code.as_str());
            edit.append("\n    ```\n");
        },
        None => {},
    }
    let mut taken: Vec<&str> = Vec::new();
    taken.push("path");
    taken.push("code_edit");
    assert(key_views(taken@) =~= text_editor_keys());
    let rest = other_arguments_to_markdown(arguments, &taken, full);
    let mut r = path;
    r.append(edit.as_str());
    r.append(rest.as_str());
    r
}

/// Renders the arguments of a call in the layout of its tool.
fn arguments_to_markdown(call: &ToolCall, full: bool) -> (r: String)
    ensures
        r@ == arguments_text(call@, full),
{
    let name = call.name.as_str();
    if same_text(name, "developer__shell") || same_text(name, "mcp__developer__shell") {
        shell_arguments_to_markdown(&call.arguments, full)
    } else if same_text(name, "developer__text_editor") || same_text(
        name,
        "mcp__developer__text_editor",
    ) {
        text_editor_arguments_to_markdown(&call.arguments, full)
    } else {
        value_to_markdown(&call.arguments, 0, full)
    }
}

/// Renders a tool request: a heading that names the tool and its namespace,
/// then the arguments; or the error in a fenced block.
pub fn tool_request_to_markdown(req: &ToolRequest, export_all_content: bool) -> (md: String)
    ensures
        md@ == tool_request_text(req@, export_all_content),
{
    match &req.tool_call {
        Ok(call) => {
            let short_name = tail_after_last(call.name.as_str(), "__");
            let namespace = match head_before_last(call.name.as_str(), "__") {
                Some(head) => head,
                None => String::from_str("Tool"),
            };
            let arguments = arguments_to_markdown(call, export_all_content);
            let mut md = String::from_str("#### Tool Call: `");
            md.append(short_name.as_str());
            md.append("` (namespace: `");
            md.append(namespace.as_str());
            md.append("`)\n");
            md.append("**Arguments:**\n");
            md.append(arguments.as_str());
            md
        },
        Err(e) => {
            let mut md = String::from_str("**Error in Tool Call:**\n```\n");
            md.append(e.as_str());
            md.append("\n```\n");
            md
        },
    }
}

// ---------------------------------------------------------------------------
// Tool responses, computed
// ---------------------------------------------------------------------------
/// Whether a result item is shown.
#[verifier::loop_isolation(false)]
fn is_visible_item(item: &ResultContent, full: bool) -> (b: bool)
    ensures
        b == is_visible(item@, full),
{
    if full {
        return true;
    }
    match item.audience() {
        Some(roles) => {
            let mut i: usize = 0;
            while i < roles.len()
                invariant
                    i <= roles.len(),
                    forall|j: int| 0 <= j < i ==> roles@[j] != Role::Assistant,
                decreases roles.len() - i,
            {
                if roles[i] == Role::Assistant {
                    return true;
                }
                i += 1;
            }
            false
        },
        None => true,
    }
}

/// Renders a textual result item.
fn result_text_to_markdown(text: &str) -> (r: String)
    ensures
        r@ == result_text(text@),
{
    let body = trimmed(text);
    let t = body.as_str();
    if (begins_with_char(t, '{') && finishes_with_char(t, '}')) || (begins_with_char(t, '[')
        && finishes_with_char(t, ']')) {
        let mut r = String::from_str("```json\n");
        r.append(t);
        r.append("\n```\n");
        r
    } else if begins_with_char(t, '<') && finishes_with_char(t, '>') && contains(t, "</") {
        let mut r = String::from_str("```xml\n");
        r.append(t);
        r.append("\n```\n");
        r
    } else {
        let mut r = String::from_str(text);
        r.append("\n\n");
        r
    }
}

/// Renders the placeholder of an image or other binary result item.
fn result_image_to_markdown(data: &str, mime_type: &str) -> (r: String)
    ensures
        r@ == result_image_text(data@, mime_type@),
{
    if begins_with(mime_type, "image/") {
        let mut r = String::from_str("**Image:** `(type: ");
        r.append(mime_type);
        r.append(", data: first 30 chars of base64...)`\n\n");
        r
    } else {
        let mut r = String::from_str("**Binary Content:** `(type: ");
        r.append(mime_type);
        r.append(", length: ");
        push_decimal(&mut r, byte_count(data) as u64);
        r.append(" bytes)`\n\n");
        r
    }
}

/// The highlighter tag of a fenced block for a resource.
fn syntax_tag_of(uri: &str, mime_type: &Option<String>) -> (r: String)
    ensures
        r@ == syntax_tag(uri@, crate::message::optional_text(*mime_type)),
{
    let tail = tail_after_last(uri, ".");
    let extension = tail.as_str();
    if same_text(extension, "rs") {
        String::from_str("rust")
    } else if same_text(extension, "js") {
        String::from_str("javascript")
    } else if same_text(extension, "ts") {
        String::from_str("typescript")
    } else if same_text(extension, "py") {
        String::from_str("python")
    } else if same_text(extension, "json") {
        String::from_str("json")
    } else if same_text(extension, "yaml") || same_text(extension, "yml") {
        String::from_str("yaml")
    } else if same_text(extension, "md") {
        String::from_str("markdown")
    } else if same_text(extension, "html") {
        String::from_str("html")
    } else if same_text(extension, "css") {
        String::from_str("css")
    } else if same_text(extension, "sh") {
        String::from_str("bash")
    } else {
        match mime_type {
            Some(mime) => if same_text(mime.as_str(), "text") {
                String::new()
            } else {
                mime.clone()
            },
            None => String::new(),
        }
    }
}

/// Renders a resource.
fn resource_to_markdown(resource: &ResourceContents) -> (r: String)
    ensures
        r@ == resource_text(resource@),
{
    match resource {
        ResourceContents::TextResourceContents { uri, mime_type, text } => {
            let tag = syntax_tag_of(uri.as_str(), mime_type);
            let body = trimmed(text.as_str());
            let mut r = String::from_str("**File:** `");
            r.append(uri.as_str());
            r.append("`\n");
            r.append("```");
            r.append(tag.as_str());
            r.append("\n");
            r.append(body.as_str());
            r.append("\n```\n\n");
            r
        },
        ResourceContents::BlobResourceContents { uri, mime_type, blob } => {
            let mut r = String::from_str("**Binary File:** `");
            r.append(uri.as_str());
            r.append("` (type: ");
            match mime_type {
                Some(mime) => {
                    r.append(mime.as_str());
                },
                None => {
                    r.append("unknown");
                },
            }
            r.append(", ");
            push_decimal(&mut r, byte_count(blob.as_str()) as u64);
            r.append(" bytes)\n\n");
            r
        },
    }
}

/// Renders one result item.
fn result_item_to_markdown(item: &ResultContent) -> (r: String)
    ensures
        r@ == result_item_text(item@),
{
    match item {
        ResultContent::Text { text, .. } => result_text_to_markdown(text.as_str()),
        ResultContent::Image { data, mime_type, .. } => result_image_to_markdown(
            data.as_str(),
            mime_type.as_str(),
        ),
        ResultContent::Resource { resource, .. } => resource_to_markdown(resource),
    }
}

/// Renders a tool response: each result item that may be shown, in the form
/// of its kind; or the error in a fenced block.
pub fn tool_response_to_markdown(resp: &ToolResponse, export_all_content: bool) -> (md: String)
    ensures
        md@ == tool_response_text(resp@, export_all_content),
{
    let mut md = String::from_str("#### Tool Response:\n");
    match &resp.tool_result {
        Ok(contents) => {
            let ghost views = crate::message::result_views(contents@);
            if contents.len() == 0 {
                md.append("*No textual output from tool.*\n");
            }
            let mut i: usize = 0;
            while i < contents.len()
                invariant
                    i <= contents.len(),
                    views == crate::message::result_views(contents@),
                    md@ == "#### Tool Response:\n"@ + empty_result_notice(views)
                        + result_items_text(views.take(i as int), export_all_content),
                decreases contents.len() - i,
            {
                assert(views.take(i + 1).drop_last() =~= views.take(i as int));
                if is_visible_item(&contents[i], export_all_content) {
                    let item = result_item_to_markdown(&contents[i]);
                    md.append(item.as_str());
                }
                i += 1;
            }
            assert(views.take(contents.len() as int) =~= views);
            md
        },
        Err(e) => {
            md.append("**Error in Tool Response:**\n```\n");
            md.append(e.as_str());
            md.append("\n```\n");
            md
        },
    }
}

// ---------------------------------------------------------------------------
// Messages, computed
// ---------------------------------------------------------------------------
/// Renders one content item.
pub fn content_to_markdown(content: &MessageContent, export_all_content: bool) -> (md: String)
    ensures
        md@ == content_text(content@, export_all_content),
{
    match content {
        MessageContent::Text(text) => {
            let mut md = String::from_str(text.as_str());
            md.append("\n\n");
            md
        },
        MessageContent::ToolRequest(req) => {
            let mut md = tool_request_to_markdown(req, export_all_content);
            md.append("\n");
            md
        },
        MessageContent::ToolResponse(resp) => {
            let mut md = tool_response_to_markdown(resp, export_all_content);
            md.append("\n");
            md
        },
        MessageContent::Image { data, mime_type } => {
            let shown = prefix_of(data.as_str(), 30);
            let mut md = String::from_str("**Image:** `(type: ");
            md.append(mime_type.as_str());
            md.append(", data placeholder: ");
            md.append(shown.as_str());
            md.append("...)`\n\n");
            md
        },
        MessageContent::Thinking(text) => {
            let quoted = replaced(text.as_str(), '\n', "\n> ");
            let mut md = String::from_str("**Thinking:**\n");
            md.append("> ");
            md.append(quoted.as_str());
            md.append("\n\n");
            md
        },
        MessageContent::RedactedThinking(_) => {
            let mut md = String::from_str("**Thinking:**\n");
            md.append("> *Thinking was redacted*\n\n");
            md
        },
        MessageContent::Unknown => String::from_str(
            "`WARNING: Message content type could not be rendered to Markdown`\n\n",
        ),
    }
}

/// Renders the body of a message: its content items in order, without the
/// line breaks at the end.
pub fn message_to_markdown(message: &Message, export_all_content: bool) -> (md: String)
    ensures
        md@ == message_text(message@, export_all_content),
{
    let mut md = String::new();
    let ghost views = message@.content;
    let mut i: usize = 0;
    while i < message.content.len()
        invariant
            i <= message.content.len(),
            views == crate::message::content_views(message.content@),
            md@ == contents_text(views.take(i as int), export_all_content),
        decreases message.content.len() - i,
    {
        assert(views.take(i + 1).drop_last() =~= views.take(i as int));
        let item = content_to_markdown(&message.content[i], export_all_content);
        md.append(item.as_str());
        i += 1;
    }
    assert(views.take(message.content.len() as int) =~= views);
    trimmed_end_char(md.as_str(), '\n')
}

} // verus!

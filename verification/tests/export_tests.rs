use session_export::export::{
    content_to_markdown, message_to_markdown, tool_request_to_markdown, tool_response_to_markdown,
};
use session_export::message::{
    Message, MessageContent, ResourceContents, ResultContent, Role, ToolCall, ToolRequest,
    ToolResponse,
};
use session_export::value::{Entry, Number, Value};

fn text(s: &str) -> Value {
    Value::String(s.to_string())
}

fn entry(key: &str, value: Value) -> Entry {
    Entry { key: key.to_string(), value }
}

fn request(name: &str, arguments: Value) -> ToolRequest {
    ToolRequest { id: "1".to_string(), tool_call: Ok(ToolCall { name: name.to_string(), arguments }) }
}

fn response(items: Vec<ResultContent>) -> ToolResponse {
    ToolResponse { id: "1".to_string(), tool_result: Ok(items) }
}

fn result_text(s: &str) -> ResultContent {
    ResultContent::Text { text: s.to_string(), audience: None }
}

fn text_resource(uri: &str, mime_type: Option<&str>, body: &str) -> ResultContent {
    ResultContent::Resource {
        resource: ResourceContents::TextResourceContents {
            uri: uri.to_string(),
            mime_type: mime_type.map(|m| m.to_string()),
            text: body.to_string(),
        },
        audience: None,
    }
}

fn user(content: Vec<MessageContent>) -> Message {
    Message { role: Role::User, created: 0, content }
}

#[test]
fn tool_request_names_tool_and_namespace() {
    let req = request("my_ext__do_thing", Value::Object(vec![entry("a", Value::Number(Number::Unsigned(1)))]));
    assert_eq!(
        tool_request_to_markdown(&req, false),
        "#### Tool Call: `do_thing` (namespace: `my_ext`)\n**Arguments:**\n*   **a**: 1\n"
    );
}

#[test]
fn tool_request_without_separator_has_the_default_namespace() {
    let req = request("plain", Value::Object(vec![]));
    assert_eq!(
        tool_request_to_markdown(&req, false),
        "#### Tool Call: `plain` (namespace: `Tool`)\n**Arguments:**\n*empty object*\n"
    );
}

#[test]
fn tool_request_splits_on_the_last_separator() {
    let req = request("a__b__c", Value::Null);
    assert_eq!(
        tool_request_to_markdown(&req, false),
        "#### Tool Call: `c` (namespace: `a__b`)\n**Arguments:**\n_null_\n"
    );
}

#[test]
fn tool_request_error_is_a_fenced_block() {
    let req = ToolRequest { id: "1".to_string(), tool_call: Err("Invalid parameters: boom".to_string()) };
    assert_eq!(
        tool_request_to_markdown(&req, false),
        "**Error in Tool Call:**\n```\nInvalid parameters: boom\n```\n"
    );
    assert_eq!(tool_request_to_markdown(&req, true), tool_request_to_markdown(&req, false));
}

#[test]
fn shell_request_renders_the_command_as_a_shell_block() {
    let req = request(
        "mcp__developer__shell",
        Value::Object(vec![entry("command", text("ls -la")), entry("cwd", text("/tmp"))]),
    );
    assert_eq!(
        tool_request_to_markdown(&req, false),
        "#### Tool Call: `shell` (namespace: `mcp__developer`)\n**Arguments:**\n*   **command**:\n    ```sh\n    ls -la\n    ```\n*   **cwd**: `/tmp`\n"
    );
}

#[test]
fn shell_request_under_its_short_qualified_name() {
    let req = request("developer__shell", Value::Object(vec![entry("command", text("  echo hi \n"))]));
    assert_eq!(
        tool_request_to_markdown(&req, false),
        "#### Tool Call: `shell` (namespace: `developer`)\n**Arguments:**\n*   **command**:\n    ```sh\n    echo hi\n    ```\n"
    );
}

#[test]
fn shell_request_without_a_string_command() {
    let req = request(
        "developer__shell",
        Value::Object(vec![entry("command", Value::Bool(true)), entry("cwd", text("/tmp"))]),
    );
    assert_eq!(
        tool_request_to_markdown(&req, false),
        "#### Tool Call: `shell` (namespace: `developer`)\n**Arguments:**\n*   **cwd**: `/tmp`\n"
    );
    let not_an_object = request("developer__shell", text("ls"));
    assert_eq!(
        tool_request_to_markdown(&not_an_object, false),
        "#### Tool Call: `shell` (namespace: `developer`)\n**Arguments:**\n"
    );
}

#[test]
fn other_tools_named_shell_use_the_generic_layout() {
    let req = request("other__shell", Value::Object(vec![entry("command", text("ls"))]));
    assert_eq!(
        tool_request_to_markdown(&req, false),
        "#### Tool Call: `shell` (namespace: `other`)\n**Arguments:**\n*   **command**: `ls`\n"
    );
}

#[test]
fn text_editor_request_renders_path_and_edit() {
    let req = request(
        "developer__text_editor",
        Value::Object(vec![
            entry("command", text("write")),
            entry("path", text("/a.rs")),
            entry("code_edit", text("fn main() {}")),
        ]),
    );
    assert_eq!(
        tool_request_to_markdown(&req, false),
        "#### Tool Call: `text_editor` (namespace: `developer`)\n**Arguments:**\n*   **path**: `/a.rs`\n*   **code_edit**:\n    ```\nfn main() {}\n    ```\n*   **command**: `write`\n"
    );
}

#[test]
fn text_editor_request_with_only_a_path() {
    let req = request("mcp__developer__text_editor", Value::Object(vec![entry("path", text("/a.rs"))]));
    assert_eq!(
        tool_request_to_markdown(&req, false),
        "#### Tool Call: `text_editor` (namespace: `mcp__developer`)\n**Arguments:**\n*   **path**: `/a.rs`\n"
    );
}

#[test]
fn oversized_top_level_argument_is_redacted() {
    let long = "z".repeat(4100);
    let req = request("ext__tool", text(&long));
    assert_eq!(
        tool_request_to_markdown(&req, false),
        "#### Tool Call: `tool` (namespace: `ext`)\n**Arguments:**\n`[REDACTED: 4100 chars]`\n"
    );
    assert_eq!(
        tool_request_to_markdown(&req, true),
        format!("#### Tool Call: `tool` (namespace: `ext`)\n**Arguments:**\n`{}`\n", long)
    );
}

#[test]
fn empty_tool_response_has_a_notice() {
    assert_eq!(
        tool_response_to_markdown(&response(vec![]), false),
        "#### Tool Response:\n*No textual output from tool.*\n"
    );
}

#[test]
fn tool_response_error_is_a_fenced_block() {
    let resp = ToolResponse { id: "1".to_string(), tool_result: Err("Execution failed: x".to_string()) };
    assert_eq!(
        tool_response_to_markdown(&resp, false),
        "#### Tool Response:\n**Error in Tool Response:**\n```\nExecution failed: x\n```\n"
    );
}

#[test]
fn plain_text_result_is_verbatim() {
    assert_eq!(
        tool_response_to_markdown(&response(vec![result_text("  hello ")]), false),
        "#### Tool Response:\n  hello \n\n"
    );
}

#[test]
fn json_looking_result_is_a_json_block() {
    assert_eq!(
        tool_response_to_markdown(&response(vec![result_text(" {\"a\": 1} \n")]), false),
        "#### Tool Response:\n```json\n{\"a\": 1}\n```\n"
    );
    assert_eq!(
        tool_response_to_markdown(&response(vec![result_text("[1, 2]")]), false),
        "#### Tool Response:\n```json\n[1, 2]\n```\n"
    );
    assert_eq!(
        tool_response_to_markdown(&response(vec![result_text("{1, 2]")]), false),
        "#### Tool Response:\n{1, 2]\n\n"
    );
    assert_eq!(
        tool_response_to_markdown(&response(vec![result_text("{")]), false),
        "#### Tool Response:\n{\n\n"
    );
}

#[test]
fn markup_looking_result_is_an_xml_block() {
    assert_eq!(
        tool_response_to_markdown(&response(vec![result_text("<a>x</a>")]), false),
        "#### Tool Response:\n```xml\n<a>x</a>\n```\n"
    );
    assert_eq!(
        tool_response_to_markdown(&response(vec![result_text("<br>")]), false),
        "#### Tool Response:\n<br>\n\n"
    );
}

#[test]
fn image_result_is_a_placeholder() {
    let image = ResultContent::Image {
        data: "iVBORw0KGgoAAAANSUhEUgAAAAEAAAABCAYAAAAfFcSJAAAADUlEQVR42mNk".to_string(),
        mime_type: "image/png".to_string(),
        audience: None,
    };
    assert_eq!(
        tool_response_to_markdown(&response(vec![image]), true),
        "#### Tool Response:\n**Image:** `(type: image/png, data: first 30 chars of base64...)`\n\n"
    );
}

#[test]
fn binary_result_names_type_and_length() {
    let binary = ResultContent::Image {
        data: "abcd".to_string(),
        mime_type: "application/pdf".to_string(),
        audience: None,
    };
    assert_eq!(
        tool_response_to_markdown(&response(vec![binary]), false),
        "#### Tool Response:\n**Binary Content:** `(type: application/pdf, length: 4 bytes)`\n\n"
    );
}

#[test]
fn python_resource_is_tagged_by_its_extension() {
    let item = text_resource("file:///x/script.py", Some("text/plain"), "print(1)\n");
    assert_eq!(
        tool_response_to_markdown(&response(vec![item]), false),
        "#### Tool Response:\n**File:** `file:///x/script.py`\n```python\nprint(1)\n```\n\n"
    );
    let other_mime = text_resource("file:///x/script.py", Some("application/octet-stream"), "print(1)\n");
    assert_eq!(
        tool_response_to_markdown(&response(vec![other_mime]), false),
        "#### Tool Response:\n**File:** `file:///x/script.py`\n```python\nprint(1)\n```\n\n"
    );
    let no_mime = text_resource("file:///x/script.py", None, "print(1)\n");
    assert_eq!(
        tool_response_to_markdown(&response(vec![no_mime]), false),
        "#### Tool Response:\n**File:** `file:///x/script.py`\n```python\nprint(1)\n```\n\n"
    );
}

#[test]
fn unknown_extension_falls_back_to_the_mime_type() {
    let item = text_resource("file:///x/data.unknownext", Some("text/plain"), "body");
    assert_eq!(
        tool_response_to_markdown(&response(vec![item]), false),
        "#### Tool Response:\n**File:** `file:///x/data.unknownext`\n```text/plain\nbody\n```\n\n"
    );
    let bare_text = text_resource("file:///x/data.unknownext", Some("text"), "body");
    assert_eq!(
        tool_response_to_markdown(&response(vec![bare_text]), false),
        "#### Tool Response:\n**File:** `file:///x/data.unknownext`\n```\nbody\n```\n\n"
    );
    let no_mime = text_resource("file:///x/data.unknownext", None, "body");
    assert_eq!(
        tool_response_to_markdown(&response(vec![no_mime]), false),
        "#### Tool Response:\n**File:** `file:///x/data.unknownext`\n```\nbody\n```\n\n"
    );
}

#[test]
fn known_extensions_have_their_tags() {
    let cases = [
        ("a.rs", "rust"),
        ("a.js", "javascript"),
        ("a.ts", "typescript"),
        ("a.py", "python"),
        ("a.json", "json"),
        ("a.yaml", "yaml"),
        ("a.yml", "yaml"),
        ("a.md", "markdown"),
        ("a.html", "html"),
        ("a.css", "css"),
        ("a.sh", "bash"),
        ("sh", "bash"),
        ("a.b.toml", "text/x-toml"),
    ];
    for (uri, tag) in cases {
        let item = text_resource(uri, Some("text/x-toml"), " x ");
        assert_eq!(
            tool_response_to_markdown(&response(vec![item]), false),
            format!("#### Tool Response:\n**File:** `{}`\n```{}\nx\n```\n\n", uri, tag)
        );
    }
}

#[test]
fn blob_resource_is_a_placeholder() {
    let blob = |mime_type: Option<&str>| ResultContent::Resource {
        resource: ResourceContents::BlobResourceContents {
            uri: "file:///x.bin".to_string(),
            mime_type: mime_type.map(|m| m.to_string()),
            blob: "AAECAwQ=".to_string(),
        },
        audience: None,
    };
    assert_eq!(
        tool_response_to_markdown(&response(vec![blob(None)]), false),
        "#### Tool Response:\n**Binary File:** `file:///x.bin` (type: unknown, 8 bytes)\n\n"
    );
    assert_eq!(
        tool_response_to_markdown(&response(vec![blob(Some("application/zip"))]), true),
        "#### Tool Response:\n**Binary File:** `file:///x.bin` (type: application/zip, 8 bytes)\n\n"
    );
}

#[test]
fn audience_without_the_assistant_is_skipped() {
    let for_user = ResultContent::Text { text: "secret".to_string(), audience: Some(vec![Role::User]) };
    let for_both = ResultContent::Text {
        text: "shared".to_string(),
        audience: Some(vec![Role::User, Role::Assistant]),
    };
    let for_nobody = ResultContent::Text { text: "nobody".to_string(), audience: Some(vec![]) };
    let resp = response(vec![for_user, for_both, for_nobody, result_text("open")]);
    assert_eq!(
        tool_response_to_markdown(&resp, false),
        "#### Tool Response:\nshared\n\nopen\n\n"
    );
    assert_eq!(
        tool_response_to_markdown(&resp, true),
        "#### Tool Response:\nsecret\n\nshared\n\nnobody\n\nopen\n\n"
    );
}

#[test]
fn response_with_only_hidden_items_has_no_notice() {
    let for_user = ResultContent::Text { text: "secret".to_string(), audience: Some(vec![Role::User]) };
    assert_eq!(tool_response_to_markdown(&response(vec![for_user]), false), "#### Tool Response:\n");
}

#[test]
fn audience_of_an_item() {
    let item = ResultContent::Image {
        data: String::new(),
        mime_type: "image/png".to_string(),
        audience: Some(vec![Role::Assistant]),
    };
    assert_eq!(item.audience(), Some(&vec![Role::Assistant]));
    assert_eq!(result_text("x").audience(), None);
}

#[test]
fn text_content_is_verbatim() {
    assert_eq!(content_to_markdown(&MessageContent::Text("hi".to_string()), false), "hi\n\n");
    assert_eq!(message_to_markdown(&user(vec![MessageContent::Text("hi\n".to_string())]), false), "hi");
}

#[test]
fn thinking_is_a_block_quote() {
    let content = MessageContent::Thinking("first\nsecond".to_string());
    assert_eq!(content_to_markdown(&content, false), "**Thinking:**\n> first\n> second\n\n");
}

#[test]
fn redacted_thinking_is_never_shown() {
    let content = MessageContent::RedactedThinking("the hidden reasoning".to_string());
    let expected = "**Thinking:**\n> *Thinking was redacted*\n\n";
    assert_eq!(content_to_markdown(&content, false), expected);
    assert_eq!(content_to_markdown(&content, true), expected);
    let message = user(vec![content]);
    assert_eq!(message_to_markdown(&message, true), message_to_markdown(&message, false));
    assert!(!message_to_markdown(&message, true).contains("hidden"));
}

#[test]
fn image_content_shows_at_most_thirty_characters() {
    let data = "0123456789abcdefghijklmnopqrstuvwxyzABCD";
    let content = MessageContent::Image { data: data.to_string(), mime_type: "image/png".to_string() };
    assert_eq!(
        content_to_markdown(&content, true),
        "**Image:** `(type: image/png, data placeholder: 0123456789abcdefghijklmnopqrst...)`\n\n"
    );
    let short = MessageContent::Image { data: "abc".to_string(), mime_type: "image/gif".to_string() };
    assert_eq!(
        content_to_markdown(&short, false),
        "**Image:** `(type: image/gif, data placeholder: abc...)`\n\n"
    );
}

#[test]
fn unknown_content_is_a_warning() {
    assert_eq!(
        content_to_markdown(&MessageContent::Unknown, false),
        "`WARNING: Message content type could not be rendered to Markdown`\n\n"
    );
}

#[test]
fn message_concatenates_items_and_drops_trailing_newlines() {
    let message = Message {
        role: Role::Assistant,
        created: 12,
        content: vec![
            MessageContent::Text("Let me look.".to_string()),
            MessageContent::ToolRequest(request("developer__shell", Value::Object(vec![entry("command", text("ls"))]))),
        ],
    };
    assert_eq!(
        message_to_markdown(&message, false),
        "Let me look.\n\n#### Tool Call: `shell` (namespace: `developer`)\n**Arguments:**\n*   **command**:\n    ```sh\n    ls\n    ```"
    );
}

#[test]
fn message_without_content_is_empty() {
    assert_eq!(message_to_markdown(&user(vec![]), false), "");
}

#[test]
fn message_with_a_tool_response() {
    let message = user(vec![MessageContent::ToolResponse(response(vec![result_text("done")]))]);
    assert_eq!(message_to_markdown(&message, false), "#### Tool Response:\ndone");
}

#[test]
fn kinds_of_content() {
    let req = MessageContent::ToolRequest(request("a__b", Value::Null));
    let resp = MessageContent::ToolResponse(response(vec![]));
    assert!(req.is_tool_request());
    assert!(!req.is_tool_response());
    assert!(resp.is_tool_response());
    assert!(!resp.is_tool_request());
    assert!(!MessageContent::Unknown.is_tool_request());
    assert!(!MessageContent::Text(String::new()).is_tool_response());
}

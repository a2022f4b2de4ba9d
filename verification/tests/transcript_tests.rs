use session_export::message::{
    Message, MessageContent, ResultContent, Role, ToolCall, ToolRequest, ToolResponse,
};
use session_export::transcript::{
    export_session_to_markdown, message_has_tool_request, message_is_only_tool_response,
    render_section, session_name, RenderState,
};
use session_export::value::{Entry, Value};

fn say(role: Role, words: &str) -> Message {
    Message { role, created: 0, content: vec![MessageContent::Text(words.to_string())] }
}

fn tool_request() -> MessageContent {
    MessageContent::ToolRequest(ToolRequest {
        id: "call-1".to_string(),
        tool_call: Ok(ToolCall {
            name: "developer__shell".to_string(),
            arguments: Value::Object(vec![Entry {
                key: "command".to_string(),
                value: Value::String("ls".to_string()),
            }]),
        }),
    })
}

fn tool_response(output: &str) -> MessageContent {
    MessageContent::ToolResponse(ToolResponse {
        id: "call-1".to_string(),
        tool_result: Ok(vec![ResultContent::Text { text: output.to_string(), audience: None }]),
    })
}

const REQUEST_TEXT: &str =
    "#### Tool Call: `shell` (namespace: `developer`)\n**Arguments:**\n*   **command**:\n    ```sh\n    ls\n    ```";

#[test]
fn empty_session_has_a_notice_and_no_headings() {
    let out = export_session_to_markdown(&vec![], "my-session", false);
    assert_eq!(out, "# Session Export: my-session\n\n*(This session has no messages)*\n");
    assert!(!out.contains("### User:"));
    assert!(!out.contains("### Assistant:"));
    assert!(!out.contains("Total messages"));
    assert_eq!(export_session_to_markdown(&vec![], "my-session", true), out);
}

#[test]
fn header_counts_the_messages() {
    let one = vec![say(Role::User, "hi")];
    let out = export_session_to_markdown(&one, "s", false);
    assert!(out.starts_with("# Session Export: s\n\n*Total messages: 1*\n\n---\n\n"));
    let mut many = Vec::new();
    for i in 0..12 {
        many.push(say(if i % 2 == 0 { Role::User } else { Role::Assistant }, "x"));
    }
    let out = export_session_to_markdown(&many, "s", false);
    assert!(out.starts_with("# Session Export: s\n\n*Total messages: 12*\n\n---\n\n"));
    assert_eq!(out.matches("\n\n---\n\n").count(), 13);
}

#[test]
fn simple_conversation() {
    let messages = vec![say(Role::User, "Hello"), say(Role::Assistant, "Hi there\n")];
    assert_eq!(
        export_session_to_markdown(&messages, "chat", false),
        "# Session Export: chat\n\n*Total messages: 2*\n\n---\n\n### User:\nHello\n\n---\n\n### Assistant:\nHi there\n\n---\n\n"
    );
}

#[test]
fn tool_response_is_attached_to_its_request() {
    let messages = vec![
        Message { role: Role::Assistant, created: 0, content: vec![tool_request()] },
        Message { role: Role::User, created: 1, content: vec![tool_response("file.txt")] },
        say(Role::Assistant, "Done"),
    ];
    let out = export_session_to_markdown(&messages, "s", false);
    let expected = format!(
        "# Session Export: s\n\n*Total messages: 3*\n\n---\n\n### Assistant:\n{}\n\n---\n\n#### Tool Response:\nfile.txt\n\n---\n\n### Assistant:\nDone\n\n---\n\n",
        REQUEST_TEXT
    );
    assert_eq!(out, expected);
    assert!(!out.contains("### User:"));
    assert!(out.contains("#### Tool Response:\nfile.txt\n\n---\n\n### Assistant:\nDone"));
}

#[test]
fn mixed_user_message_keeps_its_heading() {
    let messages = vec![
        Message { role: Role::Assistant, created: 0, content: vec![tool_request()] },
        Message {
            role: Role::User,
            created: 1,
            content: vec![tool_response("file.txt"), MessageContent::Text("and now?".to_string())],
        },
    ];
    let out = export_session_to_markdown(&messages, "s", false);
    let expected = format!(
        "# Session Export: s\n\n*Total messages: 2*\n\n---\n\n### Assistant:\n{}\n\n---\n\n### User:\n#### Tool Response:\nfile.txt\n\n\nand now?\n\n---\n\n",
        REQUEST_TEXT
    );
    assert_eq!(out, expected);
}

#[test]
fn tool_response_without_a_request_before_it_has_no_heading_either() {
    let messages = vec![
        say(Role::Assistant, "thinking"),
        Message { role: Role::User, created: 1, content: vec![tool_response("late")] },
    ];
    assert_eq!(
        export_session_to_markdown(&messages, "s", false),
        "# Session Export: s\n\n*Total messages: 2*\n\n---\n\n### Assistant:\nthinking\n\n---\n\n#### Tool Response:\nlate\n\n---\n\n"
    );
}

#[test]
fn assistant_message_of_tool_responses_keeps_its_heading() {
    let messages =
        vec![Message { role: Role::Assistant, created: 1, content: vec![tool_response("x")] }];
    assert_eq!(
        export_session_to_markdown(&messages, "s", false),
        "# Session Export: s\n\n*Total messages: 1*\n\n---\n\n### Assistant:\n#### Tool Response:\nx\n\n---\n\n"
    );
}

#[test]
fn rendering_is_deterministic() {
    let build = || {
        vec![
            say(Role::User, "list files"),
            Message {
                role: Role::Assistant,
                created: 0,
                content: vec![MessageContent::Thinking("hm\nok".to_string()), tool_request()],
            },
            Message { role: Role::User, created: 1, content: vec![tool_response("{\"a\": 1}")] },
        ]
    };
    let first = export_session_to_markdown(&build(), "s", false);
    let second = export_session_to_markdown(&build(), "s", false);
    assert_eq!(first, second);
    assert_eq!(first.as_bytes(), second.as_bytes());
}

#[test]
fn full_content_reaches_the_items() {
    let hidden = MessageContent::ToolResponse(ToolResponse {
        id: "1".to_string(),
        tool_result: Ok(vec![ResultContent::Text {
            text: "for the user".to_string(),
            audience: Some(vec![Role::User]),
        }]),
    });
    let messages = vec![Message { role: Role::User, created: 0, content: vec![hidden] }];
    assert_eq!(
        export_session_to_markdown(&messages, "s", false),
        "# Session Export: s\n\n*Total messages: 1*\n\n---\n\n#### Tool Response:\n\n---\n\n"
    );
    assert_eq!(
        export_session_to_markdown(&messages, "s", true),
        "# Session Export: s\n\n*Total messages: 1*\n\n---\n\n#### Tool Response:\nfor the user\n\n---\n\n"
    );
}

#[test]
fn section_steps_carry_the_pairing_state() {
    let mut state = RenderState::new();
    assert!(!state.pending_tool_pairing);
    let request = Message { role: Role::Assistant, created: 0, content: vec![tool_request()] };
    let section = render_section(&mut state, &request, false);
    assert_eq!(section, format!("### Assistant:\n{}\n\n---\n\n", REQUEST_TEXT));
    assert!(state.pending_tool_pairing);
    let answer = Message { role: Role::User, created: 0, content: vec![tool_response("ok")] };
    let section = render_section(&mut state, &answer, false);
    assert_eq!(section, "#### Tool Response:\nok\n\n---\n\n");
    assert!(!state.pending_tool_pairing);
    let section = render_section(&mut state, &say(Role::User, "thanks"), false);
    assert_eq!(section, "### User:\nthanks\n\n---\n\n");
    assert!(!state.pending_tool_pairing);
}

#[test]
fn pairing_is_cleared_by_any_message() {
    let mut state = RenderState { pending_tool_pairing: true };
    let section = render_section(&mut state, &say(Role::User, "wait"), false);
    assert_eq!(section, "### User:\nwait\n\n---\n\n");
    assert!(!state.pending_tool_pairing);
}

#[test]
fn message_predicates() {
    let only = Message { role: Role::User, created: 0, content: vec![tool_response("a"), tool_response("b")] };
    assert!(message_is_only_tool_response(&only));
    assert!(!message_has_tool_request(&only));
    let assistant = Message { role: Role::Assistant, created: 0, content: vec![tool_response("a")] };
    assert!(!message_is_only_tool_response(&assistant));
    let mixed = Message {
        role: Role::User,
        created: 0,
        content: vec![tool_response("a"), MessageContent::Text("t".to_string()), tool_request()],
    };
    assert!(!message_is_only_tool_response(&mixed));
    assert!(message_has_tool_request(&mixed));
    let empty = Message { role: Role::User, created: 0, content: vec![] };
    assert!(message_is_only_tool_response(&empty));
    assert!(!message_has_tool_request(&empty));
}

#[test]
fn session_name_prefers_the_override() {
    assert_eq!(session_name(Some("20250101_120000"), Some("My session")), "My session");
    assert_eq!(session_name(Some("20250101_120000"), None), "20250101_120000");
    assert_eq!(session_name(None, None), "Unnamed Session");
    assert_eq!(session_name(None, Some("x")), "x");
}

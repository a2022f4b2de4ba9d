use session_export::export::tool_request_to_markdown;
use session_export::message::{ToolCall, ToolRequest};
use session_export::value::{number_to_string, value_to_markdown, Entry, Number, Value};

fn number_from_json(number: &serde_json::Number) -> Number {
    if let Some(n) = number.as_u64() {
        Number::Unsigned(n)
    } else if let Some(n) = number.as_i64() {
        Number::Signed(n)
    } else {
        Number::Decimal(number.to_string())
    }
}

fn value_from_json(value: &serde_json::Value) -> Value {
    match value {
        serde_json::Value::Null => Value::Null,
        serde_json::Value::Bool(b) => Value::Bool(*b),
        serde_json::Value::Number(n) => Value::Number(number_from_json(n)),
        serde_json::Value::String(s) => Value::String(s.clone()),
        serde_json::Value::Array(items) => Value::Array(items.iter().map(value_from_json).collect()),
        serde_json::Value::Object(map) => Value::Object(
            map.iter()
                .map(|(key, value)| Entry { key: key.clone(), value: value_from_json(value) })
                .collect(),
        ),
    }
}

fn parse(json: &str) -> Value {
    let parsed: serde_json::Value = serde_json::from_str(json).unwrap();
    value_from_json(&parsed)
}

#[test]
fn integers_print_as_json_prints_them() {
    let unsigned = [0u64, 1, 9, 10, 99, 100, 4096, 1 << 32, u64::MAX];
    for n in unsigned {
        let json = serde_json::Number::from(n);
        assert_eq!(number_to_string(&number_from_json(&json)), json.to_string());
        assert_eq!(number_to_string(&Number::Unsigned(n)), json.to_string());
    }
    let signed = [-1i64, -9, -10, -4096, i64::MIN, i64::MAX, 0, 7];
    for n in signed {
        let json = serde_json::Number::from(n);
        assert_eq!(number_to_string(&number_from_json(&json)), json.to_string());
        assert_eq!(number_to_string(&Number::Signed(n)), json.to_string());
    }
}

#[test]
fn other_numbers_keep_their_json_text() {
    let samples = [1.5f64, -0.25, 1e100, 3.0];
    for x in samples {
        let json = serde_json::Number::from_f64(x).unwrap();
        assert_eq!(number_to_string(&number_from_json(&json)), json.to_string());
    }
    assert_eq!(value_to_markdown(&parse("2.5"), 0, false), "2.5\n");
}

#[test]
fn parsed_arguments_render_as_a_list() {
    let value = parse(r#"{"a": 1, "b": [true, null, "x"], "c": {"d": -2}}"#);
    assert_eq!(
        value_to_markdown(&value, 0, false),
        "*   **a**: 1\n*   **b**: \n    *   - *true*\n    *   - _null_\n    *   - `x`\n*   **c**: \n    *   **d**: -2\n"
    );
}

#[test]
fn parsed_shell_call() {
    let arguments = parse(r#"{"command": "ls -la", "cwd": "/tmp"}"#);
    let req = ToolRequest {
        id: "id".to_string(),
        tool_call: Ok(ToolCall { name: "mcp__developer__shell".to_string(), arguments }),
    };
    assert_eq!(
        tool_request_to_markdown(&req, false),
        "#### Tool Call: `shell` (namespace: `mcp__developer`)\n**Arguments:**\n*   **command**:\n    ```sh\n    ls -la\n    ```\n*   **cwd**: `/tmp`\n"
    );
}

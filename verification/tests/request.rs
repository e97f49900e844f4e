use serde_json::Value;
use sloppy::request::{chat_request_body, SYSTEM_PROMPT};

fn object(entries: Vec<(&str, Value)>) -> Value {
    let mut m = serde_json::Map::new();
    for (k, v) in entries {
        m.insert(k.to_string(), v);
    }
    Value::Object(m)
}

fn s(v: &str) -> Value {
    Value::String(v.to_string())
}

/// The request body as the service client builds it with serde_json.
fn expected_body(prompt: &str) -> String {
    let tool = object(vec![
        ("type", s("function")),
        (
            "function",
            object(vec![
                ("name", s("string")),
                ("description", s("string")),
                (
                    "parameters",
                    object(vec![
                        ("type", s("object")),
                        (
                            "properties",
                            object(vec![
                                ("additionalProp1", object(vec![])),
                                ("additionalProp2", object(vec![])),
                                ("additionalProp3", object(vec![])),
                            ]),
                        ),
                    ]),
                ),
            ]),
        ),
    ]);
    let body = object(vec![
        (
            "messages",
            Value::Array(vec![
                object(vec![("role", s("user")), ("content", s(prompt))]),
                object(vec![("role", s("assistant")), ("content", s(SYSTEM_PROMPT))]),
            ]),
        ),
        ("stream", Value::Bool(true)),
        ("max_tokens", Value::from(10)),
        ("temperature", Value::from(0.5)),
        ("top_p", Value::from(1)),
        ("tools", Value::Array(vec![tool])),
        ("tool_choice", s("auto")),
        ("model", s("dolphin-2.7-mixtral-8x7b")),
        ("custom_instructions", s("string")),
        ("nostr_mode", Value::Bool(false)),
        ("j2_chat_template", s("string")),
    ]);
    body.to_string()
}

#[test]
fn body_matches_serde_json() {
    for prompt in [
        "Help keep me alive!",
        "",
        "quote \" backslash \\ slash /",
        "lines\nand\ttabs\r\u{8}\u{c}",
        "control \u{1} \u{1f} \u{7f}",
        "ünïcödé ⚡ sats",
    ] {
        assert_eq!(chat_request_body(prompt), expected_body(prompt), "prompt {:?}", prompt);
    }
}

#[test]
fn body_escapes_the_prompt() {
    let body = chat_request_body("a\"b\u{1}");
    assert!(body.contains("{\"content\":\"a\\\"b\\u0001\",\"role\":\"user\"}"));
    assert!(body.starts_with("{\"custom_instructions\":\"string\","));
    assert!(body.ends_with(",\"top_p\":1}"));
}

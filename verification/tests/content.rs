//! Messages and their content.

use agent_runtime_core::content::{ContentPart, Message, Role, ToolCall, ToolResultBlock, UserInput};
use agent_runtime_core::ids::ToolCallId;
use agent_runtime_core::json::{settle, Json};

#[test]
fn tool_call_is_first_class_content() {
    let msg = Message::assistant(vec![
        ContentPart::text("calling a tool"),
        ContentPart::ToolCall(ToolCall {
            id: ToolCallId::new("c1"),
            name: "read".into(),
            arguments: Json::parse("{\"path\": \"a.txt\"}").unwrap(),
        }),
    ]);
    assert_eq!(msg.tool_calls().len(), 1);
    assert_eq!(msg.joined_text(), "calling a tool");
}

#[test]
fn joined_text_takes_text_parts_only() {
    let msg = Message::assistant(vec![
        ContentPart::text("a"),
        ContentPart::Reasoning { text: "hidden".into(), redacted: false, signature: None },
        ContentPart::text("b"),
    ]);
    assert_eq!(msg.joined_text(), "a\nb");
    assert!(msg.tool_calls().is_empty());
    assert_eq!(Message::system("be brief").role, Role::System);
    assert_eq!(UserInput::text("hi").into_message(), Message::user("hi"));
}

#[test]
fn a_tool_result_is_a_tool_message() {
    let block = ToolResultBlock {
        call_id: ToolCallId::new("c1"),
        name: "read".into(),
        content: vec![ContentPart::text("done")],
        is_error: false,
    };
    let msg = Message::tool_result(block.clone());
    assert_eq!(msg.role, Role::Tool);
    assert_eq!(msg.content, vec![ContentPart::ToolResult(block)]);
    assert_eq!(ContentPart::text("x").as_text(), Some("x"));
}

#[test]
fn json_is_held_canonically() {
    let spaced = Json::parse(" { \"b\" : [ 1 , 2 ] , \"a\" : null } ").unwrap();
    let tight = Json::parse("{\"a\":null,\"b\":[1,2]}").unwrap();
    assert_eq!(spaced, tight);
    assert_eq!(spaced.as_str(), "{\"a\":null,\"b\":[1,2]}");
    assert!(Json::parse("{").is_err());
}

#[test]
fn zeros_are_equal_whatever_their_sign() {
    assert_eq!(Json::parse("-0.0").unwrap().as_str(), "0.0");
    assert_eq!(Json::parse("0.0").unwrap(), Json::parse("-0.0").unwrap());
    assert_eq!(Json::parse("0.0").unwrap(), Json::parse(" 0.00 ").unwrap());
    assert_ne!(Json::parse("0.0").unwrap(), Json::parse("0").unwrap());
    // Other numbers keep their sign, and texts stay as they are.
    let mixed = "[-0.0,-0.05,-1.5,{\"-0.0\":\"a\\\"-0.0\",\"b\":-0.0}]";
    assert_eq!(
        Json::parse(mixed).unwrap().as_str(),
        "[0.0,-0.05,-1.5,{\"-0.0\":\"a\\\"-0.0\",\"b\":0.0}]"
    );
    assert_eq!(settle("-0.0e1"), "-0.0e1");
}

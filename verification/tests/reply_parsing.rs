//! The reply conventions of each backend: well-formed payloads parse,
//! malformed ones are refused, and the request id keeps its case.

use hook_relay::decision::Decision;
use hook_relay::reply::{
    create_permission_keyboard, parse_button_custom_id, parse_callback_data, parse_decision_reply,
};
use hook_relay::text::escape_markdown;

#[test]
fn test_parse_button_custom_id_allow() {
    let result = parse_button_custom_id("allow:abc123").unwrap();
    assert_eq!(result.0, Decision::Allow);
    assert_eq!(result.1, "abc123");
}

#[test]
fn test_parse_button_custom_id_deny() {
    let result = parse_button_custom_id("deny:xyz789").unwrap();
    assert_eq!(result.0, Decision::Deny);
    assert_eq!(result.1, "xyz789");
}

#[test]
fn test_parse_button_custom_id_always() {
    let result = parse_button_custom_id("always:test123").unwrap();
    assert_eq!(result.0, Decision::AlwaysAllow);
    assert_eq!(result.1, "test123");
}

#[test]
fn test_parse_button_custom_id_invalid() {
    assert!(parse_button_custom_id("invalid").is_none());
    assert!(parse_button_custom_id("approve:abc123").is_none());
    assert!(parse_button_custom_id("").is_none());
}

#[test]
fn test_parse_decision_reply_allow() {
    let result = parse_decision_reply("ALLOW abc123").unwrap();
    assert_eq!(result.0, Decision::Allow);
    assert_eq!(result.1, "abc123");
}

#[test]
fn test_parse_decision_reply_deny() {
    let result = parse_decision_reply("deny ABC123").unwrap();
    assert_eq!(result.0, Decision::Deny);
    assert_eq!(result.1, "ABC123");
}

#[test]
fn test_parse_decision_reply_always() {
    let result = parse_decision_reply("Always abc123").unwrap();
    assert_eq!(result.0, Decision::AlwaysAllow);
    assert_eq!(result.1, "abc123");
}

#[test]
fn test_parse_decision_reply_invalid() {
    assert!(parse_decision_reply("invalid").is_none());
    assert!(parse_decision_reply("APPROVE abc123").is_none());
    assert!(parse_decision_reply("").is_none());
}

#[test]
fn test_parse_decision_reply_preserves_case() {
    let result = parse_decision_reply("allow AbC123").unwrap();
    assert_eq!(result.0, Decision::Allow);
    assert_eq!(result.1, "AbC123"); // Request ID case preserved
}

#[test]
fn test_parse_callback_data_allow() {
    let data = parse_callback_data("abc123:allow").unwrap();
    assert_eq!(data.request_id, "abc123");
    assert_eq!(data.decision, Decision::Allow);
    assert!(data.tool_name.is_none());
}

#[test]
fn test_parse_callback_data_deny() {
    let data = parse_callback_data("abc123:deny").unwrap();
    assert_eq!(data.request_id, "abc123");
    assert_eq!(data.decision, Decision::Deny);
}

#[test]
fn test_parse_callback_data_always_allow() {
    let data = parse_callback_data("abc123:always_allow:Bash").unwrap();
    assert_eq!(data.request_id, "abc123");
    assert_eq!(data.decision, Decision::AlwaysAllow);
    assert_eq!(data.tool_name, Some("Bash".to_string()));
}

#[test]
fn test_parse_callback_data_invalid() {
    assert!(parse_callback_data("invalid").is_none());
    assert!(parse_callback_data("abc123:unknown").is_none());
}

#[test]
fn telegram_test_parse_callback_data_allow() {
    test_parse_callback_data_allow();
}

#[test]
fn telegram_test_parse_callback_data_deny() {
    test_parse_callback_data_deny();
}

#[test]
fn telegram_test_parse_callback_data_always_allow() {
    test_parse_callback_data_always_allow();
}

#[test]
fn telegram_test_parse_callback_data_invalid() {
    test_parse_callback_data_invalid();
}

#[test]
fn test_decision_to_behavior() {
    assert_eq!(Decision::Allow.to_behavior(), "allow");
    assert_eq!(Decision::Deny.to_behavior(), "deny");
    assert_eq!(Decision::AlwaysAllow.to_behavior(), "allow");
}

#[test]
fn telegram_test_decision_to_behavior() {
    test_decision_to_behavior();
}

#[test]
fn test_escape_markdown() {
    assert_eq!(escape_markdown("hello"), "hello");
    assert_eq!(escape_markdown("hello_world"), "hello\\_world");
    assert_eq!(escape_markdown("test.txt"), "test\\.txt");
    assert_eq!(escape_markdown("*bold*"), "\\*bold\\*");
}

#[test]
fn telegram_test_escape_markdown() {
    test_escape_markdown();
}

#[test]
fn test_create_permission_keyboard() {
    let keyboard = create_permission_keyboard("abc123", "Bash");
    assert_eq!(keyboard.len(), 2);
    assert_eq!(keyboard[0].len(), 2); // Allow, Deny
    assert_eq!(keyboard[1].len(), 1); // Always Allow
}

#[test]
fn telegram_test_create_permission_keyboard() {
    test_create_permission_keyboard();
}

#[test]
fn test_keyboard_payloads_parse_back() {
    let keyboard = create_permission_keyboard("abc123", "Bash");

    let allow = parse_callback_data(&keyboard[0][0].data).unwrap();
    assert_eq!(allow.request_id, "abc123");
    assert_eq!(allow.decision, Decision::Allow);

    let deny = parse_callback_data(&keyboard[0][1].data).unwrap();
    assert_eq!(deny.request_id, "abc123");
    assert_eq!(deny.decision, Decision::Deny);

    let always = parse_callback_data(&keyboard[1][0].data).unwrap();
    assert_eq!(always.request_id, "abc123");
    assert_eq!(always.decision, Decision::AlwaysAllow);
    assert_eq!(always.tool_name, Some("Bash".to_string()));
}

//! Message rendering beyond the prompt: the plain-text prompt with its
//! reply instructions, the notices, and the status edits.

use hook_relay::config::{ChatIdValue, ConfigError, DiscordUserIdValue};
use hook_relay::decision::Decision;
use hook_relay::message::{
    format_auto_approved_text, format_permission_text, request_status_line,
    resolved_message_text, status_text, timeout_message_text, PermissionMessage, ToolInput,
};

fn bash_message() -> PermissionMessage {
    PermissionMessage::new(
        "abc123".to_string(),
        "Bash".to_string(),
        "test-host".to_string(),
        ToolInput {
            command: Some("ls -la".to_string()),
            file_path: None,
            old_string: None,
            new_string: None,
            raw_pretty: String::new(),
        },
    )
}

#[test]
fn test_format_permission_text_carries_reply_commands() {
    let text = format_permission_text(&bash_message());
    assert!(text.contains("Permission Request [abc123]"));
    assert!(text.contains("test-host"));
    assert!(text.contains("Tool: Bash"));
    assert!(text.contains("ls -la"));
    assert!(text.contains("ALLOW abc123"));
    assert!(text.contains("DENY abc123"));
    assert!(text.contains("ALWAYS abc123"));
}

#[test]
fn test_format_auto_approved_text() {
    let text = format_auto_approved_text(&bash_message());
    assert!(text.contains("Auto-Approved [abc123]"));
    assert!(text.contains("(in always-allow list)"));
    assert!(text.contains("ls -la"));
}

#[test]
fn test_format_discord_permission_message() {
    let text = hook_relay::message::format_discord_permission_message(&bash_message());
    assert!(text.contains("**Permission Request** [abc123]"));
    assert!(text.contains("**Host:** test-host"));
    assert!(text.contains("**Tool:** Bash"));
    assert!(text.contains("**Command:**\n```\nls -la\n```"));
}

#[test]
fn test_format_discord_auto_approved_message() {
    let text = hook_relay::message::format_discord_auto_approved_message(&bash_message());
    assert!(text.contains("**Auto-Approved** [abc123]"));
    assert!(text.contains("*(in always-allow list)*"));
    assert!(text.contains("ls -la"));
}

#[test]
fn test_status_text_for_each_decision() {
    assert_eq!(status_text(Decision::Allow, "Bash"), "\u{2705} Approved");
    assert_eq!(status_text(Decision::Deny, "Bash"), "\u{274C} Denied");
    let always = status_text(Decision::AlwaysAllow, "Bash");
    assert!(always.contains("Always Allowed"));
    assert!(always.contains("Bash"));
}

#[test]
fn test_resolved_and_timeout_edits() {
    let resolved = resolved_message_text("prompt", "\u{2705} Approved");
    assert_eq!(resolved, "prompt\n\n*Status:* \u{2705} Approved");

    let timed_out = timeout_message_text("prompt");
    assert!(timed_out.starts_with("prompt\n\n*Status:*"));
    assert!(timed_out.contains("Timeout"));
    assert!(timed_out.contains("Denied"));
}

#[test]
fn test_request_status_line() {
    assert_eq!(
        request_status_line("abc123", Decision::Allow),
        "Request [abc123]: \u{2705} Approved"
    );
    assert_eq!(
        request_status_line("abc123", Decision::Deny),
        "Request [abc123]: \u{274C} Denied"
    );
}

#[test]
fn test_chat_id_conversions() {
    assert_eq!(ChatIdValue::Integer(123456).to_chat_id().unwrap(), 123456);
    assert_eq!(
        ChatIdValue::Text("123456".to_string()).to_chat_id().unwrap(),
        123456
    );
    assert_eq!(
        ChatIdValue::Text("-100200".to_string()).to_chat_id().unwrap(),
        -100200
    );
    let err = ChatIdValue::Text("12x".to_string()).to_chat_id().unwrap_err();
    assert!(matches!(err, ConfigError::MissingField(_)));
}

#[test]
fn test_user_id_conversions() {
    assert_eq!(DiscordUserIdValue::Integer(42).to_u64().unwrap(), 42);
    assert_eq!(DiscordUserIdValue::Text("42".to_string()).to_u64().unwrap(), 42);
    let err = DiscordUserIdValue::Text("-1".to_string()).to_u64().unwrap_err();
    assert!(matches!(err, ConfigError::MissingField(_)));
}

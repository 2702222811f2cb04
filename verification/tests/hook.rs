//! Permission requests: creation from an inbound event, message
//! rendering, and the structured result.

use hook_relay::decision::Decision;
use hook_relay::flow::create_hook_response;
use hook_relay::message::{HookInput, PermissionRequest, ToolInput};

fn bash_input(command: &str) -> ToolInput {
    ToolInput {
        command: Some(command.to_string()),
        file_path: None,
        old_string: None,
        new_string: None,
        raw_pretty: format!("{{\n  \"command\": \"{}\"\n}}", command),
    }
}

#[test]
fn test_permission_request_from_hook_input() {
    let input = HookInput {
        tool_name: "Bash".to_string(),
        tool_input: bash_input("ls -la"),
    };

    let request = PermissionRequest::from_hook_input(input);
    assert_eq!(request.tool_name, "Bash");
    assert_eq!(request.request_id.len(), 8);
}

#[test]
fn test_request_id_carries_no_separators() {
    // The id must survive every reply encoding: no colon, no
    // whitespace.
    let input = HookInput {
        tool_name: "Bash".to_string(),
        tool_input: bash_input("ls -la"),
    };

    let request = PermissionRequest::from_hook_input(input);
    assert!(!request.request_id.contains(':'));
    assert!(!request.request_id.contains(char::is_whitespace));
}

#[test]
fn test_format_message_bash() {
    let request = PermissionRequest {
        tool_name: "Bash".to_string(),
        tool_input: bash_input("ls -la"),
        request_id: "abc12345".to_string(),
    };

    let message = request.format_message(Some("test-host"));
    assert!(message.contains("Bash"));
    assert!(message.contains("ls \\-la"));
    assert!(message.contains("test\\-host"));
}

#[test]
fn test_format_message_edit() {
    let request = PermissionRequest {
        tool_name: "Edit".to_string(),
        tool_input: ToolInput {
            command: None,
            file_path: Some("/path/to/file.txt".to_string()),
            old_string: Some("old".to_string()),
            new_string: Some("new".to_string()),
            raw_pretty: String::new(),
        },
        request_id: "abc12345".to_string(),
    };

    let message = request.format_message(None);
    assert!(message.contains("Edit"));
    assert!(message.contains("file\\.txt"));
    assert!(message.contains("old"));
    assert!(message.contains("new"));
}

#[test]
fn test_create_hook_response_allow() {
    let response = create_hook_response(Decision::Allow);
    assert_eq!(response.hook_specific_output.decision.behavior, "allow");
}

#[test]
fn test_create_hook_response_deny() {
    let response = create_hook_response(Decision::Deny);
    assert_eq!(response.hook_specific_output.decision.behavior, "deny");
}

#[test]
fn test_hook_input_from_document() {
    let input =
        HookInput::from_json_str("{\"tool_name\": \"Bash\", \"tool_input\": {\"command\": \"ls -la\"}}")
            .unwrap();
    assert_eq!(input.tool_name, "Bash");
    assert_eq!(input.tool_input.command, Some("ls -la".to_string()));
    assert!(input.tool_input.file_path.is_none());
    assert!(input.tool_input.raw_pretty.contains("ls -la"));
}

#[test]
fn test_hook_input_defaults_tool_name() {
    let input = HookInput::from_json_str("{}").unwrap();
    assert_eq!(input.tool_name, "unknown");
}

#[test]
fn test_hook_input_rejects_bad_documents() {
    assert!(HookInput::from_json_str("not json").is_none());
    assert!(HookInput::from_json_str("[1, 2]").is_none());
}

//! Notification and stop events: rendering, the project name, and the
//! transcript summary.

use hook_relay::notification_handler::{format_notification, NotificationInput};
use hook_relay::stop_handler::{
    format_completion_message, last_assistant_message, should_notify, StopEvent, StopInput,
    TranscriptLine,
};

#[test]
fn test_format_notification_permission() {
    let input = NotificationInput {
        notification_type: "permission_prompt".to_string(),
        message: "The assistant needs permission to run bash".to_string(),
        session_id: "test123".to_string(),
        cwd: "/home/user/project".to_string(),
    };

    let result = format_notification(&input, "test-host");
    assert!(result.contains("Permission Required"));
    assert!(result.contains("test-host"));
    assert!(result.contains("project"));
}

#[test]
fn test_format_notification_idle() {
    let input = NotificationInput {
        notification_type: "idle_prompt".to_string(),
        message: "Waiting for input".to_string(),
        session_id: "test123".to_string(),
        cwd: "/home/user/myapp".to_string(),
    };

    let result = format_notification(&input, "my-machine");
    assert!(result.contains("Idle"));
    assert!(result.contains("my-machine"));
}

#[test]
fn test_format_notification_exact_text() {
    let input = NotificationInput {
        notification_type: "permission_prompt".to_string(),
        message: "Hi".to_string(),
        session_id: String::new(),
        cwd: "/a/b".to_string(),
    };

    let result = format_notification(&input, "h");
    assert_eq!(
        result,
        "\u{1F510} **Permission Required**\n\u{1F5A5}\u{FE0F} **Host:** h\n\u{1F4C1} **Project:** b\n\nHi"
    );
}

#[test]
fn test_stop_event_from_input() {
    let input = StopInput {
        session_id: "abc123".to_string(),
        transcript_path: "/path/to/transcript.jsonl".to_string(),
        cwd: "/home/user/project".to_string(),
        stop_hook_active: false,
    };

    let event = StopEvent::from_input(input);
    assert_eq!(event.session_id, "abc123");
    assert_eq!(event.cwd, "/home/user/project");
    assert!(!event.stop_hook_active);
}

#[test]
fn test_get_project_name() {
    let event = StopEvent {
        session_id: String::new(),
        transcript_path: String::new(),
        cwd: "/home/user/my-project".to_string(),
        stop_hook_active: false,
    };

    assert_eq!(event.get_project_name(), "my-project");
}

#[test]
fn test_get_project_name_skips_dot_segments() {
    let event = StopEvent {
        session_id: String::new(),
        transcript_path: String::new(),
        cwd: "/home/user/my-project/.".to_string(),
        stop_hook_active: false,
    };

    assert_eq!(event.get_project_name(), "my-project");
}

#[test]
fn test_get_project_name_upward_path_is_unknown() {
    let event = StopEvent {
        session_id: String::new(),
        transcript_path: String::new(),
        cwd: "/home/user/..".to_string(),
        stop_hook_active: false,
    };

    assert_eq!(event.get_project_name(), "Unknown");
}

#[test]
fn test_get_project_name_empty_cwd() {
    let event = StopEvent {
        session_id: String::new(),
        transcript_path: String::new(),
        cwd: String::new(),
        stop_hook_active: false,
    };

    assert_eq!(event.get_project_name(), "Unknown");
}

#[test]
fn test_get_last_assistant_message_valid_transcript() {
    let lines = vec![
        TranscriptLine { is_assistant: false, texts: vec!["Hello".to_string()] },
        TranscriptLine { is_assistant: true, texts: vec!["First response".to_string()] },
        TranscriptLine { is_assistant: true, texts: vec!["Final response".to_string()] },
    ];

    assert_eq!(last_assistant_message(&lines), Some("Final response".to_string()));
}

#[test]
fn test_get_last_assistant_message_empty_transcript() {
    let lines: Vec<TranscriptLine> = Vec::new();
    assert!(last_assistant_message(&lines).is_none());
}

#[test]
fn test_should_notify_guards_reentry() {
    let active = StopEvent {
        session_id: String::new(),
        transcript_path: String::new(),
        cwd: String::new(),
        stop_hook_active: true,
    };
    let fresh = StopEvent { stop_hook_active: false, ..active.clone() };

    assert!(!should_notify(&active));
    assert!(should_notify(&fresh));
}

#[test]
fn test_format_completion_message_with_summary() {
    let text = format_completion_message("test-host", "my-project", Some(&"All done".to_string()));
    assert!(text.contains("Job Completed"));
    assert!(text.contains("test-host"));
    assert!(text.contains("my-project"));
    assert!(text.contains("All done"));
}

#[test]
fn test_format_completion_message_truncates_summary() {
    let long = "x".repeat(400);
    let text = format_completion_message("h", "p", Some(&long));
    assert!(text.contains(&("x".repeat(300) + "...")));
    assert!(!text.contains(&"x".repeat(301)));
}

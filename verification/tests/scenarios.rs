//! End-to-end scenarios of the decision-wait protocol and the
//! permission flow, run against stubbed poll batches.

use hook_relay::allow_list::AlwaysAllowManager;
use hook_relay::decision::Decision;
use hook_relay::flow::{begin_request, create_hook_response, finish_request, FlowStep};
use hook_relay::message::{format_auto_approved_message, HookInput, PermissionRequest, ToolInput};
use hook_relay::reply::create_permission_keyboard;
use hook_relay::stop_handler::{should_notify, StopEvent, StopInput};
use hook_relay::wait::{
    advance_offset, extract_text_replies, extract_update_replies, CallbackPayload, DecisionWait,
    ReplyEvent, UpdateEvent,
};

fn reply(decision: Decision, request_id: &str) -> ReplyEvent {
    ReplyEvent { decision, request_id: request_id.to_string() }
}

#[test]
fn test_matching_reply_resolves_to_allow() {
    let mut wait = DecisionWait::new("abc123", 10);
    let batch = vec![reply(Decision::Allow, "abc123")];
    assert_eq!(wait.step(&batch), Some(Decision::Allow));
}

#[test]
fn test_mismatched_reply_leaves_wait_pending() {
    // Two requests are in flight: a reply for one must not resolve the
    // other.
    let mut wait_abc = DecisionWait::new("abc123", 10);
    let mut wait_xyz = DecisionWait::new("xyz789", 10);
    let batch = vec![reply(Decision::Allow, "xyz789")];

    assert_eq!(wait_abc.step(&batch), None); // still waiting
    assert_eq!(wait_xyz.step(&batch), Some(Decision::Allow));

    // The pending wait later takes its own reply.
    let own = vec![reply(Decision::Deny, "abc123")];
    assert_eq!(wait_abc.step(&own), Some(Decision::Deny));
}

#[test]
fn test_timeout_resolves_to_deny() {
    // One tick and no reply: the wait resolves to a denial, quietly.
    let mut wait = DecisionWait::new("abc123", 1);
    let batch: Vec<ReplyEvent> = Vec::new();
    assert_eq!(wait.step(&batch), Some(Decision::Deny));
    assert_eq!(wait.ticks_left, 0);
}

#[test]
fn test_malformed_replies_are_ignored() {
    let texts = vec![
        "APPROVE abc123".to_string(),
        "allow:unknown_shape".to_string(),
        String::new(),
    ];
    let replies = extract_text_replies(&texts);
    assert!(replies.is_empty());

    let mut wait = DecisionWait::new("abc123", 5);
    assert_eq!(wait.step(&replies), None); // not resolved, no crash
}

#[test]
fn test_case_of_request_id_must_match() {
    let texts = vec!["allow ABC123".to_string()];
    let replies = extract_text_replies(&texts);
    assert_eq!(replies.len(), 1);

    let mut wait = DecisionWait::new("abc123", 5);
    assert_eq!(wait.step(&replies), None); // the id differs in case
}

#[test]
fn test_cursor_advances_over_every_update() {
    let updates = vec![
        UpdateEvent { update_id: 7, payload: None },
        UpdateEvent {
            update_id: 8,
            payload: Some(CallbackPayload {
                chat_id: 1,
                message_id: 2,
                data: "other:reply".to_string(),
            }),
        },
    ];
    assert_eq!(advance_offset(&updates, None), Some(9));
    let empty: Vec<UpdateEvent> = Vec::new();
    assert_eq!(advance_offset(&empty, Some(9)), Some(9));
}

#[test]
fn test_end_to_end_prompt_allowed() {
    // An inbound event for a tool not on the allow-list: the flow
    // prompts, the stub presses the allow button, and the reported
    // decision is "allow".
    let input = HookInput::from_json_str(
        "{\"tool_name\": \"Bash\", \"tool_input\": {\"command\": \"ls -la\"}}",
    )
    .unwrap();
    let request = PermissionRequest::from_hook_input(input);
    let mut allow_list = AlwaysAllowManager::new();

    assert_eq!(begin_request(&allow_list, &request.tool_name), FlowStep::NeedPrompt);

    let keyboard = create_permission_keyboard(&request.request_id, &request.tool_name);
    let updates = vec![UpdateEvent {
        update_id: 1,
        payload: Some(CallbackPayload {
            chat_id: 7,
            message_id: 42,
            data: keyboard[0][0].data.clone(),
        }),
    }];
    let replies = extract_update_replies(&updates, 7, 42);

    let mut wait = DecisionWait::new(&request.request_id, 10);
    let outcome = wait.step(&replies);
    assert_eq!(outcome, Some(Decision::Allow));

    let decision = finish_request(&mut allow_list, &request.tool_name, outcome);
    let response = create_hook_response(decision);
    assert_eq!(response.hook_specific_output.decision.behavior, "allow");
    assert!(!allow_list.is_allowed("Bash")); // a plain allow adds nothing
}

#[test]
fn test_end_to_end_auto_approved() {
    // The same event with "Bash" already on the allow-list: no prompt,
    // only a notice, and the reported decision is "allow".
    let input = HookInput::from_json_str(
        "{\"tool_name\": \"Bash\", \"tool_input\": {\"command\": \"ls -la\"}}",
    )
    .unwrap();
    let request = PermissionRequest::from_hook_input(input);
    let mut allow_list = AlwaysAllowManager::new();
    allow_list.add_tool("Bash").unwrap();

    assert_eq!(begin_request(&allow_list, &request.tool_name), FlowStep::AutoApproved);

    let notice = format_auto_approved_message(&request, "test-host");
    assert!(notice.contains("Auto\\-Approved"));
    assert!(notice.contains("Bash"));

    let response = create_hook_response(Decision::Allow);
    assert_eq!(response.hook_specific_output.decision.behavior, "allow");
}

#[test]
fn test_always_allow_reply_adds_tool() {
    // An always-allow reply resolves to allow and the tool is on the
    // list afterwards.
    let mut allow_list = AlwaysAllowManager::new();
    let updates = vec![UpdateEvent {
        update_id: 3,
        payload: Some(CallbackPayload {
            chat_id: 7,
            message_id: 42,
            data: "abc123:always_allow:Bash".to_string(),
        }),
    }];
    let replies = extract_update_replies(&updates, 7, 42);

    let mut wait = DecisionWait::new("abc123", 10);
    let outcome = wait.step(&replies);
    assert_eq!(outcome, Some(Decision::AlwaysAllow));

    let decision = finish_request(&mut allow_list, "Bash", outcome);
    assert_eq!(decision, Decision::Allow);
    assert!(allow_list.is_allowed("Bash"));
}

#[test]
fn test_updates_for_other_messages_are_skipped() {
    // A press on another chat or another message is not our reply.
    let updates = vec![
        UpdateEvent {
            update_id: 1,
            payload: Some(CallbackPayload {
                chat_id: 99,
                message_id: 42,
                data: "abc123:allow".to_string(),
            }),
        },
        UpdateEvent {
            update_id: 2,
            payload: Some(CallbackPayload {
                chat_id: 7,
                message_id: 41,
                data: "abc123:allow".to_string(),
            }),
        },
    ];
    let replies = extract_update_replies(&updates, 7, 42);
    assert!(replies.is_empty());
}

#[test]
fn test_stop_hook_active_sends_nothing() {
    // A stop event raised by a running stop hook produces zero
    // outbound messages.
    let event = StopEvent::from_input(StopInput {
        session_id: "abc123".to_string(),
        transcript_path: String::new(),
        cwd: "/home/user/project".to_string(),
        stop_hook_active: true,
    });

    let mut sent: Vec<String> = Vec::new();
    if should_notify(&event) {
        sent.push("notice".to_string());
    }
    assert_eq!(sent.len(), 0);
}

//! The permission request flow: allow-list check, application of the
//! operator's decision, and the structured result handed back.
//!
//! A request is created, then either auto-approved from the allow-list
//! or put to the operator; the resolution is always a plain allow or
//! deny. An always-allow reply resolves to allow and puts the tool on
//! the list; a timeout resolves to deny and changes nothing.

use vstd::prelude::*;
use crate::allow_list::AlwaysAllowManager;
use crate::decision::Decision;

verus! {

/// The first step of a request: approved without asking, or in need of
/// a prompt.
#[derive(Debug, Clone, Copy, PartialEq, Eq, Structural)]
pub enum FlowStep {
    AutoApproved,
    NeedPrompt,
}

/// Checks the allow-list: a tool on it is approved without a prompt;
/// any other tool needs one.
pub fn begin_request(allow: &AlwaysAllowManager, tool_name: &str) -> (r: FlowStep)
    ensures
        r is AutoApproved <==> allow.allows(tool_name@),
{
    if allow.is_allowed(tool_name) {
        FlowStep::AutoApproved
    } else {
        FlowStep::NeedPrompt
    }
}

/// The resolution of a prompt outcome: a missing reply (timeout) and an
/// explicit denial resolve to deny; everything else resolves to allow.
pub open spec fn resolved_decision(outcome: Option<Decision>) -> Decision {
    match outcome {
        Option::None => Decision::Deny,
        Option::Some(Decision::Deny) => Decision::Deny,
        Option::Some(_) => Decision::Allow,
    }
}

/// Applies the prompt's outcome: collapses it to allow or deny, and on
/// an always-allow reply puts the tool on the list — best-effort, the
/// resolution stands either way. `None` stands for a wait that ended
/// without a reply.
pub fn finish_request(
    allow: &mut AlwaysAllowManager,
    tool_name: &str,
    outcome: Option<Decision>,
) -> (r: Decision)
    requires
        old(allow).wf(),
    ensures
        final(allow).wf(),
        r == resolved_decision(outcome),
        outcome == Option::Some(Decision::AlwaysAllow) ==> AlwaysAllowManager::add_rel(
            *old(allow),
            *final(allow),
            tool_name@,
        ) && final(allow).allows(tool_name@),
        outcome != Option::Some(Decision::AlwaysAllow) ==> *final(allow) == *old(allow),
{
    match outcome {
        None => Decision::Deny,
        Some(Decision::Deny) => Decision::Deny,
        Some(Decision::Allow) => Decision::Allow,
        Some(Decision::AlwaysAllow) => {
            let _ = allow.add_tool(tool_name);
            Decision::Allow
        },
    }
}

/// The decision reported outward.
#[derive(Debug, Clone)]
pub struct DecisionOutput {
    pub behavior: String,
}

/// The event-specific part of the structured result.
#[derive(Debug, Clone)]
pub struct HookSpecificOutput {
    pub hook_event_name: String,
    pub decision: DecisionOutput,
}

/// The structured result handed back to the invoking tool.
#[derive(Debug, Clone)]
pub struct HookOutput {
    pub hook_specific_output: HookSpecificOutput,
}

/// Builds the structured result: the event name, and the decision
/// collapsed to its behavior string — always `"allow"` or `"deny"`,
/// never a third value.
pub fn create_hook_response(decision: Decision) -> (r: HookOutput)
    ensures
        r.hook_specific_output.hook_event_name@ == "PermissionRequest"@,
        r.hook_specific_output.decision.behavior@ == decision.behavior_spec(),
{
    HookOutput {
        hook_specific_output: HookSpecificOutput {
            hook_event_name: String::from_str("PermissionRequest"),
            decision: DecisionOutput { behavior: decision.to_behavior().to_owned() },
        },
    }
}

} // verus!

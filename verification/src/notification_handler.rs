//! Generic notification events: a type tag, a free-text message, and
//! the notice rendered from them.

use vstd::prelude::*;
use crate::split::{split_spec, split_str};
use crate::text::take_n_spec;

verus! {

/// An inbound notification event as the external tool reports it.
#[derive(Debug, Clone)]
pub struct NotificationInput {
    pub notification_type: String,
    pub message: String,
    pub session_id: String,
    pub cwd: String,
}

/// The icon for a notification type.
pub open spec fn notification_icon(t: Seq<char>) -> Seq<char> {
    if t == "permission_prompt"@ {
        "\u{1F510}"@
    } else if t == "idle_prompt"@ {
        "\u{1F4A4}"@
    } else {
        "\u{1F4E2}"@
    }
}

/// The label for a notification type.
pub open spec fn notification_label(t: Seq<char>) -> Seq<char> {
    if t == "permission_prompt"@ {
        "Permission Required"@
    } else if t == "idle_prompt"@ {
        "Idle - Waiting for Input"@
    } else {
        "Notification"@
    }
}

/// The notice text: icon and label for the type, the host, the last
/// path segment of the working directory as the project when one is
/// given, and the message cut to length with a trailing ellipsis when
/// longer.
pub open spec fn notification_spec(n: NotificationInput, host: Seq<char>) -> Seq<char> {
    notification_icon(n.notification_type@) + " **"@ + notification_label(n.notification_type@)
        + "**"@ + "\n\u{1F5A5}\u{FE0F} **Host:** "@ + host + (if n.cwd@.len() > 0 {
        "\n\u{1F4C1} **Project:** "@ + split_spec(n.cwd@, '/').last()
    } else {
        Seq::empty()
    }) + (if n.message@.len() > 0 {
        "\n\n"@ + (if n.message@.len() > 500 {
            take_n_spec(n.message@, 500) + "..."@
        } else {
            n.message@
        })
    } else {
        Seq::empty()
    })
}

/// Renders a notification as a notice for the operator.
pub fn format_notification(input: &NotificationInput, hostname: &str) -> (r: String)
    ensures
        r@ == notification_spec(*input, hostname@),
{
    let mut out = String::new();
    if crate::text::str_eq(input.notification_type.as_str(), "permission_prompt") {
        out.append("\u{1F510}");
        out.append(" **");
        out.append("Permission Required");
    } else if crate::text::str_eq(input.notification_type.as_str(), "idle_prompt") {
        out.append("\u{1F4A4}");
        out.append(" **");
        out.append("Idle - Waiting for Input");
    } else {
        out.append("\u{1F4E2}");
        out.append(" **");
        out.append("Notification");
    }
    out.append("**");
    out.append("\n\u{1F5A5}\u{FE0F} **Host:** ");
    out.append(hostname);
    if !input.cwd.as_str().is_empty() {
        out.append("\n\u{1F4C1} **Project:** ");
        let parts = split_str(input.cwd.as_str(), '/');
        let last = &parts[parts.len() - 1];
        proof {
            assert(parts.deep_view()[parts@.len() - 1] == parts@[parts@.len() - 1]@);
            assert(split_spec(input.cwd@, '/').last() == parts.deep_view().last());
        }
        out.append(last.as_str());
    }
    if !input.message.as_str().is_empty() {
        out.append("\n\n");
        let mlen = input.message.as_str().unicode_len();
        if mlen > 500 {
            let cut = crate::text::take_chars(input.message.as_str(), 500);
            out.append(cut.as_str());
            out.append("...");
        } else {
            out.append(input.message.as_str());
        }
    }
    out
}

} // verus!

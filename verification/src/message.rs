//! Permission requests and the message text shown to the operator.
//!
//! A request carries the tool name, the fields of the tool's input that
//! the messages show, and a short fresh request id. Two renderings are
//! provided: chat markup with escaping (for backends with buttons) and
//! plain text with reply instructions (for backends that take text
//! commands).

use vstd::prelude::*;
use crate::decision::Decision;
use crate::text::{escape_markdown, escape_spec, str_eq, take_chars, take_n_spec};

verus! {

/// What the messages show of a tool's input document: the command, the
/// file path, the old and new text where present, and the whole
/// document pretty-printed as the fallback.
#[derive(Debug, Clone)]
pub struct ToolInput {
    pub command: Option<String>,
    pub file_path: Option<String>,
    pub old_string: Option<String>,
    pub new_string: Option<String>,
    pub raw_pretty: String,
}

/// An inbound permission-request event: the tool and its input.
#[derive(Debug, Clone)]
pub struct HookInput {
    pub tool_name: String,
    pub tool_input: ToolInput,
}

impl ToolInput {
    /// The fields as mathematical values, in declaration order.
    pub open spec fn model(&self) -> (
        Option<Seq<char>>,
        Option<Seq<char>>,
        Option<Seq<char>>,
        Option<Seq<char>>,
        Seq<char>,
    ) {
        (
            match self.command {
                Option::Some(c) => Option::Some(c@),
                Option::None => Option::None,
            },
            match self.file_path {
                Option::Some(p) => Option::Some(p@),
                Option::None => Option::None,
            },
            match self.old_string {
                Option::Some(o) => Option::Some(o@),
                Option::None => Option::None,
            },
            match self.new_string {
                Option::Some(nw) => Option::Some(nw@),
                Option::None => Option::None,
            },
            self.raw_pretty@,
        )
    }
}

/// What a permission-request document reads as: the tool name (the
/// given fallback where the member is absent) and the shown fields of
/// the tool input; nothing, where the document is not such an event.
pub uninterp spec fn hook_doc_of(s: Seq<char>, missing_tool: Seq<char>) -> Option<
    (Seq<char>, (Option<Seq<char>>, Option<Seq<char>>, Option<Seq<char>>, Option<Seq<char>>, Seq<
        char,
    >)),
>;

/// Relies on serde_json `from_str`, `Value::get`, `as_str` and
/// `to_string_pretty`: reads an event document into its tool name and
/// shown input fields. The result depends on the document text and the
/// fallback name alone.
#[verifier::external_body]
fn read_hook_document(s: &str, missing_tool: &str) -> (r: Option<HookInput>)
    ensures
        match r {
            Option::Some(h) => hook_doc_of(s@, missing_tool@) == Option::Some(
                (h.tool_name@, h.tool_input.model()),
            ),
            Option::None => hook_doc_of(s@, missing_tool@) is None,
        },
{
    let v: serde_json::Value = serde_json::from_str(s).ok()?;
    if !v.is_object() {
        return None;
    }
    let tool_name = match v.get("tool_name") {
        None => missing_tool.to_owned(),
        Some(x) => x.as_str()?.to_owned(),
    };
    let ti = v.get("tool_input").cloned().unwrap_or(serde_json::Value::Null);
    let text = |k: &str| ti.get(k).and_then(|x| x.as_str()).map(str::to_owned);
    let (command, file_path) = (text("command"), text("file_path"));
    let (old_string, new_string) = (text("old_string"), text("new_string"));
    let raw_pretty = serde_json::to_string_pretty(&ti).unwrap_or_default();
    Some(HookInput { tool_name, tool_input: ToolInput { command, file_path, old_string, new_string, raw_pretty } })
}

impl HookInput {
    /// Reads an inbound event document: an object with an optional
    /// tool name (a missing one reads as `unknown`) and an optional
    /// tool input. Anything else is no event. The result is pinned to
    /// the document: it is exactly what `hook_doc_of` says of the text.
    pub fn from_json_str(s: &str) -> (r: Option<HookInput>)
        ensures
            match r {
                Option::Some(h) => hook_doc_of(s@, "unknown"@) == Option::Some(
                    (h.tool_name@, h.tool_input.model()),
                ),
                Option::None => hook_doc_of(s@, "unknown"@) is None,
            },
    {
        read_hook_document(s, "unknown")
    }
}

/// A permission request in flight: the event's fields and a fresh
/// request id that correlates the prompt with its reply.
#[derive(Debug, Clone)]
pub struct PermissionRequest {
    pub tool_name: String,
    pub tool_input: ToolInput,
    pub request_id: String,
}

/// A character of a rendered identifier: a decimal digit, a lowercase
/// hex letter, or a hyphen. No such character is a colon or
/// whitespace, which is what lets an id survive the reply encodings.
pub open spec fn is_uuid_char(c: char) -> bool {
    ||| 48 <= c as u32 <= 57
    ||| 97 <= c as u32 <= 102
    ||| c == '-'
}

/// Relies on `uuid::Uuid::new_v4` and its `Display` form: a fresh
/// random identifier rendered as 36 characters, each a lowercase hex
/// digit or a hyphen.
#[verifier::external_body]
fn fresh_uuid_string() -> (r: String)
    ensures
        r@.len() == 36,
        forall|j: int| 0 <= j < r@.len() ==> is_uuid_char(r@[j]),
{
    uuid::Uuid::new_v4().to_string()
}

impl PermissionRequest {
    /// Creates a request from an inbound event, with a fresh request id
    /// of eight characters. Two calls yield ids independently, so
    /// concurrent requests are told apart by their ids; and no id
    /// character is a separator of any reply encoding, so an id always
    /// comes back from the round trip unharmed.
    pub fn from_hook_input(input: HookInput) -> (r: Self)
        ensures
            r.tool_name@ == input.tool_name@,
            r.tool_input == input.tool_input,
            r.request_id@.len() == 8,
            forall|j: int|
                0 <= j < r.request_id@.len() ==> r.request_id@[j] != ':' && !crate::split::is_space(
                    r.request_id@[j],
                ),
    {
        let raw = fresh_uuid_string();
        let id = take_chars(raw.as_str(), 8);
        proof {
            assert forall|j: int| 0 <= j < id@.len() implies id@[j] != ':' && !crate::split::is_space(
                id@[j],
            ) by {
                assert(id@[j] == raw@[j]);
                assert(is_uuid_char(raw@[j]));
                let c = raw@[j];
                if c == ':' {
                    assert(c as u32 == 58);
                }
                if c == ' ' {
                    assert(c as u32 == 32);
                }
                if c == '\t' {
                    assert(c as u32 == 9);
                }
                if c == '\n' {
                    assert(c as u32 == 10);
                }
                if c == '\r' {
                    assert(c as u32 == 13);
                }
                assert(('-') as u32 == 45);
            }
        }
        PermissionRequest { tool_name: input.tool_name, tool_input: input.tool_input, request_id: id }
    }

    /// Renders the request as a chat-markup message, with an optional
    /// host line.
    pub fn format_message(&self, hostname: Option<&str>) -> (r: String)
        ensures
            r@ == permission_message_spec(
                self.tool_name@,
                self.tool_input,
                self.request_id@,
                match hostname {
                    Option::Some(h) => Option::Some(h@),
                    Option::None => Option::None,
                },
            ),
    {
        let mut out = String::new();
        out.append("\u{1F510} *Permission Request* `\\[");
        let esc_id = escape_markdown(self.request_id.as_str());
        out.append(esc_id.as_str());
        out.append("\\]`");
        match hostname {
            Some(h) => {
                out.append("\n\u{1F5A5}\u{FE0F} *Host:* `");
                let esc_h = escape_markdown(h);
                out.append(esc_h.as_str());
                out.append("`");
            },
            None => {},
        }
        out.append("\n\n*Tool:* `");
        let esc_tool = escape_markdown(self.tool_name.as_str());
        out.append(esc_tool.as_str());
        out.append("`");
        let detail = markup_detail(self.tool_name.as_str(), &self.tool_input);
        out.append(detail.as_str());
        out
    }
}

/// The markup detail block for a tool's input: the command for a shell
/// tool, the file and the old and new text for an edit, the
/// pretty-printed document otherwise.
pub open spec fn markup_detail_spec(tool: Seq<char>, ti: ToolInput) -> Seq<char> {
    if tool == "Bash"@ {
        match ti.command {
            Option::Some(c) => "\n*Command:*\n```\n"@ + escape_spec(c@) + "\n```"@,
            Option::None => Seq::empty(),
        }
    } else if tool == "Edit"@ || tool == "Write"@ {
        (match ti.file_path {
            Option::Some(p) => "\n*File:* `"@ + escape_spec(p@) + "`"@,
            Option::None => Seq::empty(),
        }) + if tool == "Edit"@ {
            (match ti.old_string {
                Option::Some(o) => "\n*Old:*\n```\n"@ + escape_spec(take_n_spec(o@, 200))
                    + "\n```"@,
                Option::None => Seq::empty(),
            }) + (match ti.new_string {
                Option::Some(nw) => "\n*New:*\n```\n"@ + escape_spec(take_n_spec(nw@, 200))
                    + "\n```"@,
                Option::None => Seq::empty(),
            })
        } else {
            Seq::empty()
        }
    } else {
        "\n*Input:*\n```json\n"@ + escape_spec(take_n_spec(ti.raw_pretty@, 500)) + "\n```"@
    }
}

/// The whole markup message for a permission request.
pub open spec fn permission_message_spec(
    tool: Seq<char>,
    ti: ToolInput,
    id: Seq<char>,
    host: Option<Seq<char>>,
) -> Seq<char> {
    "\u{1F510} *Permission Request* `\\["@ + escape_spec(id) + "\\]`"@ + (match host {
        Option::Some(h) => "\n\u{1F5A5}\u{FE0F} *Host:* `"@ + escape_spec(h) + "`"@,
        Option::None => Seq::empty(),
    }) + "\n\n*Tool:* `"@ + escape_spec(tool) + "`"@ + markup_detail_spec(tool, ti)
}

fn markup_detail(tool: &str, ti: &ToolInput) -> (r: String)
    ensures
        r@ == markup_detail_spec(tool@, *ti),
{
    let mut out = String::new();
    if str_eq(tool, "Bash") {
        match &ti.command {
            Some(c) => {
                out.append("\n*Command:*\n```\n");
                let esc = escape_markdown(c.as_str());
                out.append(esc.as_str());
                out.append("\n```");
            },
            None => {},
        }
    } else if str_eq(tool, "Edit") || str_eq(tool, "Write") {
        match &ti.file_path {
            Some(p) => {
                out.append("\n*File:* `");
                let esc = escape_markdown(p.as_str());
                out.append(esc.as_str());
                out.append("`");
            },
            None => {},
        }
        if str_eq(tool, "Edit") {
            match &ti.old_string {
                Some(o) => {
                    out.append("\n*Old:*\n```\n");
                    let cut = take_chars(o.as_str(), 200);
                    let esc = escape_markdown(cut.as_str());
                    out.append(esc.as_str());
                    out.append("\n```");
                },
                None => {},
            }
            match &ti.new_string {
                Some(nw) => {
                    out.append("\n*New:*\n```\n");
                    let cut = take_chars(nw.as_str(), 200);
                    let esc = escape_markdown(cut.as_str());
                    out.append(esc.as_str());
                    out.append("\n```");
                },
                None => {},
            }
        }
    } else {
        out.append("\n*Input:*\n```json\n");
        let cut = take_chars(ti.raw_pretty.as_str(), 500);
        let esc = escape_markdown(cut.as_str());
        out.append(esc.as_str());
        out.append("\n```");
    }
    out
}

/// The markup notice for a request approved from the allow-list: no
/// buttons, the tool marked as listed, and the same detail block
/// without the old and new text.
pub open spec fn auto_approved_message_spec(
    tool: Seq<char>,
    ti: ToolInput,
    id: Seq<char>,
    host: Seq<char>,
) -> Seq<char> {
    "\u{2699}\u{FE0F} *Auto\\-Approved* `\\["@ + escape_spec(id) + "\\]`"@ + "\n\u{1F5A5}\u{FE0F} *Host:* `"@
        + escape_spec(host) + "`"@ + "\n\n*Tool:* `"@ + escape_spec(tool)
        + "` _\\(in always\\-allow list\\)_"@ + auto_detail_spec(tool, ti)
}

/// The detail block of the auto-approved notice.
pub open spec fn auto_detail_spec(tool: Seq<char>, ti: ToolInput) -> Seq<char> {
    if tool == "Bash"@ {
        match ti.command {
            Option::Some(c) => "\n*Command:*\n```\n"@ + escape_spec(c@) + "\n```"@,
            Option::None => Seq::empty(),
        }
    } else if tool == "Edit"@ || tool == "Write"@ {
        match ti.file_path {
            Option::Some(p) => "\n*File:* `"@ + escape_spec(p@) + "`"@,
            Option::None => Seq::empty(),
        }
    } else {
        "\n*Input:*\n```json\n"@ + escape_spec(take_n_spec(ti.raw_pretty@, 500)) + "\n```"@
    }
}

/// Renders the auto-approved notice for a request.
pub fn format_auto_approved_message(req: &PermissionRequest, hostname: &str) -> (r: String)
    ensures
        r@ == auto_approved_message_spec(
            req.tool_name@,
            req.tool_input,
            req.request_id@,
            hostname@,
        ),
{
    let mut out = String::new();
    out.append("\u{2699}\u{FE0F} *Auto\\-Approved* `\\[");
    let esc_id = escape_markdown(req.request_id.as_str());
    out.append(esc_id.as_str());
    out.append("\\]`");
    out.append("\n\u{1F5A5}\u{FE0F} *Host:* `");
    let esc_h = escape_markdown(hostname);
    out.append(esc_h.as_str());
    out.append("`");
    out.append("\n\n*Tool:* `");
    let esc_tool = escape_markdown(req.tool_name.as_str());
    out.append(esc_tool.as_str());
    out.append("` _\\(in always\\-allow list\\)_");
    if str_eq(req.tool_name.as_str(), "Bash") {
        match &req.tool_input.command {
            Some(c) => {
                out.append("\n*Command:*\n```\n");
                let esc = escape_markdown(c.as_str());
                out.append(esc.as_str());
                out.append("\n```");
            },
            None => {},
        }
    } else if str_eq(req.tool_name.as_str(), "Edit") || str_eq(req.tool_name.as_str(), "Write") {
        match &req.tool_input.file_path {
            Some(p) => {
                out.append("\n*File:* `");
                let esc = escape_markdown(p.as_str());
                out.append(esc.as_str());
                out.append("`");
            },
            None => {},
        }
    } else {
        out.append("\n*Input:*\n```json\n");
        let cut = take_chars(req.tool_input.raw_pretty.as_str(), 500);
        let esc = escape_markdown(cut.as_str());
        out.append(esc.as_str());
        out.append("\n```");
    }
    out
}

/// A permission request addressed to a backend: the request fields and
/// the host they came from.
#[derive(Debug, Clone)]
pub struct PermissionMessage {
    pub request_id: String,
    pub tool_name: String,
    pub hostname: String,
    pub tool_input: ToolInput,
}

impl PermissionMessage {
    /// Bundles the fields of a permission message.
    pub fn new(request_id: String, tool_name: String, hostname: String, tool_input: ToolInput) -> (r:
        Self)
        ensures
            r.request_id@ == request_id@,
            r.tool_name@ == tool_name@,
            r.hostname@ == hostname@,
            r.tool_input == tool_input,
    {
        PermissionMessage { request_id, tool_name, hostname, tool_input }
    }
}

/// The plain-text detail block: as the markup one, but unescaped and
/// with the command cut to length.
pub open spec fn plain_detail_spec(tool: Seq<char>, ti: ToolInput) -> Seq<char> {
    if tool == "Bash"@ {
        match ti.command {
            Option::Some(c) => "\nCommand:\n"@ + take_n_spec(c@, 500),
            Option::None => Seq::empty(),
        }
    } else if tool == "Edit"@ || tool == "Write"@ {
        (match ti.file_path {
            Option::Some(p) => "\nFile: "@ + p@,
            Option::None => Seq::empty(),
        }) + if tool == "Edit"@ {
            (match ti.old_string {
                Option::Some(o) => "\nOld:\n"@ + take_n_spec(o@, 200),
                Option::None => Seq::empty(),
            }) + (match ti.new_string {
                Option::Some(nw) => "\nNew:\n"@ + take_n_spec(nw@, 200),
                Option::None => Seq::empty(),
            })
        } else {
            Seq::empty()
        }
    } else {
        "\nInput:\n"@ + take_n_spec(ti.raw_pretty@, 500)
    }
}

/// The whole plain-text prompt, closing with the three reply commands
/// that carry the request id back.
pub open spec fn permission_text_spec(m: PermissionMessage) -> Seq<char> {
    "\u{1F510} Permission Request ["@ + m.request_id@ + "]"@ + "\n\u{1F5A5}\u{FE0F} Host: "@
        + m.hostname@ + "\n\nTool: "@ + m.tool_name@ + plain_detail_spec(m.tool_name@, m.tool_input)
        + "\n\nReply with:\n\u{2022} ALLOW "@ + m.request_id@ + "\n\u{2022} DENY "@ + m.request_id@
        + "\n\u{2022} ALWAYS "@ + m.request_id@
}

fn plain_detail(tool: &str, ti: &ToolInput) -> (r: String)
    ensures
        r@ == plain_detail_spec(tool@, *ti),
{
    let mut out = String::new();
    if str_eq(tool, "Bash") {
        match &ti.command {
            Some(c) => {
                out.append("\nCommand:\n");
                let cut = take_chars(c.as_str(), 500);
                out.append(cut.as_str());
            },
            None => {},
        }
    } else if str_eq(tool, "Edit") || str_eq(tool, "Write") {
        match &ti.file_path {
            Some(p) => {
                out.append("\nFile: ");
                out.append(p.as_str());
            },
            None => {},
        }
        if str_eq(tool, "Edit") {
            match &ti.old_string {
                Some(o) => {
                    out.append("\nOld:\n");
                    let cut = take_chars(o.as_str(), 200);
                    out.append(cut.as_str());
                },
                None => {},
            }
            match &ti.new_string {
                Some(nw) => {
                    out.append("\nNew:\n");
                    let cut = take_chars(nw.as_str(), 200);
                    out.append(cut.as_str());
                },
                None => {},
            }
        }
    } else {
        out.append("\nInput:\n");
        let cut = take_chars(ti.raw_pretty.as_str(), 500);
        out.append(cut.as_str());
    }
    out
}

/// Renders the plain-text prompt for a backend that takes text
/// replies.
pub fn format_permission_text(m: &PermissionMessage) -> (r: String)
    ensures
        r@ == permission_text_spec(*m),
{
    let mut out = String::new();
    out.append("\u{1F510} Permission Request [");
    out.append(m.request_id.as_str());
    out.append("]");
    out.append("\n\u{1F5A5}\u{FE0F} Host: ");
    out.append(m.hostname.as_str());
    out.append("\n\nTool: ");
    out.append(m.tool_name.as_str());
    let detail = plain_detail(m.tool_name.as_str(), &m.tool_input);
    out.append(detail.as_str());
    out.append("\n\nReply with:\n\u{2022} ALLOW ");
    out.append(m.request_id.as_str());
    out.append("\n\u{2022} DENY ");
    out.append(m.request_id.as_str());
    out.append("\n\u{2022} ALWAYS ");
    out.append(m.request_id.as_str());
    out
}

/// The plain-text notice for a request approved from the allow-list.
pub open spec fn auto_approved_text_spec(m: PermissionMessage) -> Seq<char> {
    "\u{2699}\u{FE0F} Auto-Approved ["@ + m.request_id@ + "]"@ + "\n\u{1F5A5}\u{FE0F} Host: "@
        + m.hostname@ + "\n\nTool: "@ + m.tool_name@ + " (in always-allow list)"@
        + plain_auto_detail_spec(m.tool_name@, m.tool_input)
}

/// The detail block of the plain auto-approved notice.
pub open spec fn plain_auto_detail_spec(tool: Seq<char>, ti: ToolInput) -> Seq<char> {
    if tool == "Bash"@ {
        match ti.command {
            Option::Some(c) => "\nCommand:\n"@ + take_n_spec(c@, 500),
            Option::None => Seq::empty(),
        }
    } else if tool == "Edit"@ || tool == "Write"@ {
        match ti.file_path {
            Option::Some(p) => "\nFile: "@ + p@,
            Option::None => Seq::empty(),
        }
    } else {
        "\nInput:\n"@ + take_n_spec(ti.raw_pretty@, 500)
    }
}

/// Renders the plain auto-approved notice.
pub fn format_auto_approved_text(m: &PermissionMessage) -> (r: String)
    ensures
        r@ == auto_approved_text_spec(*m),
{
    let mut out = String::new();
    out.append("\u{2699}\u{FE0F} Auto-Approved [");
    out.append(m.request_id.as_str());
    out.append("]");
    out.append("\n\u{1F5A5}\u{FE0F} Host: ");
    out.append(m.hostname.as_str());
    out.append("\n\nTool: ");
    out.append(m.tool_name.as_str());
    out.append(" (in always-allow list)");
    if str_eq(m.tool_name.as_str(), "Bash") {
        match &m.tool_input.command {
            Some(c) => {
                out.append("\nCommand:\n");
                let cut = take_chars(c.as_str(), 500);
                out.append(cut.as_str());
            },
            None => {},
        }
    } else if str_eq(m.tool_name.as_str(), "Edit") || str_eq(m.tool_name.as_str(), "Write") {
        match &m.tool_input.file_path {
            Some(p) => {
                out.append("\nFile: ");
                out.append(p.as_str());
            },
            None => {},
        }
    } else {
        out.append("\nInput:\n");
        let cut = take_chars(m.tool_input.raw_pretty.as_str(), 500);
        out.append(cut.as_str());
    }
    out
}

/// The bold-markup detail block of the direct-message backend: as the
/// escaped one, but unescaped, with the command cut to length.
pub open spec fn discord_detail_spec(tool: Seq<char>, ti: ToolInput) -> Seq<char> {
    if tool == "Bash"@ {
        match ti.command {
            Option::Some(c) => "\n**Command:**\n```\n"@ + take_n_spec(c@, 500) + "\n```"@,
            Option::None => Seq::empty(),
        }
    } else if tool == "Edit"@ || tool == "Write"@ {
        (match ti.file_path {
            Option::Some(p) => "\n**File:** `"@ + p@ + "`"@,
            Option::None => Seq::empty(),
        }) + if tool == "Edit"@ {
            (match ti.old_string {
                Option::Some(o) => "\n**Old:**\n```\n"@ + take_n_spec(o@, 200) + "\n```"@,
                Option::None => Seq::empty(),
            }) + (match ti.new_string {
                Option::Some(nw) => "\n**New:**\n```\n"@ + take_n_spec(nw@, 200) + "\n```"@,
                Option::None => Seq::empty(),
            })
        } else {
            Seq::empty()
        }
    } else {
        "\n**Input:**\n```json\n"@ + take_n_spec(ti.raw_pretty@, 500) + "\n```"@
    }
}

/// The whole bold-markup prompt for the direct-message backend.
pub open spec fn discord_permission_spec(m: PermissionMessage) -> Seq<char> {
    "\u{1F510} **Permission Request** ["@ + m.request_id@ + "]"@ + "\n\u{1F5A5}\u{FE0F} **Host:** "@
        + m.hostname@ + "\n\n**Tool:** "@ + m.tool_name@ + discord_detail_spec(
        m.tool_name@,
        m.tool_input,
    )
}

fn discord_detail(tool: &str, ti: &ToolInput) -> (r: String)
    ensures
        r@ == discord_detail_spec(tool@, *ti),
{
    let mut out = String::new();
    if str_eq(tool, "Bash") {
        match &ti.command {
            Some(c) => {
                out.append("\n**Command:**\n```\n");
                let cut = take_chars(c.as_str(), 500);
                out.append(cut.as_str());
                out.append("\n```");
            },
            None => {},
        }
    } else if str_eq(tool, "Edit") || str_eq(tool, "Write") {
        match &ti.file_path {
            Some(p) => {
                out.append("\n**File:** `");
                out.append(p.as_str());
                out.append("`");
            },
            None => {},
        }
        if str_eq(tool, "Edit") {
            match &ti.old_string {
                Some(o) => {
                    out.append("\n**Old:**\n```\n");
                    let cut = take_chars(o.as_str(), 200);
                    out.append(cut.as_str());
                    out.append("\n```");
                },
                None => {},
            }
            match &ti.new_string {
                Some(nw) => {
                    out.append("\n**New:**\n```\n");
                    let cut = take_chars(nw.as_str(), 200);
                    out.append(cut.as_str());
                    out.append("\n```");
                },
                None => {},
            }
        }
    } else {
        out.append("\n**Input:**\n```json\n");
        let cut = take_chars(ti.raw_pretty.as_str(), 500);
        out.append(cut.as_str());
        out.append("\n```");
    }
    out
}

/// Renders the prompt in the direct-message backend's bold markup.
pub fn format_discord_permission_message(m: &PermissionMessage) -> (r: String)
    ensures
        r@ == discord_permission_spec(*m),
{
    let mut out = String::new();
    out.append("\u{1F510} **Permission Request** [");
    out.append(m.request_id.as_str());
    out.append("]");
    out.append("\n\u{1F5A5}\u{FE0F} **Host:** ");
    out.append(m.hostname.as_str());
    out.append("\n\n**Tool:** ");
    out.append(m.tool_name.as_str());
    let detail = discord_detail(m.tool_name.as_str(), &m.tool_input);
    out.append(detail.as_str());
    out
}

/// The bold-markup notice for a request approved from the allow-list.
pub open spec fn discord_auto_approved_spec(m: PermissionMessage) -> Seq<char> {
    "\u{2699}\u{FE0F} **Auto-Approved** ["@ + m.request_id@ + "]"@ + "\n\u{1F5A5}\u{FE0F} **Host:** "@
        + m.hostname@ + "\n\n**Tool:** "@ + m.tool_name@ + " *(in always-allow list)*"@
        + discord_auto_detail_spec(m.tool_name@, m.tool_input)
}

/// The detail block of the bold-markup auto-approved notice.
pub open spec fn discord_auto_detail_spec(tool: Seq<char>, ti: ToolInput) -> Seq<char> {
    if tool == "Bash"@ {
        match ti.command {
            Option::Some(c) => "\n**Command:**\n```\n"@ + take_n_spec(c@, 500) + "\n```"@,
            Option::None => Seq::empty(),
        }
    } else if tool == "Edit"@ || tool == "Write"@ {
        match ti.file_path {
            Option::Some(p) => "\n**File:** `"@ + p@ + "`"@,
            Option::None => Seq::empty(),
        }
    } else {
        "\n**Input:**\n```json\n"@ + take_n_spec(ti.raw_pretty@, 500) + "\n```"@
    }
}

/// Renders the auto-approved notice in the direct-message backend's
/// bold markup.
pub fn format_discord_auto_approved_message(m: &PermissionMessage) -> (r: String)
    ensures
        r@ == discord_auto_approved_spec(*m),
{
    let mut out = String::new();
    out.append("\u{2699}\u{FE0F} **Auto-Approved** [");
    out.append(m.request_id.as_str());
    out.append("]");
    out.append("\n\u{1F5A5}\u{FE0F} **Host:** ");
    out.append(m.hostname.as_str());
    out.append("\n\n**Tool:** ");
    out.append(m.tool_name.as_str());
    out.append(" *(in always-allow list)*");
    if str_eq(m.tool_name.as_str(), "Bash") {
        match &m.tool_input.command {
            Some(c) => {
                out.append("\n**Command:**\n```\n");
                let cut = take_chars(c.as_str(), 500);
                out.append(cut.as_str());
                out.append("\n```");
            },
            None => {},
        }
    } else if str_eq(m.tool_name.as_str(), "Edit") || str_eq(m.tool_name.as_str(), "Write") {
        match &m.tool_input.file_path {
            Some(p) => {
                out.append("\n**File:** `");
                out.append(p.as_str());
                out.append("`");
            },
            None => {},
        }
    } else {
        out.append("\n**Input:**\n```json\n");
        let cut = take_chars(m.tool_input.raw_pretty.as_str(), 500);
        out.append(cut.as_str());
        out.append("\n```");
    }
    out
}

/// The plain status line sent after a text-reply prompt resolves.
pub open spec fn plain_status_spec(decision: Decision) -> Seq<char> {
    match decision {
        Decision::Allow => "\u{2705} Approved"@,
        Decision::Deny => "\u{274C} Denied"@,
        Decision::AlwaysAllow => "\u{1F513} Always Allowed"@,
    }
}

/// The plain follow-up line naming the request and its outcome.
pub fn request_status_line(request_id: &str, decision: Decision) -> (r: String)
    ensures
        r@ == "Request ["@ + request_id@ + "]: "@ + plain_status_spec(decision),
{
    let mut out = String::new();
    out.append("Request [");
    out.append(request_id);
    out.append("]: ");
    match decision {
        Decision::Allow => out.append("\u{2705} Approved"),
        Decision::Deny => out.append("\u{274C} Denied"),
        Decision::AlwaysAllow => out.append("\u{1F513} Always Allowed"),
    }
    out
}

/// The status line a resolved prompt is edited to show.
pub open spec fn status_text_spec(decision: Decision, tool: Seq<char>) -> Seq<char> {
    match decision {
        Decision::Allow => "\u{2705} Approved"@,
        Decision::Deny => "\u{274C} Denied"@,
        Decision::AlwaysAllow => "\u{1F513} Always Allowed \\(`"@ + escape_spec(tool)
            + "` added to list\\)"@,
    }
}

/// The status line for a decision; an always-allow names the tool that
/// was put on the list.
pub fn status_text(decision: Decision, tool_name: &str) -> (r: String)
    ensures
        r@ == status_text_spec(decision, tool_name@),
{
    match decision {
        Decision::Allow => String::from_str("\u{2705} Approved"),
        Decision::Deny => String::from_str("\u{274C} Denied"),
        Decision::AlwaysAllow => {
            let mut out = String::new();
            out.append("\u{1F513} Always Allowed \\(`");
            let esc = escape_markdown(tool_name);
            out.append(esc.as_str());
            out.append("` added to list\\)");
            out
        },
    }
}

/// A prompt message edited to show its final status. The edit happens
/// only after the decision or the timeout is determined; the text is
/// the original prompt with the status line below it.
pub fn resolved_message_text(original: &str, status: &str) -> (r: String)
    ensures
        r@ == original@ + "\n\n*Status:* "@ + status@,
{
    let mut out = String::new();
    out.append(original);
    out.append("\n\n*Status:* ");
    out.append(status);
    out
}

/// A prompt message edited to show that the wait timed out and the
/// request was denied.
pub fn timeout_message_text(original: &str) -> (r: String)
    ensures
        r@ == original@ + "\n\n*Status:* \u{23F1}\u{FE0F} Timeout \\- Denied"@,
{
    let mut out = String::new();
    out.append(original);
    out.append("\n\n*Status:* \u{23F1}\u{FE0F} Timeout \\- Denied");
    out
}

} // verus!

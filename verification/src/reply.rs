//! Encoding and parsing of operator replies.
//!
//! Each backend carries the request id and the decision through its own
//! reply convention: a button payload `{request_id}:{decision}` (with an
//! optional tool name), a button payload `{decision}:{request_id}`, or a
//! free-text command `ALLOW {request_id}`. A reply that fits no
//! convention parses to nothing and is ignored by the wait loop, never
//! an error.

use vstd::prelude::*;
use crate::decision::Decision;
use crate::split::{find_first, lemma_find_first_is, split_spec, split_str, tokens_spec, split_tokens};
use crate::text::{matches_ci, str_eq, str_matches_ci};

verus! {

/// A parsed button payload: which request it answers, the decision, and
/// for an always-allow press the tool to put on the list.
#[derive(Debug, Clone)]
pub struct CallbackData {
    pub request_id: String,
    pub decision: Decision,
    pub tool_name: Option<String>,
}

impl CallbackData {
    /// The fields as mathematical values.
    pub open spec fn model(&self) -> (Seq<char>, Decision, Option<Seq<char>>) {
        (
            self.request_id@,
            self.decision,
            match self.tool_name {
                Option::Some(t) => Option::Some(t@),
                Option::None => Option::None,
            },
        )
    }
}

/// The decision keyword of a button payload, matched exactly.
pub open spec fn payload_decision(t: Seq<char>) -> Option<Decision> {
    if t == "allow"@ {
        Option::Some(Decision::Allow)
    } else if t == "deny"@ {
        Option::Some(Decision::Deny)
    } else if t == "always_allow"@ {
        Option::Some(Decision::AlwaysAllow)
    } else {
        Option::None
    }
}

/// What `parse_callback_data` yields: the payload split at `:` must
/// have a request id, a known decision keyword, and optionally a tool
/// name as its third part.
pub open spec fn parse_callback_spec(s: Seq<char>) -> Option<
    (Seq<char>, Decision, Option<Seq<char>>),
> {
    let parts = split_spec(s, ':');
    if parts.len() < 2 {
        Option::None
    } else {
        match payload_decision(parts[1]) {
            Option::None => Option::None,
            Option::Some(d) => Option::Some(
                (
                    parts[0],
                    d,
                    if parts.len() >= 3 {
                        Option::Some(parts[2])
                    } else {
                        Option::None
                    },
                ),
            ),
        }
    }
}

/// Parses a button payload of the form `{request_id}:{decision}` or
/// `{request_id}:{decision}:{tool_name}`. Anything else yields `None`.
pub fn parse_callback_data(data: &str) -> (r: Option<CallbackData>)
    ensures
        match r {
            Option::Some(cd) => parse_callback_spec(data@) == Option::Some(cd.model()),
            Option::None => parse_callback_spec(data@) is None,
        },
{
    let parts = split_str(data, ':');
    if parts.len() < 2 {
        return None;
    }
    let decision = if str_eq(parts[1].as_str(), "allow") {
        Decision::Allow
    } else if str_eq(parts[1].as_str(), "deny") {
        Decision::Deny
    } else if str_eq(parts[1].as_str(), "always_allow") {
        Decision::AlwaysAllow
    } else {
        proof {
            assert(parts.deep_view()[1] == parts@[1]@);
        }
        return None;
    };
    let tool_name = if parts.len() >= 3 {
        Some(parts[2].clone())
    } else {
        None
    };
    let r = CallbackData { request_id: parts[0].clone(), decision, tool_name };
    proof {
        assert(parts.deep_view()[0] == parts@[0]@);
        assert(parts.deep_view()[1] == parts@[1]@);
        if parts@.len() >= 3 {
            assert(parts.deep_view()[2] == parts@[2]@);
        }
    }
    Some(r)
}

/// The decision keyword of the `{decision}:{request_id}` button form.
pub open spec fn button_decision(t: Seq<char>) -> Option<Decision> {
    if t == "allow"@ {
        Option::Some(Decision::Allow)
    } else if t == "deny"@ {
        Option::Some(Decision::Deny)
    } else if t == "always"@ {
        Option::Some(Decision::AlwaysAllow)
    } else {
        Option::None
    }
}

/// What `parse_button_custom_id` yields: the text up to the first `:`
/// must be a known decision keyword; everything after it is the request
/// id, kept verbatim.
pub open spec fn parse_button_spec(s: Seq<char>) -> Option<(Decision, Seq<char>)> {
    let i = find_first(s, ':');
    if i == s.len() {
        Option::None
    } else {
        match button_decision(s.take(i)) {
            Option::None => Option::None,
            Option::Some(d) => Option::Some((d, s.skip(i + 1))),
        }
    }
}

/// Parses a button payload of the form `{decision}:{request_id}`,
/// splitting only at the first `:`. Anything else yields `None`.
pub fn parse_button_custom_id(custom_id: &str) -> (r: Option<(Decision, String)>)
    ensures
        match r {
            Option::Some(p) => parse_button_spec(custom_id@) == Option::Some((p.0, p.1@)),
            Option::None => parse_button_spec(custom_id@) is None,
        },
{
    let len = custom_id.unicode_len();
    let mut i: usize = 0;
    while i < len
        invariant
            0 <= i <= len,
            len == custom_id@.len(),
            forall|j: int| 0 <= j < i ==> custom_id@[j] != ':',
        ensures
            0 <= i <= len,
            len == custom_id@.len(),
            forall|j: int| 0 <= j < i ==> custom_id@[j] != ':',
            i < len ==> custom_id@[i as int] == ':',
        decreases len - i,
    {
        if custom_id.get_char(i) == ':' {
            break ;
        }
        i += 1;
    }
    proof {
        lemma_find_first_is(custom_id@, ':', i as int);
    }
    if i == len {
        return None;
    }
    let keyword = custom_id.substring_char(0, i);
    proof {
        assert(keyword@ =~= custom_id@.take(i as int));
    }
    let decision = if str_eq(keyword, "allow") {
        Decision::Allow
    } else if str_eq(keyword, "deny") {
        Decision::Deny
    } else if str_eq(keyword, "always") {
        Decision::AlwaysAllow
    } else {
        return None;
    };
    let id = custom_id.substring_char(i + 1, len);
    proof {
        assert(id@ =~= custom_id@.skip(i + 1));
    }
    Some((decision, id.to_owned()))
}

/// The decision keyword of a free-text reply, matched without regard to
/// case.
pub open spec fn reply_keyword_decision(t: Seq<char>) -> Option<Decision> {
    if matches_ci(t, "ALLOW"@, "allow"@) {
        Option::Some(Decision::Allow)
    } else if matches_ci(t, "DENY"@, "deny"@) {
        Option::Some(Decision::Deny)
    } else if matches_ci(t, "ALWAYS"@, "always"@) {
        Option::Some(Decision::AlwaysAllow)
    } else {
        Option::None
    }
}

/// What `parse_decision_reply` yields: the first whitespace-separated
/// token must be a decision keyword in any casing; the second token is
/// the request id, with its casing kept as written.
pub open spec fn parse_reply_spec(s: Seq<char>) -> Option<(Decision, Seq<char>)> {
    let ts = tokens_spec(s);
    if ts.len() < 2 {
        Option::None
    } else {
        match reply_keyword_decision(ts[0]) {
            Option::None => Option::None,
            Option::Some(d) => Option::Some((d, ts[1])),
        }
    }
}

/// Parses a free-text reply of the form `ALLOW {request_id}`,
/// `DENY {request_id}` or `ALWAYS {request_id}`. The keyword is matched
/// case-insensitively; the request id keeps its case. Anything else
/// yields `None`.
pub fn parse_decision_reply(text: &str) -> (r: Option<(Decision, String)>)
    ensures
        match r {
            Option::Some(p) => parse_reply_spec(text@) == Option::Some((p.0, p.1@)),
            Option::None => parse_reply_spec(text@) is None,
        },
{
    let parts = split_tokens(text);
    if parts.len() < 2 {
        return None;
    }
    proof {
        assert(parts.deep_view()[0] == parts@[0]@);
        assert(parts.deep_view()[1] == parts@[1]@);
        reveal_strlit("ALLOW");
        reveal_strlit("allow");
        reveal_strlit("DENY");
        reveal_strlit("deny");
        reveal_strlit("ALWAYS");
        reveal_strlit("always");
    }
    let decision = if str_matches_ci(parts[0].as_str(), "ALLOW", "allow") {
        Decision::Allow
    } else if str_matches_ci(parts[0].as_str(), "DENY", "deny") {
        Decision::Deny
    } else if str_matches_ci(parts[0].as_str(), "ALWAYS", "always") {
        Decision::AlwaysAllow
    } else {
        return None;
    };
    Some((decision, parts[1].clone()))
}

/// Splitting a text built of two separator-free parts around the
/// separator yields exactly those parts.
proof fn lemma_split_two(s: Seq<char>, x: Seq<char>, y: Seq<char>)
    requires
        s == x + seq![':'] + y,
        forall|j: int| 0 <= j < x.len() ==> x[j] != ':',
        forall|j: int| 0 <= j < y.len() ==> y[j] != ':',
    ensures
        split_spec(s, ':') == seq![x, y],
{
    let n = x.len() as int;
    assert forall|j: int| 0 <= j < n implies s[j] != ':' by {
        assert(s[j] == x[j]);
    }
    assert(s[n] == ':');
    lemma_find_first_is(s, ':', n);
    assert(s.take(n) =~= x);
    assert(s.skip(n + 1) =~= y);
    lemma_find_first_is(y, ':', y.len() as int);
    assert(split_spec(y, ':') == seq![y]);
    assert(split_spec(s, ':') =~= seq![x, y]);
}

/// Splitting a text built of three separator-free parts yields exactly
/// those parts.
proof fn lemma_split_three(s: Seq<char>, x: Seq<char>, y: Seq<char>, z: Seq<char>)
    requires
        s == x + seq![':'] + y + seq![':'] + z,
        forall|j: int| 0 <= j < x.len() ==> x[j] != ':',
        forall|j: int| 0 <= j < y.len() ==> y[j] != ':',
        forall|j: int| 0 <= j < z.len() ==> z[j] != ':',
    ensures
        split_spec(s, ':') == seq![x, y, z],
{
    let n = x.len() as int;
    assert forall|j: int| 0 <= j < n implies s[j] != ':' by {
        assert(s[j] == x[j]);
    }
    assert(s[n] == ':');
    lemma_find_first_is(s, ':', n);
    assert(s.take(n) =~= x);
    let rest = s.skip(n + 1);
    assert(rest =~= y + seq![':'] + z);
    lemma_split_two(rest, y, z);
    assert(split_spec(s, ':') =~= seq![x, y, z]);
}

proof fn lemma_allow_keyword_has_no_colon()
    ensures
        "allow"@.len() == 5,
        forall|j: int| 0 <= j < "allow"@.len() ==> "allow"@[j] != ':',
{
    reveal_strlit("allow");
    assert forall|j: int| 0 <= j < "allow"@.len() implies "allow"@[j] != ':' by {
        assert("allow"@[0] == 'a');
        assert("allow"@[1] == 'l');
        assert("allow"@[2] == 'l');
        assert("allow"@[3] == 'o');
        assert("allow"@[4] == 'w');
    }
}

/// A payload built as `{id}:allow` parses back to an approval of that
/// very request id, as long as the id itself carries no separator.
/// This is the encoding half of the correlation contract: the id that
/// went out is the id that is compared on the way back.
pub proof fn lemma_callback_round_trip_allow(id: Seq<char>)
    requires
        forall|j: int| 0 <= j < id.len() ==> id[j] != ':',
    ensures
        parse_callback_spec(id + ":allow"@) == Option::Some(
            (id, Decision::Allow, Option::None::<Seq<char>>),
        ),
{
    reveal_strlit(":allow");
    reveal_strlit("allow");
    lemma_allow_keyword_has_no_colon();
    let s = id + ":allow"@;
    assert(s =~= id + seq![':'] + "allow"@);
    lemma_split_two(id + seq![':'] + "allow"@, id, "allow"@);
    assert(split_spec(s, ':') == seq![id, "allow"@]);
    assert(split_spec(s, ':')[1] == "allow"@);
    assert(split_spec(s, ':')[0] == id);
}

/// A payload built as `{id}:deny` parses back to a denial of that very
/// request id.
pub proof fn lemma_callback_round_trip_deny(id: Seq<char>)
    requires
        forall|j: int| 0 <= j < id.len() ==> id[j] != ':',
    ensures
        parse_callback_spec(id + ":deny"@) == Option::Some(
            (id, Decision::Deny, Option::None::<Seq<char>>),
        ),
{
    reveal_strlit(":deny");
    reveal_strlit("deny");
    reveal_strlit("allow");
    let s = id + ":deny"@;
    assert(s =~= id + seq![':'] + "deny"@);
    assert forall|j: int| 0 <= j < "deny"@.len() implies "deny"@[j] != ':' by {
        assert("deny"@[0] == 'd');
        assert("deny"@[1] == 'e');
        assert("deny"@[2] == 'n');
        assert("deny"@[3] == 'y');
    }
    lemma_split_two(id + seq![':'] + "deny"@, id, "deny"@);
    assert(split_spec(s, ':') == seq![id, "deny"@]);
    assert(split_spec(s, ':')[1] == "deny"@);
    assert(split_spec(s, ':')[0] == id);
    assert("deny"@ != "allow"@) by {
        assert("deny"@.len() == 4 && "allow"@.len() == 5);
    }
}

/// A payload built as `{id}:always_allow:{tool}` parses back to an
/// always-allow for that very request id and tool, as long as neither
/// carries a separator.
pub proof fn lemma_callback_round_trip_always(id: Seq<char>, tool: Seq<char>)
    requires
        forall|j: int| 0 <= j < id.len() ==> id[j] != ':',
        forall|j: int| 0 <= j < tool.len() ==> tool[j] != ':',
    ensures
        parse_callback_spec(id + ":always_allow:"@ + tool) == Option::Some(
            (id, Decision::AlwaysAllow, Option::Some(tool)),
        ),
{
    reveal_strlit(":always_allow:");
    reveal_strlit("always_allow");
    reveal_strlit("allow");
    reveal_strlit("deny");
    let kw = "always_allow"@;
    let s = id + ":always_allow:"@ + tool;
    assert(s =~= id + seq![':'] + kw + seq![':'] + tool);
    assert forall|j: int| 0 <= j < kw.len() implies kw[j] != ':' by {
        assert(kw[0] == 'a');
        assert(kw[1] == 'l');
        assert(kw[2] == 'w');
        assert(kw[3] == 'a');
        assert(kw[4] == 'y');
        assert(kw[5] == 's');
        assert(kw[6] == '_');
        assert(kw[7] == 'a');
        assert(kw[8] == 'l');
        assert(kw[9] == 'l');
        assert(kw[10] == 'o');
        assert(kw[11] == 'w');
    }
    lemma_split_three(id + seq![':'] + kw + seq![':'] + tool, id, kw, tool);
    assert(split_spec(s, ':') == seq![id, kw, tool]);
    assert(split_spec(s, ':')[1] == kw);
    assert(split_spec(s, ':')[0] == id);
    assert(split_spec(s, ':')[2] == tool);
    assert(kw != "allow"@ && kw != "deny"@) by {
        assert(kw.len() == 12 && "allow"@.len() == 5 && "deny"@.len() == 4);
    }
}

/// A reply written as `ALLOW {id}` — the very command the plain-text
/// prompt asks for — parses back to an approval of that request id, as
/// long as the id carries no whitespace. This is the text-reply half of
/// the correlation contract.
pub proof fn lemma_reply_round_trip_allow(id: Seq<char>)
    requires
        id.len() > 0,
        forall|j: int| 0 <= j < id.len() ==> !crate::split::is_space(id[j]),
    ensures
        parse_reply_spec("ALLOW "@ + id) == Option::Some((Decision::Allow, id)),
{
    reveal_strlit("ALLOW ");
    reveal_strlit("ALLOW");
    let kw = "ALLOW"@;
    assert("ALLOW "@ + id =~= kw + seq![' '] + id);
    assert forall|j: int| 0 <= j < kw.len() implies !crate::split::is_space(kw[j]) by {
        assert(kw[0] == 'A');
        assert(kw[1] == 'L');
        assert(kw[2] == 'L');
        assert(kw[3] == 'O');
        assert(kw[4] == 'W');
    }
    crate::split::lemma_tokens_two(kw + seq![' '] + id, kw, id);
    let ts = tokens_spec("ALLOW "@ + id);
    assert(ts == seq![kw, id]);
    assert(ts[0] == kw && ts[1] == id);
    assert(matches_ci(kw, "ALLOW"@, "allow"@));
}

/// A button to show the operator: its label and the payload the backend
/// hands back when it is pressed.
#[derive(Debug, Clone)]
pub struct ButtonSpec {
    pub label: String,
    pub data: String,
}

/// The rows of buttons for a permission prompt: allow and deny side by
/// side, always-allow below; each payload carries the request id.
pub fn create_permission_keyboard(request_id: &str, tool_name: &str) -> (rows: Vec<
    Vec<ButtonSpec>,
>)
    ensures
        rows.len() == 2,
        rows[0].len() == 2,
        rows[1].len() == 1,
        rows[0][0].data@ == request_id@ + ":allow"@,
        rows[0][1].data@ == request_id@ + ":deny"@,
        rows[1][0].data@ == request_id@ + ":always_allow:"@ + tool_name@,
        rows[0][0].label@ == "\u{2705} Allow"@,
        rows[0][1].label@ == "\u{274C} Deny"@,
        rows[1][0].label@ == "\u{1F513} Always Allow"@,
{
    let allow = ButtonSpec {
        label: String::from_str("\u{2705} Allow"),
        data: request_id.to_owned().concat(":allow"),
    };
    let deny = ButtonSpec {
        label: String::from_str("\u{274C} Deny"),
        data: request_id.to_owned().concat(":deny"),
    };
    let always = ButtonSpec {
        label: String::from_str("\u{1F513} Always Allow"),
        data: request_id.to_owned().concat(":always_allow:").concat(tool_name),
    };
    let mut top: Vec<ButtonSpec> = Vec::new();
    top.push(allow);
    top.push(deny);
    let mut bottom: Vec<ButtonSpec> = Vec::new();
    bottom.push(always);
    let mut rows: Vec<Vec<ButtonSpec>> = Vec::new();
    rows.push(top);
    rows.push(bottom);
    rows
}

} // verus!

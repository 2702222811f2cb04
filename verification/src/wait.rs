//! The decision wait: correlating inbound replies with the outstanding
//! request and bounding the wait by a tick budget.
//!
//! Each poll round hands the protocol the batch of replies that arrived
//! since the last round. A reply resolves the wait only when its
//! request id equals the outstanding one, compared exactly as
//! generated; every other reply is skipped, never consumed as an
//! answer. When the tick budget runs out without a matching reply the
//! wait resolves to a denial — a normal outcome, not an error.

use vstd::prelude::*;
use crate::decision::Decision;
use crate::reply::{parse_callback_spec, parse_reply_spec, parse_callback_data, parse_decision_reply};
use crate::text::str_eq;

verus! {

/// A decision-shaped reply, already decoded from a backend's wire form:
/// the decision and the request id it answers.
#[derive(Debug, Clone)]
pub struct ReplyEvent {
    pub decision: Decision,
    pub request_id: String,
}

impl ReplyEvent {
    /// The reply as a mathematical value.
    pub open spec fn model(&self) -> (Decision, Seq<char>) {
        (self.decision, self.request_id@)
    }
}

/// The models of a batch of replies, in arrival order.
pub open spec fn reply_models(rs: Seq<ReplyEvent>) -> Seq<(Decision, Seq<char>)> {
    rs.map_values(|e: ReplyEvent| e.model())
}

/// The decision of the first reply whose request id equals `rid`, if
/// any.
pub open spec fn first_match(rs: Seq<(Decision, Seq<char>)>, rid: Seq<char>) -> Option<Decision>
    decreases rs.len(),
{
    if rs.len() == 0 {
        Option::None
    } else if rs[0].1 == rid {
        Option::Some(rs[0].0)
    } else {
        first_match(rs.drop_first(), rid)
    }
}

/// A position whose reply matches, with no match before it, is where
/// the first match is found.
pub proof fn lemma_first_match_is(rs: Seq<(Decision, Seq<char>)>, rid: Seq<char>, i: int)
    requires
        0 <= i < rs.len(),
        rs[i].1 == rid,
        forall|j: int| 0 <= j < i ==> rs[j].1 != rid,
    ensures
        first_match(rs, rid) == Option::Some(rs[i].0),
    decreases rs.len(),
{
    if i > 0 {
        let d = rs.drop_first();
        assert forall|j: int| 0 <= j < i - 1 implies d[j].1 != rid by {
            assert(d[j] == rs[j + 1]);
        }
        assert(d[i - 1] == rs[i]);
        lemma_first_match_is(d, rid, i - 1);
    }
}

/// Replies that all answer other requests resolve nothing: the wait
/// goes on. This is what keeps two concurrent requests on one thread
/// from stealing each other's answers.
pub proof fn lemma_mismatched_replies_ignored(rs: Seq<(Decision, Seq<char>)>, rid: Seq<char>)
    requires
        forall|i: int| 0 <= i < rs.len() ==> rs[i].1 != rid,
    ensures
        first_match(rs, rid) is None,
    decreases rs.len(),
{
    if rs.len() > 0 {
        let d = rs.drop_first();
        assert forall|j: int| 0 <= j < d.len() implies d[j].1 != rid by {
            assert(d[j] == rs[j + 1]);
        }
        lemma_mismatched_replies_ignored(d, rid);
    }
}

/// The first matching reply in a batch, compared exactly.
pub fn find_matching(replies: &Vec<ReplyEvent>, request_id: &str) -> (r: Option<Decision>)
    ensures
        r == first_match(reply_models(replies@), request_id@),
{
    let n = replies.len();
    let mut i: usize = 0;
    while i < n
        invariant
            0 <= i <= n,
            n == replies@.len(),
            forall|j: int| 0 <= j < i ==> reply_models(replies@)[j].1 != request_id@,
        decreases n - i,
    {
        if str_eq(replies[i].request_id.as_str(), request_id) {
            proof {
                assert(reply_models(replies@)[i as int] == replies@[i as int].model());
                lemma_first_match_is(reply_models(replies@), request_id@, i as int);
            }
            return Some(replies[i].decision);
        }
        proof {
            assert(reply_models(replies@)[i as int] == replies@[i as int].model());
        }
        i += 1;
    }
    proof {
        lemma_mismatched_replies_ignored(reply_models(replies@), request_id@);
    }
    None
}

/// A button press as the backend reports it: which chat and prompt
/// message it belongs to, and the payload of the pressed button.
#[derive(Debug, Clone)]
pub struct CallbackPayload {
    pub chat_id: i64,
    pub message_id: i64,
    pub data: String,
}

/// One entry of a poll batch: the backend's running update number, and
/// the button press it carries, if it is one. Updates of other kinds
/// carry `None`; they still advance the cursor.
#[derive(Debug, Clone)]
pub struct UpdateEvent {
    pub update_id: u32,
    pub payload: Option<CallbackPayload>,
}

/// The decision-shaped reply carried by one update, if it is a button
/// press on our prompt message with a well-formed payload.
pub open spec fn update_reply(u: UpdateEvent, chat_id: int, message_id: int) -> Option<
    (Decision, Seq<char>),
> {
    match u.payload {
        Option::None => Option::None,
        Option::Some(p) => {
            if p.chat_id == chat_id && p.message_id == message_id {
                match parse_callback_spec(p.data@) {
                    Option::Some(t) => Option::Some((t.1, t.0)),
                    Option::None => Option::None,
                }
            } else {
                Option::None
            }
        },
    }
}

/// The replies of a poll batch, in order: every update is looked at,
/// and only well-formed presses on our prompt yield a reply.
pub open spec fn updates_replies(us: Seq<UpdateEvent>, chat_id: int, message_id: int) -> Seq<
    (Decision, Seq<char>),
>
    decreases us.len(),
{
    if us.len() == 0 {
        Seq::empty()
    } else {
        updates_replies(us.drop_last(), chat_id, message_id) + match update_reply(
            us.last(),
            chat_id,
            message_id,
        ) {
            Option::Some(t) => seq![t],
            Option::None => Seq::empty(),
        }
    }
}

/// Decodes a poll batch into its decision-shaped replies, skipping
/// updates that are no button press, belong to another chat or message,
/// or carry a malformed payload.
pub fn extract_update_replies(updates: &Vec<UpdateEvent>, chat_id: i64, message_id: i64) -> (r:
    Vec<ReplyEvent>)
    ensures
        reply_models(r@) == updates_replies(updates@, chat_id as int, message_id as int),
{
    let n = updates.len();
    let mut out: Vec<ReplyEvent> = Vec::new();
    let mut i: usize = 0;
    proof {
        assert(updates@.take(0) =~= Seq::<UpdateEvent>::empty());
        assert(reply_models(out@) =~= updates_replies(
            updates@.take(0),
            chat_id as int,
            message_id as int,
        ));
    }
    while i < n
        invariant
            0 <= i <= n,
            n == updates@.len(),
            reply_models(out@) == updates_replies(
                updates@.take(i as int),
                chat_id as int,
                message_id as int,
            ),
        decreases n - i,
    {
        let ghost pre = out@;
        let u = &updates[i];
        match &u.payload {
            Option::None => {},
            Option::Some(p) => {
                if p.chat_id == chat_id && p.message_id == message_id {
                    match parse_callback_data(p.data.as_str()) {
                        Option::None => {},
                        Option::Some(cd) => {
                            out.push(
                                ReplyEvent { decision: cd.decision, request_id: cd.request_id },
                            );
                        },
                    }
                }
            },
        }
        proof {
            let longer = updates@.take(i + 1);
            assert(longer.drop_last() =~= updates@.take(i as int));
            assert(longer.last() == updates@[i as int]);
            assert(reply_models(out@) =~= updates_replies(
                longer,
                chat_id as int,
                message_id as int,
            ));
        }
        i += 1;
    }
    proof {
        assert(updates@.take(n as int) =~= updates@);
    }
    out
}

/// A press of the allow button of our own prompt resolves the wait on
/// that request to an approval: the id encoded into the payload is the
/// id the reply is matched on.
pub proof fn lemma_encoded_allow_resolves(
    u: UpdateEvent,
    chat_id: int,
    message_id: int,
    id: Seq<char>,
)
    requires
        forall|j: int| 0 <= j < id.len() ==> id[j] != ':',
        u.payload matches Option::Some(p) && p.chat_id == chat_id && p.message_id == message_id
            && p.data@ == id + ":allow"@,
    ensures
        first_match(updates_replies(seq![u], chat_id, message_id), id) == Option::Some(
            Decision::Allow,
        ),
{
    crate::reply::lemma_callback_round_trip_allow(id);
    let us = seq![u];
    assert(us.drop_last() =~= Seq::<UpdateEvent>::empty());
    assert(us.last() == u);
    let p = u.payload->0;
    assert(p.chat_id == chat_id && p.message_id == message_id);
    assert(crate::reply::parse_callback_spec(p.data@) == Option::Some(
        (id, Decision::Allow, Option::None::<Seq<char>>),
    ));
    assert(update_reply(u, chat_id, message_id) == Option::Some((Decision::Allow, id)));
    assert(updates_replies(Seq::<UpdateEvent>::empty(), chat_id, message_id) == Seq::<(
        Decision,
        Seq<char>,
    )>::empty());
    let rs = updates_replies(us, chat_id, message_id);
    assert(rs =~= seq![(Decision::Allow, id)]);
    assert(rs[0].1 == id);
}

/// A press of a button that answers another request resolves nothing
/// for ours, whatever its decision says: the encoded ids differ, so
/// the reply is skipped.
pub proof fn lemma_encoded_reply_for_other_request_ignored(
    u: UpdateEvent,
    chat_id: int,
    message_id: int,
    id: Seq<char>,
    other: Seq<char>,
)
    requires
        forall|j: int| 0 <= j < other.len() ==> other[j] != ':',
        id != other,
        u.payload matches Option::Some(p) && p.chat_id == chat_id && p.message_id == message_id
            && p.data@ == other + ":allow"@,
    ensures
        first_match(updates_replies(seq![u], chat_id, message_id), id) is None,
{
    crate::reply::lemma_callback_round_trip_allow(other);
    let us = seq![u];
    assert(us.drop_last() =~= Seq::<UpdateEvent>::empty());
    assert(us.last() == u);
    let p = u.payload->0;
    assert(p.chat_id == chat_id && p.message_id == message_id);
    assert(crate::reply::parse_callback_spec(p.data@) == Option::Some(
        (other, Decision::Allow, Option::None::<Seq<char>>),
    ));
    assert(update_reply(u, chat_id, message_id) == Option::Some((Decision::Allow, other)));
    assert(updates_replies(Seq::<UpdateEvent>::empty(), chat_id, message_id) == Seq::<(
        Decision,
        Seq<char>,
    )>::empty());
    let rs = updates_replies(us, chat_id, message_id);
    assert(rs =~= seq![(Decision::Allow, other)]);
    assert(forall|i: int| 0 <= i < rs.len() ==> rs[i].1 != id);
    lemma_mismatched_replies_ignored(rs, id);
}

/// The decision-shaped reply carried by one free-text message, if any.
pub open spec fn text_reply(t: Seq<char>) -> Option<(Decision, Seq<char>)> {
    parse_reply_spec(t)
}

/// The replies among a batch of free-text messages, in order.
pub open spec fn texts_replies(ts: Seq<Seq<char>>) -> Seq<(Decision, Seq<char>)>
    decreases ts.len(),
{
    if ts.len() == 0 {
        Seq::empty()
    } else {
        texts_replies(ts.drop_last()) + match text_reply(ts.last()) {
            Option::Some(t) => seq![t],
            Option::None => Seq::empty(),
        }
    }
}

/// The prompted-allow flow end to end: for a request id free of the
/// separator — as every generated id is, by `from_hook_input`'s
/// contract — a press of our prompt's allow button resolves the wait
/// to `Allow`, the flow resolves the request to `Allow` (by
/// `resolved_decision`), and the reported behavior is `"allow"`; and
/// since the decision is no always-allow, `finish_request`'s contract
/// leaves the allow-list untouched.
pub proof fn lemma_prompt_allow_end_to_end(
    u: UpdateEvent,
    chat_id: int,
    message_id: int,
    id: Seq<char>,
)
    requires
        forall|j: int| 0 <= j < id.len() ==> id[j] != ':',
        u.payload matches Option::Some(p) && p.chat_id == chat_id && p.message_id == message_id
            && p.data@ == id + ":allow"@,
    ensures
        first_match(updates_replies(seq![u], chat_id, message_id), id) == Option::Some(
            Decision::Allow,
        ),
        crate::flow::resolved_decision(Option::Some(Decision::Allow)) == Decision::Allow,
        Decision::Allow.behavior_spec() == "allow"@,
{
    lemma_encoded_allow_resolves(u, chat_id, message_id, id);
}

/// A text message carrying the very command the prompt asked for —
/// `ALLOW {id}` — resolves the wait on that request to an approval.
pub proof fn lemma_text_reply_resolves(id: Seq<char>)
    requires
        id.len() > 0,
        forall|j: int| 0 <= j < id.len() ==> !crate::split::is_space(id[j]),
    ensures
        first_match(texts_replies(seq!["ALLOW "@ + id]), id) == Option::Some(Decision::Allow),
{
    crate::reply::lemma_reply_round_trip_allow(id);
    let ts = seq!["ALLOW "@ + id];
    assert(ts.drop_last() =~= Seq::<Seq<char>>::empty());
    assert(texts_replies(Seq::<Seq<char>>::empty()) == Seq::<(Decision, Seq<char>)>::empty());
    assert(ts.last() == "ALLOW "@ + id);
    assert(text_reply(ts.last()) == Option::Some((Decision::Allow, id)));
    let rs = texts_replies(ts);
    assert(rs =~= seq![(Decision::Allow, id)]);
    assert(rs[0].1 == id);
}

/// Messages none of which parse as a decision reply yield no replies at
/// all: malformed text is skipped, never an error.
pub proof fn lemma_malformed_texts_ignored(ts: Seq<Seq<char>>)
    requires
        forall|i: int| 0 <= i < ts.len() ==> text_reply(ts[i]) is None,
    ensures
        texts_replies(ts) == Seq::<(Decision, Seq<char>)>::empty(),
    decreases ts.len(),
{
    if ts.len() > 0 {
        let d = ts.drop_last();
        assert forall|j: int| 0 <= j < d.len() implies text_reply(d[j]) is None by {
            assert(d[j] == ts[j]);
        }
        lemma_malformed_texts_ignored(d);
        assert(ts[ts.len() - 1] == ts.last());
        assert(texts_replies(ts) =~= Seq::<(Decision, Seq<char>)>::empty());
    }
}

/// Decodes a batch of free-text messages into its decision-shaped
/// replies, skipping everything that is no reply.
pub fn extract_text_replies(texts: &Vec<String>) -> (r: Vec<ReplyEvent>)
    ensures
        reply_models(r@) == texts_replies(texts.deep_view()),
{
    let n = texts.len();
    let mut out: Vec<ReplyEvent> = Vec::new();
    let mut i: usize = 0;
    proof {
        assert(texts.deep_view().take(0) =~= Seq::<Seq<char>>::empty());
        assert(reply_models(out@) =~= texts_replies(texts.deep_view().take(0)));
    }
    while i < n
        invariant
            0 <= i <= n,
            n == texts@.len(),
            texts.deep_view().len() == n,
            reply_models(out@) == texts_replies(texts.deep_view().take(i as int)),
        decreases n - i,
    {
        match parse_decision_reply(texts[i].as_str()) {
            Option::None => {},
            Option::Some(p) => {
                out.push(ReplyEvent { decision: p.0, request_id: p.1 });
            },
        }
        proof {
            assert(texts.deep_view()[i as int] == texts@[i as int]@);
            let longer = texts.deep_view().take(i + 1);
            assert(longer.drop_last() =~= texts.deep_view().take(i as int));
            assert(longer.last() == texts.deep_view()[i as int]);
            assert(reply_models(out@) =~= texts_replies(longer));
        }
        i += 1;
    }
    proof {
        assert(texts.deep_view().take(n as int) =~= texts.deep_view());
    }
    out
}

/// The moving cursor of the poll loop: after a batch it stands one past
/// the last update seen, whether or not any update matched, so no
/// update is fetched twice and the loop always moves forward.
pub fn advance_offset(updates: &Vec<UpdateEvent>, offset: Option<i64>) -> (r: Option<i64>)
    ensures
        updates@.len() == 0 ==> r == offset,
        updates@.len() > 0 ==> r == Option::Some((updates@.last().update_id + 1) as i64),
{
    let n = updates.len();
    if n == 0 {
        offset
    } else {
        Some(updates[n - 1].update_id as i64 + 1)
    }
}

/// One pending decision wait: the outstanding request id and the
/// remaining tick budget.
#[derive(Debug, Clone)]
pub struct DecisionWait {
    pub request_id: String,
    pub ticks_left: u64,
}

impl DecisionWait {
    /// A fresh wait for `request_id`, allowed to poll `timeout_ticks`
    /// times before it resolves to a denial.
    pub fn new(request_id: &str, timeout_ticks: u64) -> (r: Self)
        ensures
            r.request_id@ == request_id@,
            r.ticks_left == timeout_ticks,
    {
        DecisionWait { request_id: request_id.to_owned(), ticks_left: timeout_ticks }
    }

    /// One poll round: the batch's first reply for our request resolves
    /// the wait with its decision; otherwise one tick is spent, and
    /// spending the last tick resolves the wait to a denial. Replies
    /// for other requests never resolve it.
    pub fn step(&mut self, replies: &Vec<ReplyEvent>) -> (r: Option<Decision>)
        ensures
            final(self).request_id@ == old(self).request_id@,
            match first_match(reply_models(replies@), old(self).request_id@) {
                Option::Some(d) => r == Option::Some(d) && final(self).ticks_left == old(
                    self,
                ).ticks_left,
                Option::None => {
                    if old(self).ticks_left <= 1 {
                        r == Option::Some(Decision::Deny) && final(self).ticks_left == 0
                    } else {
                        r is None && final(self).ticks_left == old(self).ticks_left - 1
                    }
                },
            },
    {
        match find_matching(replies, self.request_id.as_str()) {
            Some(d) => Some(d),
            None => {
                if self.ticks_left <= 1 {
                    self.ticks_left = 0;
                    Some(Decision::Deny)
                } else {
                    self.ticks_left = self.ticks_left - 1;
                    None
                }
            },
        }
    }
}

} // verus!

//! The allow-list: the set of tool names that are approved without
//! prompting the operator.
//!
//! The manager holds the set in memory as a duplicate-free vector of
//! names. Reading the persisted document and writing it back is the
//! caller's side of the boundary; a missing or unreadable document is
//! handed in as `None` and yields the empty set.

use vstd::prelude::*;
use crate::text::str_eq;

verus! {

/// A failure while persisting the allow-list. The in-memory operations
/// themselves always succeed; callers that persist the set map their
/// storage failures into this type.
#[derive(Debug, Clone)]
pub enum AlwaysAllowError {
    Storage(String),
}

impl AlwaysAllowError {
    /// A human-readable description of the failure.
    pub fn message(&self) -> (r: String)
        ensures
            r@ == self.message_spec(),
    {
        match self {
            AlwaysAllowError::Storage(s) => s.clone(),
        }
    }

    pub open spec fn message_spec(&self) -> Seq<char> {
        match self {
            AlwaysAllowError::Storage(s) => s@,
        }
    }
}

/// Manager for the always-allow tool set.
#[derive(Debug, Clone)]
pub struct AlwaysAllowManager {
    tools: Vec<String>,
}

impl AlwaysAllowManager {
    /// The names held, in order.
    pub closed spec fn tools_seq(&self) -> Seq<Seq<char>> {
        self.tools.deep_view()
    }

    /// Membership of a name in the set.
    pub open spec fn allows(&self, t: Seq<char>) -> bool {
        self.tools_seq().contains(t)
    }

    /// The set invariant: no name occurs twice.
    pub open spec fn wf(&self) -> bool {
        forall|i: int, j: int|
            0 <= i < j < self.tools_seq().len() ==> self.tools_seq()[i] != self.tools_seq()[j]
    }

    /// What `add_tool` does: the name is present afterwards, nothing
    /// else changes, and a second add of a present name is a no-op.
    pub open spec fn add_rel(pre: Self, post: Self, t: Seq<char>) -> bool {
        &&& pre.allows(t) ==> post == pre
        &&& !pre.allows(t) ==> post.tools_seq() == pre.tools_seq().push(t)
    }

    /// What `remove_tool` does: every occurrence of the name is gone,
    /// the rest stay in order.
    pub open spec fn remove_rel(pre: Self, post: Self, t: Seq<char>) -> bool {
        post.tools_seq() == pre.tools_seq().filter(|x: Seq<char>| x != t)
    }

    /// An empty set.
    pub fn new() -> (r: Self)
        ensures
            r.wf(),
            r.tools_seq() == Seq::<Seq<char>>::empty(),
    {
        let r = AlwaysAllowManager { tools: Vec::new() };
        proof {
            assert(r.tools_seq() =~= Seq::<Seq<char>>::empty());
        }
        r
    }

    /// The set read back from a persisted document: `None` stands for a
    /// missing or unreadable document and yields the empty set; a list
    /// of names is taken in order, with every repetition of an earlier
    /// name dropped.
    pub fn from_stored(stored: Option<Vec<String>>) -> (r: Self)
        ensures
            r.wf(),
            match stored {
                Option::None => r.tools_seq() == Seq::<Seq<char>>::empty(),
                Option::Some(names) => r.tools_seq() == dedup_spec(names.deep_view()),
            },
    {
        match stored {
            Option::None => Self::new(),
            Option::Some(names) => {
                let mut m = Self::new();
                let n = names.len();
                let mut i: usize = 0;
                proof {
                    assert(names.deep_view().take(0) =~= Seq::<Seq<char>>::empty());
                }
                while i < n
                    invariant
                        0 <= i <= n,
                        n == names@.len(),
                        m.wf(),
                        m.tools_seq() == dedup_spec(names.deep_view().take(i as int)),
                        forall|t: Seq<char>|
                            m.allows(t) == names.deep_view().take(i as int).contains(t),
                    decreases n - i,
                {
                    let ghost pre = m;
                    let name: &String = &names[i];
                    let _ = m.add_tool(name.as_str());
                    proof {
                        let dv = names.deep_view();
                        assert(dv.len() == n);
                        assert(dv[i as int] == name@);
                        lemma_add_membership(pre, m, name@);
                        lemma_take_one_more(dv, i as int);
                        let longer = dv.take(i + 1);
                        assert(longer.drop_last() =~= dv.take(i as int));
                        assert(longer.last() == name@);
                        if pre.allows(name@) {
                            assert(dv.take(i as int).contains(name@));
                            assert(dedup_spec(longer) == dedup_spec(dv.take(i as int)));
                        } else {
                            assert(!dv.take(i as int).contains(name@));
                            assert(dedup_spec(longer) == dedup_spec(dv.take(i as int)).push(
                                name@,
                            ));
                        }
                    }
                    i += 1;
                }
                proof {
                    assert(names.deep_view().take(n as int) =~= names.deep_view());
                }
                m
            },
        }
    }

    /// Whether a tool is on the allow-list.
    pub fn is_allowed(&self, tool_name: &str) -> (r: bool)
        ensures
            r == self.allows(tool_name@),
    {
        let n = self.tools.len();
        let mut i: usize = 0;
        while i < n
            invariant
                0 <= i <= n,
                n == self.tools@.len(),
                forall|j: int| 0 <= j < i ==> self.tools_seq()[j] != tool_name@,
            decreases n - i,
        {
            if str_eq(self.tools[i].as_str(), tool_name) {
                proof {
                    assert(self.tools_seq()[i as int] == tool_name@);
                }
                return true;
            }
            i += 1;
        }
        proof {
            if self.allows(tool_name@) {
                let k = choose|k: int|
                    0 <= k < self.tools_seq().len() && self.tools_seq()[k] == tool_name@;
            }
        }
        false
    }

    /// Adds a tool to the set; a no-op if it is already present.
    pub fn add_tool(&mut self, tool_name: &str) -> (r: Result<(), AlwaysAllowError>)
        requires
            old(self).wf(),
        ensures
            r is Ok,
            final(self).wf(),
            Self::add_rel(*old(self), *final(self), tool_name@),
            final(self).allows(tool_name@),
    {
        if !self.is_allowed(tool_name) {
            let ghost pre = self.tools_seq();
            self.tools.push(tool_name.to_owned());
            proof {
                assert(self.tools_seq() =~= pre.push(tool_name@));
                assert(self.tools_seq()[pre.len() as int] == tool_name@);
                assert forall|i: int, j: int|
                    0 <= i < j < self.tools_seq().len() implies self.tools_seq()[i]
                    != self.tools_seq()[j] by {
                    if j < pre.len() {
                    } else {
                        assert(self.tools_seq()[j] == tool_name@);
                        assert(pre[i] == self.tools_seq()[i]);
                        if self.tools_seq()[i] == tool_name@ {
                            assert(pre.contains(tool_name@));
                        }
                    }
                }
            }
        }
        Ok(())
    }

    /// Removes a tool from the set; a no-op if it is absent.
    pub fn remove_tool(&mut self, tool_name: &str) -> (r: Result<(), AlwaysAllowError>)
        requires
            old(self).wf(),
        ensures
            r is Ok,
            final(self).wf(),
            Self::remove_rel(*old(self), *final(self), tool_name@),
            !final(self).allows(tool_name@),
    {
        let ghost all = self.tools_seq();
        let ghost pred = |x: Seq<char>| x != tool_name@;
        let mut kept: Vec<String> = Vec::new();
        let n = self.tools.len();
        let mut i: usize = 0;
        while i < n
            invariant
                0 <= i <= n,
                n == all.len(),
                self.tools_seq() == all,
                n == self.tools@.len(),
                kept.deep_view() == all.take(i as int).filter(pred),
                pred == (|x: Seq<char>| x != tool_name@),
            decreases n - i,
        {
            let ghost prefix = all.take(i as int);
            let ghost kept_pre = kept.deep_view();
            let keep = !str_eq(self.tools[i].as_str(), tool_name);
            if keep {
                kept.push(self.tools[i].clone());
            }
            proof {
                reveal(Seq::filter);
                assert(all[i as int] == self.tools@[i as int]@);
                let longer = all.take(i + 1);
                assert(longer.drop_last() =~= prefix);
                assert(longer.last() == all[i as int]);
                if keep {
                    assert(kept.deep_view() =~= kept_pre.push(all[i as int]));
                    assert(longer.filter(pred) == prefix.filter(pred).push(all[i as int]));
                } else {
                    assert(longer.filter(pred) == prefix.filter(pred));
                }
            }
            i += 1;
        }
        proof {
            assert(all.take(n as int) =~= all);
        }
        self.tools = kept;
        proof {
            lemma_filter_keeps_distinct(all, pred);
            lemma_filter_only_from(all, pred);
            if self.allows(tool_name@) {
                let k = choose|k: int|
                    0 <= k < self.tools_seq().len() && self.tools_seq()[k] == tool_name@;
                assert(self.tools_seq().contains(tool_name@));
            }
        }
        Ok(())
    }

    /// The tools currently on the list, in storage order.
    pub fn get_allowed_tools(&self) -> (r: Vec<String>)
        ensures
            r.deep_view() == self.tools_seq(),
    {
        let n = self.tools.len();
        let mut out: Vec<String> = Vec::new();
        let mut i: usize = 0;
        while i < n
            invariant
                0 <= i <= n,
                n == self.tools@.len(),
                out@ == self.tools@.take(i as int),
            decreases n - i,
        {
            out.push(self.tools[i].clone());
            proof {
                assert(out@ =~= self.tools@.take(i + 1));
            }
            i += 1;
        }
        proof {
            assert(self.tools@.take(n as int) =~= self.tools@);
            assert(out.deep_view() =~= self.tools_seq());
        }
        out
    }

    /// Resets the set to empty.
    pub fn clear(&mut self) -> (r: Result<(), AlwaysAllowError>)
        ensures
            r is Ok,
            final(self).wf(),
            final(self).tools_seq() == Seq::<Seq<char>>::empty(),
    {
        self.tools = Vec::new();
        proof {
            assert(self.tools_seq() =~= Seq::<Seq<char>>::empty());
        }
        Ok(())
    }
}

/// A list with every repetition of an earlier entry dropped: each name
/// keeps the position of its first occurrence.
pub open spec fn dedup_spec(s: Seq<Seq<char>>) -> Seq<Seq<char>>
    decreases s.len(),
{
    if s.len() == 0 {
        Seq::empty()
    } else {
        let head = dedup_spec(s.drop_last());
        if s.drop_last().contains(s.last()) {
            head
        } else {
            head.push(s.last())
        }
    }
}

/// What the persisted allow-list document holds: the string members
/// under its `tools` key, or nothing where the document has no such
/// well-formed member. `encode_allow_list` promises that the document
/// it writes reads back as exactly the encoded names.
pub uninterp spec fn tools_of(doc: Seq<char>) -> Option<Seq<Seq<char>>>;

/// Renders the allow-list as its persisted document: one member under
/// the key `tools`, holding the names. The document decodes back to
/// exactly these names.
pub fn encode_allow_list(tools: &Vec<String>) -> (r: String)
    ensures
        r@ == crate::jsonio::json_obj_of("tools"@, tools.deep_view()),
        tools_of(r@) == Option::Some(tools.deep_view()),
{
    crate::jsonio::json_object_with_string_list("tools", tools)
}

/// Relies on serde_json `from_str`, `Value::get`, `as_array` and
/// `as_str`: the string members of the array under the given key of a
/// JSON object, or nothing. The result depends on the document text
/// and the key alone.
#[verifier::external_body]
fn decode_string_list_doc(content: &str, key: &str) -> (r: Option<Vec<String>>)
    ensures
        key@ == "tools"@ ==> match r {
            Option::Some(v) => tools_of(content@) == Option::Some(v.deep_view()),
            Option::None => tools_of(content@) is None,
        },
{
    match serde_json::from_str::<serde_json::Value>(content) {
        Err(_) => None,
        Ok(v) => match v.get(key) {
            None => None,
            Some(t) => match t.as_array() {
                None => None,
                Some(items) => items.iter().map(|x| x.as_str().map(str::to_owned)).collect(),
            },
        },
    }
}

/// Reads the persisted allow-list document: the names under the key
/// `tools`, exactly as `tools_of` gives them. A document that is not
/// valid JSON, has no such member, or holds anything besides strings
/// there yields nothing, which the store treats as the empty set.
pub fn decode_allow_list(content: &str) -> (r: Option<Vec<String>>)
    ensures
        match r {
            Option::Some(v) => tools_of(content@) == Option::Some(v.deep_view()),
            Option::None => tools_of(content@) is None,
        },
{
    decode_string_list_doc(content, "tools")
}

/// After an add, exactly the old names and the added one are allowed.
pub proof fn lemma_add_membership(pre: AlwaysAllowManager, post: AlwaysAllowManager, x: Seq<char>)
    requires
        AlwaysAllowManager::add_rel(pre, post, x),
    ensures
        forall|t: Seq<char>| post.allows(t) == (pre.allows(t) || t == x),
{
    let s = pre.tools_seq();
    assert forall|t: Seq<char>| post.allows(t) == (pre.allows(t) || t == x) by {
        if pre.allows(x) {
            if t == x {
                assert(pre.allows(t));
            }
        } else {
            assert(post.tools_seq() == s.push(x));
            if pre.allows(t) {
                let k = choose|k: int| 0 <= k < s.len() && s[k] == t;
                assert(post.tools_seq()[k] == t);
                assert(post.allows(t));
            }
            if t == x {
                assert(post.tools_seq()[s.len() as int] == t);
                assert(post.allows(t));
            }
            if post.allows(t) {
                let k = choose|k: int|
                    0 <= k < post.tools_seq().len() && post.tools_seq()[k] == t;
                if k < s.len() {
                    assert(s[k] == t);
                    assert(pre.allows(t));
                } else {
                    assert(t == x);
                }
            }
        }
    }
}

/// Taking one element more extends membership by exactly that element.
proof fn lemma_take_one_more(s: Seq<Seq<char>>, i: int)
    requires
        0 <= i < s.len(),
    ensures
        forall|t: Seq<char>|
            #[trigger] s.take(i + 1).contains(t) == (s.take(i).contains(t) || t == s[i]),
{
    assert forall|t: Seq<char>|
        #[trigger] s.take(i + 1).contains(t) == (s.take(i).contains(t) || t == s[i]) by {
        if s.take(i).contains(t) {
            let k = choose|k: int| 0 <= k < s.take(i).len() && s.take(i)[k] == t;
            assert(s.take(i + 1)[k] == t);
            assert(s.take(i + 1).contains(t));
        }
        if t == s[i] {
            assert(s.take(i + 1)[i] == t);
            assert(s.take(i + 1).contains(t));
        }
        if s.take(i + 1).contains(t) {
            let tk = s.take(i + 1);
            let k = choose|k: int| 0 <= k < tk.len() && tk[k] == t;
            if k < i {
                assert(s.take(i)[k] == t);
                assert(s.take(i).contains(t));
            } else {
                assert(t == s[i]);
            }
        }
    }
}

/// Filtering keeps a duplicate-free sequence duplicate-free.
proof fn lemma_filter_keeps_distinct(s: Seq<Seq<char>>, pred: spec_fn(Seq<char>) -> bool)
    requires
        forall|i: int, j: int| 0 <= i < j < s.len() ==> s[i] != s[j],
    ensures
        forall|i: int, j: int|
            0 <= i < j < s.filter(pred).len() ==> s.filter(pred)[i] != s.filter(pred)[j],
    decreases s.len(),
{
    reveal(Seq::filter);
    if s.len() > 0 {
        let head = s.drop_last();
        lemma_filter_keeps_distinct(head, pred);
        lemma_filter_only_from(head, pred);
        let f = s.filter(pred);
        let fh = head.filter(pred);
        if pred(s.last()) {
            assert(f == fh.push(s.last()));
            assert forall|i: int, j: int| 0 <= i < j < f.len() implies f[i] != f[j] by {
                if j < fh.len() {
                    assert(f[i] == fh[i] && f[j] == fh[j]);
                } else {
                    assert(f[j] == s.last());
                    assert(f[i] == fh[i]);
                    if f[i] == s.last() {
                        assert(fh.contains(s.last()));
                        let k = choose|k: int| 0 <= k < head.len() && head[k] == s.last();
                        assert(s[k] == s.last());
                        assert(s[s.len() - 1] == s.last());
                    }
                }
            }
        }
    }
}

/// Everything the filter keeps was in the sequence and satisfies the
/// predicate.
proof fn lemma_filter_only_from(s: Seq<Seq<char>>, pred: spec_fn(Seq<char>) -> bool)
    ensures
        forall|t: Seq<char>| #[trigger] s.filter(pred).contains(t) ==> s.contains(t) && pred(t),
    decreases s.len(),
{
    reveal(Seq::filter);
    if s.len() > 0 {
        let head = s.drop_last();
        lemma_filter_only_from(head, pred);
        assert forall|t: Seq<char>| #[trigger]
            s.filter(pred).contains(t) implies s.contains(t) && pred(t) by {
            if head.filter(pred).contains(t) {
                let k = choose|k: int| 0 <= k < head.len() && head[k] == t;
                assert(s[k] == t);
                assert(s.contains(t));
            } else {
                let f = s.filter(pred);
                let k = choose|k: int| 0 <= k < f.len() && f[k] == t;
                assert(pred(s.last()) && f == head.filter(pred).push(s.last()));
                assert(t == s.last());
                assert(s[s.len() - 1] == t);
                assert(s.contains(t));
            }
        }
    } else {
        assert(s.filter(pred) =~= Seq::<Seq<char>>::empty());
    }
}

/// A tool that was never added is not allowed; once added it is
/// allowed; once removed afterwards it is not allowed any more.
pub proof fn lemma_allow_lifecycle(
    m0: AlwaysAllowManager,
    m1: AlwaysAllowManager,
    m2: AlwaysAllowManager,
    t: Seq<char>,
)
    requires
        !m0.allows(t),
        AlwaysAllowManager::add_rel(m0, m1, t),
        AlwaysAllowManager::remove_rel(m1, m2, t),
    ensures
        m1.allows(t),
        !m2.allows(t),
{
    lemma_add_membership(m0, m1, t);
    let pred = |x: Seq<char>| x != t;
    lemma_filter_only_from(m1.tools_seq(), pred);
    if m2.allows(t) {
        assert(m2.tools_seq().contains(t));
    }
}

/// Adding a tool twice is the same as adding it once: the second add
/// changes nothing.
pub proof fn lemma_add_idempotent(
    m0: AlwaysAllowManager,
    m1: AlwaysAllowManager,
    m2: AlwaysAllowManager,
    t: Seq<char>,
)
    requires
        AlwaysAllowManager::add_rel(m0, m1, t),
        AlwaysAllowManager::add_rel(m1, m2, t),
        !m0.allows(t),
    ensures
        m1.tools_seq() == m0.tools_seq().push(t),
        m2 == m1,
{
    lemma_add_membership(m0, m1, t);
}

} // verus!

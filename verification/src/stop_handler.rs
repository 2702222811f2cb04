//! Job-completion events: the guard against notification storms, the
//! project name, the last transcript message, and the completion
//! notice.

use vstd::prelude::*;
use crate::split::{split_spec, split_str};
use crate::text::str_eq;
use crate::text::take_n_spec;

verus! {

/// An inbound stop event as the external tool reports it.
#[derive(Debug, Clone)]
pub struct StopInput {
    pub session_id: String,
    pub transcript_path: String,
    pub cwd: String,
    pub stop_hook_active: bool,
}

/// A stop event with its fields taken apart.
#[derive(Debug, Clone)]
pub struct StopEvent {
    pub session_id: String,
    pub transcript_path: String,
    pub cwd: String,
    pub stop_hook_active: bool,
}

impl StopEvent {
    /// Takes an inbound stop event apart.
    pub fn from_input(input: StopInput) -> (r: Self)
        ensures
            r.session_id@ == input.session_id@,
            r.transcript_path@ == input.transcript_path@,
            r.cwd@ == input.cwd@,
            r.stop_hook_active == input.stop_hook_active,
    {
        StopEvent {
            session_id: input.session_id,
            transcript_path: input.transcript_path,
            cwd: input.cwd,
            stop_hook_active: input.stop_hook_active,
        }
    }

    /// The project name shown in notices.
    pub fn get_project_name(&self) -> (r: String)
        ensures
            r@ == project_name_spec(self.cwd@),
    {
        let parts = split_str(self.cwd.as_str(), '/');
        let n = parts.len();
        let mut i: usize = n;
        while i > 0
            invariant
                0 <= i <= n,
                n == parts@.len(),
                parts.deep_view() == split_spec(self.cwd@, '/'),
                forall|j: int| i <= j < n ==> skippable_segment(parts.deep_view()[j]),
            decreases i,
        {
            let part = parts[i - 1].as_str();
            if !part.is_empty() && !str_eq(part, ".") {
                proof {
                    assert(parts.deep_view()[i - 1] == parts@[i - 1]@);
                    lemma_last_named_at(parts.deep_view(), i - 1);
                    assert(last_named(split_spec(self.cwd@, '/')) == Option::Some(
                        parts@[i - 1]@,
                    ));
                }
                if str_eq(part, "..") {
                    return String::from_str("Unknown");
                }
                let result = parts[i - 1].clone();
                proof {
                    assert(result@ == parts@[i - 1]@);
                }
                return result;
            }
            proof {
                assert(parts.deep_view()[i - 1] == parts@[i - 1]@);
            }
            i -= 1;
        }
        proof {
            lemma_last_named_none(parts.deep_view());
        }
        String::from_str("Unknown")
    }
}

/// A path segment that names nothing: empty, or the current-directory
/// dot.
pub open spec fn skippable_segment(p: Seq<char>) -> bool {
    p.len() == 0 || p == "."@
}

/// The last segment that names something, scanning from the end past
/// empty and dot segments.
pub open spec fn last_named(parts: Seq<Seq<char>>) -> Option<Seq<char>>
    decreases parts.len(),
{
    if parts.len() == 0 {
        Option::None
    } else if !skippable_segment(parts.last()) {
        Option::Some(parts.last())
    } else {
        last_named(parts.drop_last())
    }
}

proof fn lemma_last_named_at(parts: Seq<Seq<char>>, i: int)
    requires
        0 <= i < parts.len(),
        !skippable_segment(parts[i]),
        forall|j: int| i < j < parts.len() ==> skippable_segment(parts[j]),
    ensures
        last_named(parts) == Option::Some(parts[i]),
    decreases parts.len(),
{
    if i + 1 < parts.len() {
        let d = parts.drop_last();
        assert forall|j: int| i < j < d.len() implies skippable_segment(d[j]) by {
            assert(d[j] == parts[j]);
        }
        assert(d[i] == parts[i]);
        assert(parts.last() == parts[parts.len() - 1]);
        lemma_last_named_at(d, i);
    } else {
        assert(parts.last() == parts[i]);
    }
}

proof fn lemma_last_named_none(parts: Seq<Seq<char>>)
    requires
        forall|j: int| 0 <= j < parts.len() ==> skippable_segment(parts[j]),
    ensures
        last_named(parts) is None,
    decreases parts.len(),
{
    if parts.len() > 0 {
        let d = parts.drop_last();
        assert forall|j: int| 0 <= j < d.len() implies skippable_segment(d[j]) by {
            assert(d[j] == parts[j]);
        }
        assert(parts.last() == parts[parts.len() - 1]);
        lemma_last_named_none(d);
    }
}

/// The project name of a working directory: its last path segment that
/// names something — dot and empty segments are passed over — or a
/// fixed fallback where none does or where the last one walks upward.
pub open spec fn project_name_spec(cwd: Seq<char>) -> Seq<char> {
    match last_named(split_spec(cwd, '/')) {
        Option::Some(p) => if p == ".."@ {
            "Unknown"@
        } else {
            p
        },
        Option::None => "Unknown"@,
    }
}

/// One line of a transcript, reduced to what the completion notice
/// reads: whether the entry speaks for the assistant, and its text
/// blocks in order.
#[derive(Debug, Clone)]
pub struct TranscriptLine {
    pub is_assistant: bool,
    pub texts: Vec<String>,
}

/// The text that the completion notice summarises: the last text block
/// of the last assistant entry that has one.
pub open spec fn last_assistant_spec(ls: Seq<TranscriptLine>) -> Option<Seq<char>>
    decreases ls.len(),
{
    if ls.len() == 0 {
        Option::None
    } else if ls.last().is_assistant && ls.last().texts@.len() > 0 {
        Option::Some(ls.last().texts.deep_view().last())
    } else {
        last_assistant_spec(ls.drop_last())
    }
}

/// Finds the last assistant text in a transcript.
pub fn last_assistant_message(lines: &Vec<TranscriptLine>) -> (r: Option<String>)
    ensures
        match r {
            Option::Some(s) => last_assistant_spec(lines@) == Option::Some(s@),
            Option::None => last_assistant_spec(lines@) is None,
        },
{
    let n = lines.len();
    let mut i: usize = n;
    proof {
        assert(lines@.take(n as int) =~= lines@);
    }
    while i > 0
        invariant
            0 <= i <= n,
            n == lines@.len(),
            last_assistant_spec(lines@) == last_assistant_spec(lines@.take(i as int)),
        decreases i,
    {
        let line = &lines[i - 1];
        let ghost prefix = lines@.take(i as int);
        proof {
            assert(prefix.last() == lines@[i - 1]);
            assert(prefix.drop_last() =~= lines@.take(i - 1));
        }
        if line.is_assistant && line.texts.len() > 0 {
            let t = line.texts[line.texts.len() - 1].clone();
            proof {
                let tv = lines@[i - 1].texts.deep_view();
                assert(tv.last() == lines@[i - 1].texts@[tv.len() - 1]@);
            }
            return Some(t);
        }
        i -= 1;
    }
    proof {
        assert(lines@.take(0) =~= Seq::<TranscriptLine>::empty());
    }
    None
}

/// Whether a stop event may produce a notice at all: an event raised by
/// an already-running stop hook is suppressed, so a notice can never
/// re-trigger itself.
pub fn should_notify(event: &StopEvent) -> (r: bool)
    ensures
        r == !event.stop_hook_active,
{
    !event.stop_hook_active
}

/// The completion notice: host and project, and a summary of the last
/// assistant text, cut to length with a trailing ellipsis when longer.
pub open spec fn completion_message_spec(
    host: Seq<char>,
    project: Seq<char>,
    last: Option<Seq<char>>,
) -> Seq<char> {
    "\u{2705} **Job Completed**\n\u{1F5A5}\u{FE0F} **Host:** "@ + host + "\n\u{1F4C1} **Project:** "@
        + project + (match last {
        Option::Some(m) => "\n\n**Summary:**\n"@ + (if m.len() > 300 {
            take_n_spec(m, 300) + "..."@
        } else {
            m
        }),
        Option::None => Seq::empty(),
    })
}

/// Renders the completion notice.
pub fn format_completion_message(host: &str, project: &str, last_message: Option<&String>) -> (r:
    String)
    ensures
        r@ == completion_message_spec(
            host@,
            project@,
            match last_message {
                Option::Some(m) => Option::Some(m@),
                Option::None => Option::None,
            },
        ),
{
    let mut out = String::new();
    out.append("\u{2705} **Job Completed**\n\u{1F5A5}\u{FE0F} **Host:** ");
    out.append(host);
    out.append("\n\u{1F4C1} **Project:** ");
    out.append(project);
    match last_message {
        Some(m) => {
            out.append("\n\n**Summary:**\n");
            let mlen = m.as_str().unicode_len();
            if mlen > 300 {
                let cut = crate::text::take_chars(m.as_str(), 300);
                out.append(cut.as_str());
                out.append("...");
            } else {
                out.append(m.as_str());
            }
        },
        None => {},
    }
    out
}

} // verus!

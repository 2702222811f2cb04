//! String utilities shared by the reply parsers and the message
//! formatters: exact equality, case-insensitive keyword matching,
//! truncation by character count, and escaping for chat markup.

use vstd::prelude::*;

verus! {

/// Compares two string slices character by character.
pub fn str_eq(a: &str, b: &str) -> (r: bool)
    ensures
        r == (a@ == b@),
{
    let alen = a.unicode_len();
    let blen = b.unicode_len();
    if alen != blen {
        proof {
            assert(a@ != b@) by {
                if a@ == b@ {
                    assert(a@.len() == b@.len());
                }
            }
        }
        return false;
    }
    let mut i: usize = 0;
    while i < alen
        invariant
            0 <= i <= alen,
            alen == a@.len(),
            alen == b@.len(),
            forall|j: int| 0 <= j < i ==> a@[j] == b@[j],
        decreases alen - i,
    {
        if a.get_char(i) != b.get_char(i) {
            return false;
        }
        i += 1;
    }
    proof {
        assert(a@ =~= b@);
    }
    true
}

/// Character-wise match against a keyword given in its upper-case and
/// lower-case spellings: at each position the candidate must equal one
/// of the two. This is how a decision keyword is recognised without
/// regard to case.
pub open spec fn matches_ci(s: Seq<char>, up: Seq<char>, lo: Seq<char>) -> bool {
    &&& s.len() == up.len()
    &&& forall|j: int| 0 <= j < s.len() ==> (s[j] == up[j] || s[j] == lo[j])
}

/// Case-insensitive keyword match; `up` and `lo` are the two spellings
/// of the keyword, aligned position by position.
pub fn str_matches_ci(s: &str, up: &str, lo: &str) -> (r: bool)
    requires
        up@.len() == lo@.len(),
    ensures
        r == matches_ci(s@, up@, lo@),
{
    let slen = s.unicode_len();
    let ulen = up.unicode_len();
    if slen != ulen {
        return false;
    }
    let mut i: usize = 0;
    while i < slen
        invariant
            0 <= i <= slen,
            slen == s@.len(),
            slen == up@.len(),
            up@.len() == lo@.len(),
            forall|j: int| 0 <= j < i ==> (s@[j] == up@[j] || s@[j] == lo@[j]),
        decreases slen - i,
    {
        let c = s.get_char(i);
        if c != up.get_char(i) && c != lo.get_char(i) {
            return false;
        }
        i += 1;
    }
    true
}

/// The first `n` characters of a text, or all of it when it is
/// shorter.
pub open spec fn take_n_spec(s: Seq<char>, n: int) -> Seq<char> {
    if n <= s.len() {
        s.take(n)
    } else {
        s
    }
}

/// The first `n` characters of `s`, or all of `s` when it is shorter.
pub fn take_chars(s: &str, n: usize) -> (r: String)
    ensures
        r@ == take_n_spec(s@, n as int),
{
    let len = s.unicode_len();
    let end = if n < len {
        n
    } else {
        len
    };
    let part = s.substring_char(0, end);
    proof {
        assert(part@ =~= s@.take(end as int));
        if n > len {
            assert(s@.take(len as int) =~= s@);
        }
    }
    part.to_owned()
}

/// The characters that chat markup requires a preceding backslash for.
pub open spec fn is_markup_special(c: char) -> bool {
    ||| c == '_'
    ||| c == '*'
    ||| c == '['
    ||| c == ']'
    ||| c == '('
    ||| c == ')'
    ||| c == '~'
    ||| c == '`'
    ||| c == '>'
    ||| c == '#'
    ||| c == '+'
    ||| c == '-'
    ||| c == '='
    ||| c == '|'
    ||| c == '{'
    ||| c == '}'
    ||| c == '.'
    ||| c == '!'
}

/// One escaped character: special characters gain a backslash.
pub open spec fn escape_char_spec(c: char) -> Seq<char> {
    if is_markup_special(c) {
        seq!['\\', c]
    } else {
        seq![c]
    }
}

/// The whole escaped text, character by character.
pub open spec fn escape_spec(s: Seq<char>) -> Seq<char>
    decreases s.len(),
{
    if s.len() == 0 {
        Seq::empty()
    } else {
        escape_spec(s.drop_last()) + escape_char_spec(s.last())
    }
}

/// Relies on `String::from_iter` over characters: the string holds
/// exactly the characters of the vector, in order.
#[verifier::external_body]
fn string_from_chars(v: &Vec<char>) -> (r: String)
    ensures
        r@ == v@,
{
    v.iter().collect()
}

fn is_special_char(c: char) -> (r: bool)
    ensures
        r == is_markup_special(c),
{
    c == '_' || c == '*' || c == '[' || c == ']' || c == '(' || c == ')' || c == '~' || c == '`'
        || c == '>' || c == '#' || c == '+' || c == '-' || c == '=' || c == '|' || c == '{'
        || c == '}' || c == '.' || c == '!'
}

/// Escapes the characters that chat markup treats specially, by putting
/// a backslash before each.
pub fn escape_markdown(text: &str) -> (r: String)
    ensures
        r@ == escape_spec(text@),
{
    let len = text.unicode_len();
    let mut out: Vec<char> = Vec::new();
    let mut i: usize = 0;
    while i < len
        invariant
            0 <= i <= len,
            len == text@.len(),
            out@ == escape_spec(text@.take(i as int)),
        decreases len - i,
    {
        let c = text.get_char(i);
        if is_special_char(c) {
            out.push('\\');
        }
        out.push(c);
        proof {
            assert(text@.take(i + 1).drop_last() =~= text@.take(i as int));
            assert(text@.take(i + 1).last() == text@[i as int]);
            assert(out@ =~= escape_spec(text@.take(i as int)) + escape_char_spec(text@[i as int]));
        }
        i += 1;
    }
    proof {
        assert(text@.take(len as int) =~= text@);
    }
    string_from_chars(&out)
}

} // verus!

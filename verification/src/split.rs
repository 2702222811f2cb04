//! Splitting text into parts: on a separator character, and into
//! whitespace-separated tokens. The reply parsers are built on these.

use vstd::prelude::*;

verus! {

/// The position of the first occurrence of `sep`, or the length when
/// there is none.
pub open spec fn find_first(s: Seq<char>, sep: char) -> int
    decreases s.len(),
{
    if s.len() == 0 {
        0
    } else if s[0] == sep {
        0
    } else {
        1 + find_first(s.drop_first(), sep)
    }
}

pub proof fn lemma_find_first_bounds(s: Seq<char>, sep: char)
    ensures
        0 <= find_first(s, sep) <= s.len(),
        find_first(s, sep) < s.len() ==> s[find_first(s, sep)] == sep,
        forall|j: int| 0 <= j < find_first(s, sep) ==> s[j] != sep,
    decreases s.len(),
{
    if s.len() > 0 && s[0] != sep {
        lemma_find_first_bounds(s.drop_first(), sep);
        assert forall|j: int| 0 <= j < find_first(s, sep) implies s[j] != sep by {
            if j > 0 {
                assert(s.drop_first()[j - 1] == s[j]);
            }
        }
        if find_first(s, sep) < s.len() {
            assert(s.drop_first()[find_first(s, sep) - 1] == s[find_first(s, sep)]);
        }
    }
}

/// A position with no separator before it, holding the separator or
/// standing at the end, is where the first separator is found.
pub proof fn lemma_find_first_is(s: Seq<char>, sep: char, i: int)
    requires
        0 <= i <= s.len(),
        forall|j: int| 0 <= j < i ==> s[j] != sep,
        i < s.len() ==> s[i] == sep,
    ensures
        find_first(s, sep) == i,
    decreases s.len(),
{
    if s.len() > 0 && i > 0 {
        assert(s[0] != sep);
        let d = s.drop_first();
        assert forall|j: int| 0 <= j < i - 1 implies d[j] != sep by {
            assert(d[j] == s[j + 1]);
        }
        if i - 1 < d.len() {
            assert(d[i - 1] == s[i]);
        }
        lemma_find_first_is(d, sep, i - 1);
    }
}

#[via_fn]
proof fn split_spec_dec(s: Seq<char>, sep: char) {
    lemma_find_first_bounds(s, sep);
}

/// The parts of `s` between occurrences of `sep`, in order. A string
/// without the separator is one part; every separator ends a part, so
/// `":"` has two empty parts.
pub open spec fn split_spec(s: Seq<char>, sep: char) -> Seq<Seq<char>>
    decreases s.len(),
    via split_spec_dec
{
    let i = find_first(s, sep);
    if i == s.len() {
        seq![s]
    } else {
        seq![s.take(i)] + split_spec(s.skip(i + 1), sep)
    }
}

/// Splits `s` at every occurrence of `sep`.
pub fn split_str(s: &str, sep: char) -> (parts: Vec<String>)
    ensures
        parts.deep_view() == split_spec(s@, sep),
        parts.len() >= 1,
{
    let len = s.unicode_len();
    let mut parts: Vec<String> = Vec::new();
    let mut start: usize = 0;
    let mut i: usize = 0;
    proof {
        assert(s@.skip(0) =~= s@);
        assert(parts.deep_view() + split_spec(s@, sep) =~= split_spec(s@, sep));
    }
    while i < len
        invariant
            0 <= start <= i <= len,
            len == s@.len(),
            forall|j: int| start <= j < i ==> s@[j] != sep,
            parts.deep_view() + split_spec(s@.skip(start as int), sep) == split_spec(s@, sep),
        decreases len - i,
    {
        if s.get_char(i) == sep {
            let ghost pre = parts.deep_view();
            let part = s.substring_char(start, i);
            parts.push(part.to_owned());
            proof {
                let u = s@.skip(start as int);
                let f = i - start;
                assert forall|j: int| 0 <= j < f implies u[j] != sep by {
                    assert(u[j] == s@[start + j]);
                }
                assert(u[f] == s@[i as int]);
                lemma_find_first_is(u, sep, f);
                assert(u.take(f) =~= s@.subrange(start as int, i as int));
                assert(u.skip(f + 1) =~= s@.skip(i + 1));
                assert(split_spec(u, sep) == seq![u.take(f)] + split_spec(s@.skip(i + 1), sep));
                assert(parts.deep_view() =~= pre.push(u.take(f)));
                assert(parts.deep_view() + split_spec(s@.skip(i + 1), sep) =~= pre + split_spec(
                    u,
                    sep,
                ));
            }
            start = i + 1;
        }
        i += 1;
    }
    let ghost pre = parts.deep_view();
    let part = s.substring_char(start, len);
    parts.push(part.to_owned());
    proof {
        let u = s@.skip(start as int);
        assert forall|j: int| 0 <= j < u.len() implies u[j] != sep by {
            assert(u[j] == s@[start + j]);
        }
        lemma_find_first_is(u, sep, u.len() as int);
        assert(split_spec(u, sep) == seq![u]);
        assert(u =~= s@.subrange(start as int, len as int));
        assert(parts.deep_view() =~= pre.push(u));
        assert(parts.deep_view() =~= pre + split_spec(u, sep));
    }
    parts
}

/// Whitespace for the purpose of tokenising replies. Deliberately the
/// ASCII set only: the reply commands and their separators are ASCII,
/// and a reply token containing an exotic Unicode space simply fails
/// to match a keyword or an id, which the wait loop then skips —
/// exactly what happens to any other malformed reply.
pub open spec fn is_space(c: char) -> bool {
    c == ' ' || c == '\t' || c == '\n' || c == '\r'
}

fn char_is_space(c: char) -> (r: bool)
    ensures
        r == is_space(c),
{
    c == ' ' || c == '\t' || c == '\n' || c == '\r'
}

/// The position of the first whitespace character, or the length when
/// there is none.
pub open spec fn find_space(s: Seq<char>) -> int
    decreases s.len(),
{
    if s.len() == 0 {
        0
    } else if is_space(s[0]) {
        0
    } else {
        1 + find_space(s.drop_first())
    }
}

pub proof fn lemma_find_space_bounds(s: Seq<char>)
    ensures
        0 <= find_space(s) <= s.len(),
        find_space(s) < s.len() ==> is_space(s[find_space(s)]),
        forall|j: int| 0 <= j < find_space(s) ==> !is_space(s[j]),
    decreases s.len(),
{
    if s.len() > 0 && !is_space(s[0]) {
        lemma_find_space_bounds(s.drop_first());
        assert forall|j: int| 0 <= j < find_space(s) implies !is_space(s[j]) by {
            if j > 0 {
                assert(s.drop_first()[j - 1] == s[j]);
            }
        }
        if find_space(s) < s.len() {
            assert(s.drop_first()[find_space(s) - 1] == s[find_space(s)]);
        }
    }
}

pub proof fn lemma_find_space_is(s: Seq<char>, i: int)
    requires
        0 <= i <= s.len(),
        forall|j: int| 0 <= j < i ==> !is_space(s[j]),
        i < s.len() ==> is_space(s[i]),
    ensures
        find_space(s) == i,
    decreases s.len(),
{
    if s.len() > 0 && i > 0 {
        assert(!is_space(s[0]));
        let d = s.drop_first();
        assert forall|j: int| 0 <= j < i - 1 implies !is_space(d[j]) by {
            assert(d[j] == s[j + 1]);
        }
        if i - 1 < d.len() {
            assert(d[i - 1] == s[i]);
        }
        lemma_find_space_is(d, i - 1);
    }
}

#[via_fn]
proof fn tokens_spec_dec(s: Seq<char>) {
    lemma_find_space_bounds(s);
    if s.len() > 0 && !is_space(s[0]) {
        assert(find_space(s) == 1 + find_space(s.drop_first()));
        lemma_find_space_bounds(s.drop_first());
    }
}

/// The maximal runs of non-whitespace characters, in order.
pub open spec fn tokens_spec(s: Seq<char>) -> Seq<Seq<char>>
    decreases s.len(),
    via tokens_spec_dec
{
    if s.len() == 0 {
        Seq::empty()
    } else if is_space(s[0]) {
        tokens_spec(s.drop_first())
    } else {
        let i = find_space(s);
        seq![s.take(i)] + tokens_spec(s.skip(i))
    }
}

/// A text built of two space-free words around one space tokenises to
/// exactly those words.
pub proof fn lemma_tokens_two(s: Seq<char>, x: Seq<char>, y: Seq<char>)
    requires
        s == x + seq![' '] + y,
        x.len() > 0,
        y.len() > 0,
        forall|j: int| 0 <= j < x.len() ==> !is_space(x[j]),
        forall|j: int| 0 <= j < y.len() ==> !is_space(y[j]),
    ensures
        tokens_spec(s) == seq![x, y],
{
    let n = x.len() as int;
    assert forall|j: int| 0 <= j < n implies !is_space(s[j]) by {
        assert(s[j] == x[j]);
    }
    assert(s[n] == ' ');
    assert(!is_space(s[0]));
    lemma_find_space_is(s, n);
    assert(s.take(n) =~= x);
    let u = s.skip(n);
    assert(u[0] == ' ');
    assert(tokens_spec(s) == seq![x] + tokens_spec(u));
    assert(u.drop_first() =~= y);
    assert(tokens_spec(u) == tokens_spec(y));
    assert(!is_space(y[0]));
    lemma_find_space_is(y, y.len() as int);
    assert(y.take(y.len() as int) =~= y);
    assert(y.skip(y.len() as int) =~= Seq::<char>::empty());
    assert(tokens_spec(Seq::<char>::empty()) == Seq::<Seq<char>>::empty());
    assert(tokens_spec(y) == seq![y]);
    assert(tokens_spec(s) =~= seq![x, y]);
}

/// Splits `s` into whitespace-separated tokens.
pub fn split_tokens(s: &str) -> (parts: Vec<String>)
    ensures
        parts.deep_view() == tokens_spec(s@),
{
    let len = s.unicode_len();
    let mut parts: Vec<String> = Vec::new();
    let mut i: usize = 0;
    proof {
        assert(s@.skip(0) =~= s@);
        assert(parts.deep_view() + tokens_spec(s@) =~= tokens_spec(s@));
    }
    while i < len
        invariant
            0 <= i <= len,
            len == s@.len(),
            parts.deep_view() + tokens_spec(s@.skip(i as int)) == tokens_spec(s@),
        decreases len - i,
    {
        if char_is_space(s.get_char(i)) {
            proof {
                let u = s@.skip(i as int);
                assert(u[0] == s@[i as int]);
                assert(tokens_spec(u) == tokens_spec(u.drop_first()));
                assert(u.drop_first() =~= s@.skip(i + 1));
            }
            i += 1;
        } else {
            let token_start = i;
            let mut j: usize = i + 1;
            while j < len
                invariant
                    token_start < j <= len,
                    len == s@.len(),
                    forall|k: int| token_start <= k < j ==> !is_space(s@[k]),
                ensures
                    token_start < j <= len,
                    len == s@.len(),
                    forall|k: int| token_start <= k < j ==> !is_space(s@[k]),
                    j < len ==> is_space(s@[j as int]),
                decreases len - j,
            {
                if char_is_space(s.get_char(j)) {
                    break ;
                }
                j += 1;
            }
            let ghost pre = parts.deep_view();
            let part = s.substring_char(token_start, j);
            parts.push(part.to_owned());
            proof {
                let u = s@.skip(token_start as int);
                let f = j - token_start;
                assert forall|k: int| 0 <= k < f implies !is_space(u[k]) by {
                    assert(u[k] == s@[token_start + k]);
                }
                if f < u.len() {
                    assert(u[f] == s@[j as int]);
                }
                lemma_find_space_is(u, f);
                assert(!is_space(u[0]));
                assert(tokens_spec(u) == seq![u.take(f)] + tokens_spec(u.skip(f)));
                assert(u.take(f) =~= s@.subrange(token_start as int, j as int));
                assert(u.skip(f) =~= s@.skip(j as int));
                assert(parts.deep_view() =~= pre.push(u.take(f)));
                assert(parts.deep_view() + tokens_spec(s@.skip(j as int)) =~= pre + tokens_spec(
                    u,
                ));
            }
            i = j;
        }
    }
    proof {
        assert(s@.skip(len as int) =~= Seq::<char>::empty());
        assert(tokens_spec(Seq::<char>::empty()) == Seq::<Seq<char>>::empty());
        assert(parts.deep_view() =~= parts.deep_view() + Seq::<Seq<char>>::empty());
    }
    parts
}

} // verus!

//! Decimal number parsing for configuration values: chat and user
//! identifiers arrive as text and must be read exactly, with overflow
//! rejected.

use vstd::prelude::*;

verus! {

/// Whether a character is a decimal digit.
pub open spec fn is_digit(c: char) -> bool {
    48 <= c as u32 <= 57
}

/// The value of a decimal digit.
pub open spec fn digit_val(c: char) -> int {
    c as u32 - 48
}

/// Whether every character is a decimal digit.
pub open spec fn all_digits(s: Seq<char>) -> bool {
    forall|i: int| 0 <= i < s.len() ==> is_digit(s[i])
}

/// The value of a digit string, most significant first.
pub open spec fn digits_val(s: Seq<char>) -> int
    decreases s.len(),
{
    if s.len() == 0 {
        0
    } else {
        digits_val(s.drop_last()) * 10 + digit_val(s.last())
    }
}

/// A string of digits has a value that is not negative.
pub proof fn lemma_digits_val_nonneg(s: Seq<char>)
    requires
        all_digits(s),
    ensures
        digits_val(s) >= 0,
    decreases s.len(),
{
    if s.len() > 0 {
        let d = s.drop_last();
        assert forall|j: int| 0 <= j < d.len() implies is_digit(d[j]) by {
            assert(d[j] == s[j]);
        }
        lemma_digits_val_nonneg(d);
        assert(is_digit(s[s.len() - 1]));
    }
}

/// A digit string is worth at least any of its prefixes.
pub proof fn lemma_digits_val_monotone(s: Seq<char>, k: int)
    requires
        all_digits(s),
        0 <= k <= s.len(),
    ensures
        digits_val(s) >= digits_val(s.take(k)),
    decreases s.len() - k,
{
    if k < s.len() {
        let t = s.take(k + 1);
        assert(t.drop_last() =~= s.take(k));
        assert(t.last() == s[k]);
        assert(is_digit(s[k]));
        assert forall|j: int| 0 <= j < s.take(k).len() implies is_digit(s.take(k)[j]) by {
            assert(s.take(k)[j] == s[j]);
        }
        lemma_digits_val_nonneg(s.take(k));
        assert(digits_val(t) == digits_val(s.take(k)) * 10 + digit_val(s[k]));
        assert(digits_val(t) >= digits_val(s.take(k)));
        lemma_digits_val_monotone(s, k + 1);
    } else {
        assert(s.take(k) =~= s);
    }
}

/// Reads an unsigned decimal number: the whole text must be one or
/// more digits, and the value must fit.
pub fn parse_u64(s: &str) -> (r: Option<u64>)
    ensures
        r is Some <==> (s@.len() > 0 && all_digits(s@) && digits_val(s@) <= u64::MAX),
        r is Some ==> r->0 == digits_val(s@),
{
    let len = s.unicode_len();
    if len == 0 {
        return None;
    }
    let mut acc: u64 = 0;
    let mut i: usize = 0;
    proof {
        assert(s@.take(0) =~= Seq::<char>::empty());
    }
    while i < len
        invariant
            0 <= i <= len,
            len == s@.len(),
            all_digits(s@.take(i as int)),
            acc == digits_val(s@.take(i as int)),
        decreases len - i,
    {
        let c = s.get_char(i);
        let u = c as u32;
        if u < 48 || u > 57 {
            proof {
                assert(!is_digit(s@[i as int]));
            }
            return None;
        }
        let d = (u - 48) as u64;
        let ghost prefix = s@.take(i as int);
        proof {
            let t = s@.take(i + 1);
            assert(t.drop_last() =~= prefix);
            assert(t.last() == s@[i as int]);
            assert forall|j: int| 0 <= j < t.len() implies is_digit(t[j]) by {
                if j < i {
                    assert(t[j] == prefix[j]);
                } else {
                    assert(t[j] == s@[i as int]);
                }
            }
        }
        let stepped = match acc.checked_mul(10) {
            Some(m) => m.checked_add(d),
            None => None,
        };
        match stepped {
            Some(v) => {
                acc = v;
            },
            None => {
                proof {
                    assert(digits_val(s@.take(i + 1)) > u64::MAX);
                    if all_digits(s@) {
                        lemma_digits_val_monotone(s@, i + 1);
                    }
                }
                return None;
            },
        }
        i += 1;
    }
    proof {
        assert(s@.take(len as int) =~= s@);
    }
    Some(acc)
}

/// The digit part of a signed decimal text: everything after a leading
/// sign, or the whole text.
pub open spec fn int_body(s: Seq<char>) -> Seq<char> {
    if s.len() > 0 && (s[0] == '+' || s[0] == '-') {
        s.drop_first()
    } else {
        s
    }
}

/// Whether a signed decimal text is negative.
pub open spec fn int_negative(s: Seq<char>) -> bool {
    s.len() > 0 && s[0] == '-'
}

/// Whether a text is a well-formed signed decimal number.
pub open spec fn int_text_valid(s: Seq<char>) -> bool {
    int_body(s).len() > 0 && all_digits(int_body(s))
}

/// The value of a well-formed signed decimal text.
pub open spec fn int_text_val(s: Seq<char>) -> int {
    if int_negative(s) {
        -digits_val(int_body(s))
    } else {
        digits_val(int_body(s))
    }
}

/// Reads a signed decimal number: an optional sign, then one or more
/// digits, and the value must fit.
pub fn parse_i64(s: &str) -> (r: Option<i64>)
    ensures
        r is Some <==> (int_text_valid(s@) && i64::MIN <= int_text_val(s@) <= i64::MAX),
        r is Some ==> r->0 == int_text_val(s@),
{
    let len = s.unicode_len();
    let mut negative = false;
    let mut start: usize = 0;
    if len > 0 {
        let c = s.get_char(0);
        if c == '-' {
            negative = true;
            start = 1;
        } else if c == '+' {
            start = 1;
        }
    }
    let body = s.substring_char(start, len);
    proof {
        assert(body@ =~= int_body(s@));
        if int_text_valid(s@) {
            lemma_digits_val_nonneg(int_body(s@));
        }
    }
    match parse_u64(body) {
        None => {
            proof {
                if int_text_valid(s@) {
                    if digits_val(int_body(s@)) > u64::MAX {
                        assert(int_text_val(s@) > i64::MAX || int_text_val(s@) < i64::MIN);
                    }
                }
            }
            None
        },
        Some(mag) => {
            if negative {
                if mag > 9223372036854775808u64 {
                    return None;
                }
                if mag == 9223372036854775808u64 {
                    Some(i64::MIN)
                } else {
                    Some(-(mag as i64))
                }
            } else {
                if mag > 9223372036854775807u64 {
                    return None;
                }
                Some(mag as i64)
            }
        },
    }
}

} // verus!

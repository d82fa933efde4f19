//! Parsing a field as a base-10 signed 64-bit integer, with a contract that
//! matches the standard library's integer parsing exactly: an optional sign,
//! then at least one ASCII digit, and a value within the `i64` range.

use vstd::prelude::*;
use vstd::string::StrSliceExecFns;

verus! {

pub open spec fn is_digit_char(c: char) -> bool {
    '0' <= c && c <= '9'
}

pub open spec fn digit_val(c: char) -> int {
    c as int - '0' as int
}

pub open spec fn all_digits(s: Seq<char>) -> bool {
    forall|i: int| 0 <= i < s.len() ==> is_digit_char(#[trigger] s[i])
}

/// The value of a sequence of digits, most significant first.
pub open spec fn digits_value(s: Seq<char>) -> int
    decreases s.len(),
{
    if s.len() == 0 {
        0
    } else {
        digits_value(s.drop_last()) * 10 + digit_val(s.last())
    }
}

/// The digits of an integer literal: everything after an optional sign.
pub open spec fn int_body(s: Seq<char>) -> Seq<char> {
    if s.len() > 0 && (s[0] == '+' || s[0] == '-') {
        s.drop_first()
    } else {
        s
    }
}

pub open spec fn is_negative_literal(s: Seq<char>) -> bool {
    s.len() > 0 && s[0] == '-'
}

/// The mathematical value of an integer literal (of any magnitude).
pub open spec fn int_literal_value(s: Seq<char>) -> int {
    if is_negative_literal(s) {
        -digits_value(int_body(s))
    } else {
        digits_value(int_body(s))
    }
}

/// The strings accepted as `i64` literals: an optional `'+'` or `'-'`, then
/// one or more ASCII digits, denoting a value within the `i64` range.
pub open spec fn is_i64_literal(s: Seq<char>) -> bool {
    &&& int_body(s).len() > 0
    &&& all_digits(int_body(s))
    &&& i64::MIN <= int_literal_value(s) <= i64::MAX
}

pub proof fn lemma_digits_value_nonneg(s: Seq<char>)
    requires
        all_digits(s),
    ensures
        digits_value(s) >= 0,
    decreases s.len(),
{
    if s.len() > 0 {
        assert(all_digits(s.drop_last())) by {
            assert(forall|i: int|
                0 <= i < s.len() - 1 ==> s.drop_last()[i] == #[trigger] s[i]);
        }
        lemma_digits_value_nonneg(s.drop_last());
    }
}

/// A prefix of a digit string never exceeds the whole string's value.
pub proof fn lemma_digits_value_prefix_le(s: Seq<char>, i: int)
    requires
        all_digits(s),
        0 <= i <= s.len(),
    ensures
        digits_value(s.subrange(0, i)) <= digits_value(s),
    decreases s.len() - i,
{
    if i == s.len() {
        assert(s.subrange(0, i) =~= s);
    } else {
        let shorter = s.subrange(0, i);
        let longer = s.subrange(0, i + 1);
        assert(longer.drop_last() =~= shorter);
        assert(all_digits(shorter));
        lemma_digits_value_nonneg(shorter);
        assert(digits_value(longer) == digits_value(shorter) * 10 + digit_val(s[i]));
        assert(digits_value(shorter) * 10 >= digits_value(shorter)) by (nonlinear_arith)
            requires digits_value(shorter) >= 0;
        lemma_digits_value_prefix_le(s, i + 1);
    }
}

/// Parses `s` as a base-10 signed 64-bit integer. Returns `Some` exactly on
/// the strings the standard library's `i64` parsing accepts, with the same
/// value; `None` on everything else, including values out of range.
pub fn parse_i64(s: &str) -> (r: Option<i64>)
    ensures
        r is Some <==> is_i64_literal(s@),
        r matches Some(v) ==> v as int == int_literal_value(s@),
{
    let n = s.unicode_len();
    if n == 0 {
        return None;
    }
    let c0 = s.get_char(0);
    let neg = c0 == '-';
    let has_sign = neg || c0 == '+';
    let start: usize = if has_sign { 1 } else { 0 };
    if start >= n {
        // A bare sign has no digits.
        return None;
    }
    let ghost body = int_body(s@);
    proof {
        if has_sign {
            assert(body =~= s@.subrange(1, n as int));
        } else {
            assert(body =~= s@.subrange(0, n as int));
            assert(body =~= s@);
        }
    }
    let bound: u128 = if neg { 9223372036854775808 } else { 9223372036854775807 };
    let mut mag: u128 = 0;
    let mut i: usize = start;
    proof {
        assert(body.subrange(0, 0) =~= Seq::<char>::empty());
    }
    while i < n
        invariant
            start <= i <= n,
            n == s@.len(),
            start == (if has_sign { 1int } else { 0int }),
            body == int_body(s@),
            body.len() == n - start,
            forall|j: int| 0 <= j < body.len() ==> body[j] == s@[j + start],
            all_digits(body.subrange(0, i - start)),
            mag == digits_value(body.subrange(0, i - start)),
            mag <= bound,
            bound == (if neg { 9223372036854775808u128 } else { 9223372036854775807u128 }),
            neg == is_negative_literal(s@),
        decreases n - i,
    {
        let ghost k = i - start;
        let ghost pref = body.subrange(0, k);
        let ghost next_pref = body.subrange(0, k + 1);
        proof {
            assert(next_pref.drop_last() =~= pref);
            assert(next_pref.last() == body[k]);
        }
        let c = s.get_char(i);
        let code = c as u32;
        if code < 48 || code > 57 {
            proof {
                assert(!is_digit_char(body[k]));
            }
            return None;
        }
        let digit = (code - 48) as u128;
        proof {
            assert(is_digit_char(body[k]));
            assert(digit == digit_val(body[k]));
            assert(all_digits(next_pref));
        }
        if mag * 10 + digit > bound {
            // The digits seen so far already overflow the i64 range, and
            // further digits can only increase the magnitude.
            proof {
                assert(digits_value(next_pref) > bound);
                if all_digits(body) {
                    lemma_digits_value_prefix_le(body, k + 1);
                    assert(digits_value(body) > bound);
                }
            }
            return None;
        }
        mag = mag * 10 + digit;
        i += 1;
    }
    proof {
        assert(body.subrange(0, n - start) =~= body);
        assert(is_i64_literal(s@));
    }
    if neg {
        if mag == 9223372036854775808 {
            Some(i64::MIN)
        } else {
            Some(-((mag as i64)))
        }
    } else {
        Some(mag as i64)
    }
}

} // verus!

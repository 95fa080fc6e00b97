//! Validation of the raw command-line values that the destination
//! resolution run depends on: the simulation specification path and the
//! thread-count override.

use vstd::prelude::*;
use vstd::string::*;

verus! {

/// A decimal digit.
pub open spec fn is_digit(c: char) -> bool {
    '0' <= c && c <= '9'
}

/// The numeric value of a digit character.
pub open spec fn digit_val(c: char) -> int {
    (c as u32) as int - 48
}

/// Whether every character of `s` is a decimal digit.
pub open spec fn all_digits(s: Seq<char>) -> bool {
    forall|i: int| 0 <= i < s.len() ==> is_digit(#[trigger] s[i])
}

/// The numeric value of a digit string, most significant digit first.
pub open spec fn decimal_value(s: Seq<char>) -> int
    decreases s.len(),
{
    if s.len() == 0 {
        0
    } else {
        decimal_value(s.drop_last()) * 10 + digit_val(s.last())
    }
}

/// The digits of a decimal literal: an optional leading `+` sign is
/// dropped.
pub open spec fn digits_part(s: Seq<char>) -> Seq<char> {
    if s.len() > 0 && s[0] == '+' {
        s.skip(1)
    } else {
        s
    }
}

/// Whether `s` is a decimal literal whose value fits in `usize`: an
/// optional `+` sign followed by at least one digit.
pub open spec fn is_usize_decimal(s: Seq<char>) -> bool {
    &&& digits_part(s).len() > 0
    &&& all_digits(digits_part(s))
    &&& decimal_value(digits_part(s)) <= usize::MAX as int
}

/// The value of a digit string is nonnegative.
proof fn lemma_decimal_nonneg(s: Seq<char>)
    requires
        all_digits(s),
    ensures
        decimal_value(s) >= 0,
    decreases s.len(),
{
    if s.len() > 0 {
        assert(all_digits(s.drop_last())) by {
            assert(forall|i: int|
                0 <= i < s.drop_last().len() ==> is_digit(#[trigger] s.drop_last()[i]));
        }
        lemma_decimal_nonneg(s.drop_last());
        assert(is_digit(s[s.len() - 1]));
    }
}

/// Extending a digit string never decreases its value.
proof fn lemma_decimal_prefix(s: Seq<char>, k: int)
    requires
        all_digits(s),
        0 <= k <= s.len(),
    ensures
        decimal_value(s) >= decimal_value(s.take(k)),
    decreases s.len(),
{
    if k < s.len() {
        assert(all_digits(s.drop_last())) by {
            assert(forall|i: int|
                0 <= i < s.drop_last().len() ==> is_digit(#[trigger] s.drop_last()[i]));
        }
        assert(s.drop_last().take(k) =~= s.take(k));
        lemma_decimal_prefix(s.drop_last(), k);
        lemma_decimal_nonneg(s.drop_last());
        assert(is_digit(s[s.len() - 1]));
    } else {
        assert(s.take(k) =~= s);
    }
}

/// Parses a decimal thread count: an optional `+` sign followed by digits,
/// whose value fits in `usize`. Returns `None` on anything else, including
/// overflow.
pub fn parse_thread_count(s: &str) -> (r: Option<usize>)
    ensures
        match r {
            Some(n) => is_usize_decimal(s@) && n == decimal_value(digits_part(s@)),
            None => !is_usize_decimal(s@),
        },
{
    let len = s.unicode_len();
    let start: usize = if len > 0 && s.get_char(0) == '+' {
        1
    } else {
        0
    };
    proof {
        assert(s@.subrange(start as int, len as int) =~= digits_part(s@));
    }
    if start == len {
        return None;
    }
    let ghost digits = digits_part(s@);
    let mut val: usize = 0;
    let mut i: usize = start;
    proof {
        assert(s@.subrange(start as int, start as int) =~= Seq::<char>::empty());
    }
    while i < len
        invariant
            start <= i <= len,
            len == s@.len(),
            digits == s@.subrange(start as int, len as int),
            digits == digits_part(s@),
            all_digits(s@.subrange(start as int, i as int)),
            val == decimal_value(s@.subrange(start as int, i as int)),
        decreases len - i,
    {
        let ghost prefix = s@.subrange(start as int, i as int);
        let c = s.get_char(i);
        if !('0' <= c && c <= '9') {
            proof {
                assert(digits[i - start] == c);
            }
            return None;
        }
        let d = (c as u32 - 48) as usize;
        let grown = match val.checked_mul(10) {
            Some(v) => v.checked_add(d),
            None => None,
        };
        proof {
            assert(s@.subrange(start as int, i + 1).drop_last() =~= prefix);
            assert(s@.subrange(start as int, i + 1).last() == c);
        }
        match grown {
            Some(v) => {
                val = v;
            },
            None => {
                proof {
                    assert(digit_val(c) == d);
                    assert(decimal_value(s@.subrange(start as int, i + 1)) == val * 10 + d);
                    assert(val * 10 + d > usize::MAX as int);
                    if all_digits(digits) {
                        assert(digits.take(i + 1 - start) =~= s@.subrange(start as int, i + 1));
                        lemma_decimal_prefix(digits, i + 1 - start);
                    }
                }
                return None;
            },
        }
        i = i + 1;
        proof {
            assert(all_digits(s@.subrange(start as int, i as int))) by {
                assert(forall|j: int|
                    0 <= j < i - start ==> #[trigger] s@.subrange(start as int, i as int)[j]
                        == s@[start + j]);
                assert(forall|j: int| 0 <= j < i - 1 - start ==> is_digit(#[trigger] prefix[j]));
                assert(forall|j: int| 0 <= j < i - 1 - start ==> prefix[j] == s@[start + j]);
            }
        }
    }
    proof {
        assert(s@.subrange(start as int, len as int) == digits);
    }
    Some(val)
}

/// Accepts any nonempty simulation specification path and rejects the empty
/// one with a diagnostic message.
pub fn validate_simulation_spec(simulation_spec_file: String) -> (r: Result<(), String>)
    ensures
        r is Ok <==> simulation_spec_file@.len() > 0,
        r matches Err(m) ==> m@ == "Specified simulation spec file path is empty"@,
{
    if simulation_spec_file.as_str().is_empty() {
        Err("Specified simulation spec file path is empty".to_owned())
    } else {
        Ok(())
    }
}

/// Accepts a thread-count override exactly when it is a decimal literal
/// whose value fits in `usize`, and rejects anything else with a diagnostic
/// message naming the offending value.
pub fn validate_thread_count(thread_count: String) -> (r: Result<(), String>)
    ensures
        r is Ok <==> is_usize_decimal(thread_count@),
        r matches Err(m) ==> m@ == "Invalid thread count specified: "@ + thread_count@,
{
    match parse_thread_count(thread_count.as_str()) {
        Some(_) => Ok(()),
        None => {
            let mut m = "Invalid thread count specified: ".to_owned();
            m.append(thread_count.as_str());
            Err(m)
        },
    }
}

} // verus!

//! Verified parsing of signed decimal integer literals: an optional sign
//! followed by one or more digits, rejected when the value does not fit.

use vstd::prelude::*;

verus! {

/// Whether `c` is a decimal digit.
pub open spec fn is_digit(c: char) -> bool {
    48 <= c as int && c as int <= 57
}

/// The numeric value of a digit character.
pub open spec fn digit_val(c: char) -> int {
    c as int - 48
}

/// Whether every character of `s` is a decimal digit.
pub open spec fn all_digits(s: Seq<char>) -> bool {
    forall|i: int| 0 <= i < s.len() ==> is_digit(s[i])
}

/// The value of a digit string read in base ten.
pub open spec fn digits_value(s: Seq<char>) -> int
    decreases s.len(),
{
    if s.len() == 0 {
        0
    } else {
        digits_value(s.drop_last()) * 10 + digit_val(s.last())
    }
}

/// The digit portion of a literal: everything after an optional leading
/// sign.
pub open spec fn digits_of(s: Seq<char>) -> Seq<char> {
    if s.len() > 0 && (s[0] == '+' || s[0] == '-') {
        s.drop_first()
    } else {
        s
    }
}

/// Whether the literal carries a leading minus sign.
pub open spec fn is_negative_literal(s: Seq<char>) -> bool {
    s.len() > 0 && s[0] == '-'
}

/// Whether `s` is a well-formed integer literal: an optional sign followed
/// by at least one digit.
pub open spec fn is_int_literal(s: Seq<char>) -> bool {
    digits_of(s).len() > 0 && all_digits(digits_of(s))
}

/// The mathematical value of a well-formed integer literal.
pub open spec fn int_literal_value(s: Seq<char>) -> int {
    if is_negative_literal(s) {
        -digits_value(digits_of(s))
    } else {
        digits_value(digits_of(s))
    }
}

/// The value of a digit string is never negative.
pub proof fn lemma_digits_value_nonneg(s: Seq<char>)
    requires
        all_digits(s),
    ensures
        digits_value(s) >= 0,
    decreases s.len(),
{
    if s.len() > 0 {
        assert(all_digits(s.drop_last())) by {
            assert(forall|i: int| 0 <= i < s.drop_last().len() ==> s.drop_last()[i] == s[i]);
        }
        lemma_digits_value_nonneg(s.drop_last());
    }
}

/// Extending a digit string never shrinks its value.
pub proof fn lemma_digits_value_prefix_le(s: Seq<char>, j: int)
    requires
        all_digits(s),
        0 <= j <= s.len(),
    ensures
        digits_value(s.take(j)) <= digits_value(s),
    decreases s.len() - j,
{
    if j < s.len() {
        assert(all_digits(s.take(j))) by {
            assert(forall|i: int| 0 <= i < j ==> s.take(j)[i] == s[i]);
        }
        lemma_digits_value_nonneg(s.take(j));
        assert(s.take(j + 1).drop_last() =~= s.take(j));
        assert(s.take(j + 1).last() == s[j]);
        assert(digits_value(s.take(j + 1)) == digits_value(s.take(j)) * 10 + digit_val(s[j]));
        lemma_digits_value_prefix_le(s, j + 1);
        assert(s.take(s.len() as int) =~= s);
    } else {
        assert(s.take(j) =~= s);
    }
}

/// Parse a signed decimal integer, accepting exactly the strings made of
/// an optional sign and one or more digits whose value fits the result
/// type, as the standard library's integer parsing does.
pub fn parse_i32(s: &str) -> (r: Option<i32>)
    ensures
        r is Some <==> is_int_literal(s@) && i32::MIN <= int_literal_value(s@)
            && int_literal_value(s@) <= i32::MAX,
        r matches Some(n) ==> n == int_literal_value(s@),
{
    let n = s.unicode_len();
    if n == 0 {
        return None;
    }
    let first = s.get_char(0);
    let first_code = first as u32;
    let negative = first_code == 45;
    let has_sign = first_code == 45 || first_code == 43;
    let start: usize = if has_sign {
        1
    } else {
        0
    };
    proof {
        assert(negative == is_negative_literal(s@));
        assert(digits_of(s@) =~= s@.subrange(start as int, n as int));
    }
    if start == n {
        return None;
    }
    let ghost digits = s@.subrange(start as int, n as int);
    let mut acc: i64 = 0;
    let mut i: usize = start;
    while i < n
        invariant
            start <= i <= n,
            n == s@.len(),
            start == 1 ==> n >= 1,
            start <= 1,
            digits == s@.subrange(start as int, n as int),
            digits == digits_of(s@),
            negative == is_negative_literal(s@),
            all_digits(digits.take(i - start)),
            acc == digits_value(digits.take(i - start)),
            0 <= acc <= 2147483648,
        decreases n - i,
    {
        let c = s.get_char(i);
        let code = c as u32;
        if code < 48 || code > 57 {
            proof {
                assert(digits[i - start] == s@[i as int]);
                assert(!is_digit(digits[i - start]));
                assert(!all_digits(digits));
                assert(digits_of(s@) == digits);
                assert(!is_int_literal(s@));
            }
            return None;
        }
        let d: i64 = (code - 48) as i64;
        let next_acc: i64 = acc * 10 + d;
        proof {
            assert(digits.take(i + 1 - start).drop_last() =~= digits.take(i - start));
            assert(digits.take(i + 1 - start).last() == digits[i - start]);
            assert(digits[i - start] == s@[i as int]);
            assert(all_digits(digits.take(i + 1 - start)));
            assert(next_acc == digits_value(digits.take(i + 1 - start)));
        }
        if next_acc > 2147483648 {
            // The value can no longer fit; the remaining characters only
            // decide whether the text is a literal at all.
            let mut j: usize = i + 1;
            while j < n
                invariant
                    i + 1 <= j <= n,
                    n == s@.len(),
                    start <= i < n,
                    digits == s@.subrange(start as int, n as int),
                    digits == digits_of(s@),
                    negative == is_negative_literal(s@),
                    start <= 1 <= i + 1,
                    all_digits(digits.take(j - start)),
                decreases n - j,
            {
                let c2 = s.get_char(j);
                let code2 = c2 as u32;
                if code2 < 48 || code2 > 57 {
                    proof {
                        assert(digits[j - start] == s@[j as int]);
                        assert(!is_digit(digits[j - start]));
                        assert(!all_digits(digits));
                        assert(digits_of(s@) == digits);
                        assert(!is_int_literal(s@));
                    }
                    return None;
                }
                proof {
                    assert(digits.take(j + 1 - start).drop_last() =~= digits.take(j - start));
                    assert(digits.take(j + 1 - start).last() == digits[j - start]);
                    assert(digits[j - start] == s@[j as int]);
                }
                j += 1;
            }
            proof {
                assert(digits.take(n - start) =~= digits);
                lemma_digits_value_prefix_le(digits, i + 1 - start);
                assert(digits_value(digits) >= digits_value(digits.take(i + 1 - start)));
                assert(digits_value(digits) > 2147483648);
                assert(digits_of(s@) == digits);
                assert(negative ==> int_literal_value(s@) < i32::MIN);
                assert(!negative ==> int_literal_value(s@) > i32::MAX);
            }
            return None;
        }
        acc = next_acc;
        i += 1;
    }
    proof {
        assert(digits.take(n - start) =~= digits);
        assert(acc == digits_value(digits));
        assert(is_int_literal(s@));
    }
    if negative {
        let v: i32 = if acc == 2147483648 {
            i32::MIN
        } else {
            proof {
                assert(0 <= acc < 2147483648);
            }
            -(acc as i32)
        };
        proof {
            assert(v == int_literal_value(s@));
        }
        Some(v)
    } else {
        if acc > 2147483647 {
            proof {
                assert(int_literal_value(s@) > i32::MAX);
            }
            return None;
        }
        proof {
            assert(acc as i32 == int_literal_value(s@));
        }
        Some(acc as i32)
    }
}

} // verus!

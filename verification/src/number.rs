//! Parsing of integer literals: a `SELECT 1` constant reaches the binder as
//! the digit text the parser saw, and becomes an `Int32` when it fits, an
//! `Int64` otherwise.

use vstd::prelude::*;

verus! {

/// Is `c` a decimal digit?
pub open spec fn is_digit(c: char) -> bool {
    '0' <= c && c <= '9'
}

/// The numeric value of a digit.
pub open spec fn digit_val(c: char) -> int {
    c as u32 - 48
}

/// Is `s` a non-empty run of decimal digits?
pub open spec fn is_digits(s: Seq<char>) -> bool {
    s.len() > 0 && forall|i: int| 0 <= i < s.len() ==> is_digit(s[i])
}

/// The value of a run of digits, most significant first.
pub open spec fn digits_value(s: Seq<char>) -> int
    decreases s.len(),
{
    if s.len() == 0 {
        0
    } else {
        digits_value(s.drop_last()) * 10 + digit_val(s.last())
    }
}

/// Is `s` an optionally signed run of digits?
pub open spec fn is_int_literal(s: Seq<char>) -> bool {
    if s.len() > 0 && (s[0] == '-' || s[0] == '+') {
        is_digits(s.skip(1))
    } else {
        is_digits(s)
    }
}

/// The signed value of an integer literal.
pub open spec fn int_literal_value(s: Seq<char>) -> int {
    if s.len() > 0 && s[0] == '-' {
        -digits_value(s.skip(1))
    } else if s.len() > 0 && s[0] == '+' {
        digits_value(s.skip(1))
    } else {
        digits_value(s)
    }
}

/// A digit run has a non-negative value that grows with its length.
proof fn lemma_digits_value_bounds(s: Seq<char>)
    requires
        forall|i: int| 0 <= i < s.len() ==> is_digit(s[i]),
    ensures
        digits_value(s) >= 0,
    decreases s.len(),
{
    if s.len() > 0 {
        lemma_digits_value_bounds(s.drop_last());
    }
}

/// Extending a digit run by one digit multiplies its value by ten and adds
/// the digit.
proof fn lemma_digits_value_take(s: Seq<char>, i: int)
    requires
        0 <= i < s.len(),
    ensures
        digits_value(s.take(i + 1)) == digits_value(s.take(i)) * 10 + digit_val(s[i]),
{
    assert(s.take(i + 1).drop_last() =~= s.take(i));
    assert(s.take(i + 1).last() == s[i]);
}

/// A longer digit run never has a smaller value.
proof fn lemma_digits_value_monotone(s: Seq<char>, i: int)
    requires
        forall|j: int| 0 <= j < s.len() ==> is_digit(s[j]),
        0 <= i <= s.len(),
    ensures
        digits_value(s.take(i)) <= digits_value(s),
    decreases s.len() - i,
{
    if i < s.len() {
        lemma_digits_value_take(s, i);
        lemma_digits_value_bounds(s.take(i));
        lemma_digits_value_monotone(s, i + 1);
    } else {
        assert(s.take(i) =~= s);
    }
}

/// Parse a non-empty digit run into its value, or report that it is no digit
/// run (`None`) or that its value exceeds `bound` (`Some(None)`).
fn parse_digits(s: &str, from: usize, bound: u64) -> (r: Option<Option<u64>>)
    requires
        from <= s@.len() <= usize::MAX,
    ensures
        match r {
            None => !is_digits(s@.skip(from as int)),
            Some(None) => is_digits(s@.skip(from as int)) && digits_value(s@.skip(from as int))
                > bound,
            Some(Some(m)) => is_digits(s@.skip(from as int)) && digits_value(
                s@.skip(from as int),
            ) == m && m <= bound,
        },
{
    let ghost digits = s@.skip(from as int);
    let n = s.unicode_len();
    if from == n {
        return None;
    }
    let mut i: usize = from;
    let mut m: u64 = 0;
    while i < n
        invariant
            from <= i <= n,
            n == s@.len(),
            from < n,
            digits == s@.skip(from as int),
            forall|j: int| 0 <= j < i - from ==> is_digit(digits[j]),
            m == digits_value(digits.take(i - from)),
            m <= bound,
            bound <= u64::MAX,
        decreases n - i,
    {
        let c = s.get_char(i);
        proof {
            assert(digits[i - from] == s@[i as int]);
        }
        if c < '0' || c > '9' {
            return None;
        }
        let d: u64 = (c as u32 - 48) as u64;
        proof {
            lemma_digits_value_take(digits, i - from);
        }
        let too_big: bool = if m > bound / 10 {
            proof {
                vstd::arithmetic::div_mod::lemma_fundamental_div_mod(bound as int, 10);
                assert(m * 10 + d > bound);
            }
            true
        } else {
            proof {
                vstd::arithmetic::div_mod::lemma_fundamental_div_mod(bound as int, 10);
                vstd::arithmetic::mul::lemma_mul_inequality(
                    m as int,
                    (bound / 10) as int,
                    10,
                );
            }
            let t: u64 = m * 10;
            if d > bound - t {
                true
            } else {
                false
            }
        };
        if too_big {
            // The run's value already exceeds the bound at this digit.
            proof {
                assert(forall|j: int| 0 <= j < i + 1 - from ==> is_digit(digits[j]));
                if is_digits(digits) {
                    lemma_digits_value_monotone(digits, i + 1 - from);
                    assert(digits_value(digits) >= digits_value(digits.take(i + 1 - from)));
                }
            }
            if is_all_digits(s, i + 1, n) {
                proof {
                    assert forall|j: int| 0 <= j < digits.len() implies is_digit(digits[j]) by {
                        assert(digits[j] == s@[j + from]);
                    }
                }
                return Some(None);
            } else {
                proof {
                    let j = choose|j: int| i + 1 <= j < n && !is_digit(s@[j]);
                    assert(digits[j - from] == s@[j]);
                }
                return None;
            }
        }
        m = m * 10 + d;
        i += 1;
    }
    proof {
        assert(digits.take(n - from) =~= digits);
    }
    Some(Some(m))
}

/// Are the characters of `s` in `from..to` all digits?
fn is_all_digits(s: &str, from: usize, to: usize) -> (r: bool)
    requires
        from <= to <= s@.len(),
    ensures
        r == forall|j: int| from <= j < to ==> is_digit(s@[j]),
{
    let mut i: usize = from;
    while i < to
        invariant
            from <= i <= to <= s@.len(),
            forall|j: int| from <= j < i ==> is_digit(s@[j]),
        decreases to - i,
    {
        let c = s.get_char(i);
        if c < '0' || c > '9' {
            return false;
        }
        i += 1;
    }
    true
}

/// The magnitude and sign of the integer literal `s`, when `s` is one whose
/// magnitude is at most `bound`.
pub fn parse_int_magnitude(s: &str, bound: u64) -> (r: Option<(bool, u64)>)
    ensures
        match r {
            Some((neg, m)) => {
                &&& is_int_literal(s@)
                &&& m <= bound
                &&& if neg {
                    int_literal_value(s@) == -(m as int)
                } else {
                    int_literal_value(s@) == m as int
                }
            },
            None => !(is_int_literal(s@) && -(bound as int) <= int_literal_value(s@)
                <= bound as int),
        },
{
    let n = s.unicode_len();
    if n == 0 {
        return None;
    }
    let first = s.get_char(0);
    let neg = first == '-';
    let signed = neg || first == '+';
    let start: usize = if signed {
        1
    } else {
        0
    };
    proof {
        if start == 0 {
            assert(s@.skip(0) =~= s@);
        }
    }
    match parse_digits(s, start, bound) {
        None => {
            proof {
                if start == 0 {
                    assert(!is_digits(s@));
                }
            }
            None
        },
        Some(None) => {
            proof {
                if is_int_literal(s@) {
                    if neg {
                        assert(int_literal_value(s@) < -(bound as int));
                    } else {
                        assert(int_literal_value(s@) > bound as int);
                    }
                }
            }
            None
        },
        Some(Some(m)) => Some((neg, m)),
    }
}

} // verus!

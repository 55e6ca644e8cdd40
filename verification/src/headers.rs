//! Parsing of rate-limit header values.
//!
//! The score endpoint reports rate limiting through numeric headers
//! (`Retry-After`, `X-Ratelimit-Used`, `X-Ratelimit-Remaining`,
//! `X-Ratelimit-Reset`). A value is a decimal count of seconds, possibly
//! with a fraction (`"596.0"`). The library reads such a value as a whole
//! number of milliseconds: one or more digits, optionally followed by `.`
//! and more digits, of which the first three are kept. A value too large
//! for `u64` milliseconds saturates.

use vstd::prelude::*;

verus! {

/// A decimal digit.
pub open spec fn is_digit(c: char) -> bool {
    '0' <= c && c <= '9'
}

/// The numeric value of a digit.
pub open spec fn digit_value(c: char) -> int {
    c as int - '0' as int
}

/// Every character of `s` is a digit.
pub open spec fn all_digits(s: Seq<char>) -> bool {
    forall|i: int| 0 <= i < s.len() ==> is_digit(s[i])
}

/// The value of a digit string, most significant digit first.
pub open spec fn digits_value(s: Seq<char>) -> int
    decreases s.len(),
{
    if s.len() == 0 {
        0
    } else {
        digits_value(s.drop_last()) * 10 + digit_value(s.last())
    }
}

/// The texts this library accepts as a decimal number of seconds:
/// `digits` or `digits.digits?`.
pub open spec fn decimal_shape(s: Seq<char>) -> bool {
    ||| s.len() > 0 && all_digits(s)
    ||| exists|k: int|
        1 <= k < s.len() && #[trigger] s[k] == '.' && all_digits(s.take(k)) && all_digits(
            s.skip(k + 1),
        )
}

/// Milliseconds contributed by a fraction part: its first three digits,
/// scaled to thousandths.
pub open spec fn fraction_ms(f: Seq<char>) -> int {
    if f.len() >= 3 {
        digits_value(f.take(3))
    } else if f.len() == 2 {
        digits_value(f) * 10
    } else if f.len() == 1 {
        digits_value(f) * 100
    } else {
        0
    }
}

/// The exact mathematical value, in milliseconds, of a text of decimal
/// shape.
pub open spec fn decimal_ms(s: Seq<char>) -> int {
    if all_digits(s) {
        digits_value(s) * 1000
    } else {
        let k = choose|k: int|
            1 <= k < s.len() && #[trigger] s[k] == '.' && all_digits(s.take(k)) && all_digits(
                s.skip(k + 1),
            );
        digits_value(s.take(k)) * 1000 + fraction_ms(s.skip(k + 1))
    }
}

/// The milliseconds value actually returned: the exact value, saturated at
/// `u64::MAX`.
pub open spec fn clamped_decimal_ms(s: Seq<char>) -> u64 {
    if decimal_ms(s) > u64::MAX {
        u64::MAX as u64
    } else {
        decimal_ms(s) as u64
    }
}

/// A digit string's value is never negative.
proof fn lemma_digits_value_nonneg(s: Seq<char>)
    requires
        all_digits(s),
    ensures
        digits_value(s) >= 0,
    decreases s.len(),
{
    if s.len() > 0 {
        assert(all_digits(s.drop_last()));
        lemma_digits_value_nonneg(s.drop_last());
    }
}

/// A dot preceded only by digits sits at one position only.
proof fn lemma_dot_position(s: Seq<char>, k: int, m: int)
    requires
        0 <= k < s.len(),
        s[k] == '.',
        all_digits(s.take(k)),
        0 <= m < s.len(),
        s[m] == '.',
        all_digits(s.take(m)),
    ensures
        k == m,
{
    if k < m {
        assert(s.take(m)[k] == s[k]);
        assert(!is_digit('.'));
    } else if m < k {
        assert(s.take(k)[m] == s[m]);
        assert(!is_digit('.'));
    }
}

/// Parses a decimal header value into milliseconds, saturating at
/// `u64::MAX`. Returns `None` exactly when the text is not of decimal
/// shape.
pub fn parse_decimal_ms(s: &str) -> (r: Option<u64>)
    ensures
        r is Some <==> decimal_shape(s@),
        decimal_shape(s@) ==> r == Some(clamped_decimal_ms(s@)),
{
    let n = s.unicode_len();
    if n == 0 {
        return None;
    }
    let mut i: usize = 0;
    let mut acc: u128 = 0;
    let mut saturated: bool = false;
    let mut dot: bool = false;
    while i < n
        invariant_except_break
            !dot,
        invariant
            0 < n == s@.len(),
            0 <= i <= n,
            all_digits(s@.take(i as int)),
            !saturated ==> acc == digits_value(s@.take(i as int)) && acc <= u64::MAX,
            saturated ==> digits_value(s@.take(i as int)) > u64::MAX,
        ensures
            dot ==> i < n && s@[i as int] == '.',
            !dot ==> i == n,
        decreases n - i,
    {
        let c = s.get_char(i);
        if c == '.' {
            dot = true;
            break;
        }
        if c < '0' || c > '9' {
            proof {
                if decimal_shape(s@) {
                    if all_digits(s@) {
                        assert(is_digit(s@[i as int]));
                    } else {
                        let k = choose|k: int|
                            1 <= k < s@.len() && #[trigger] s@[k] == '.' && all_digits(
                                s@.take(k),
                            ) && all_digits(s@.skip(k + 1));
                        if i < k {
                            assert(s@.take(k)[i as int] == s@[i as int]);
                        } else {
                            assert(k < i);
                            assert(s@.take(i as int)[k] == s@[k]);
                            assert(!is_digit('.'));
                        }
                        assert(false);
                    }
                }
            }
            return None;
        }
        assert(is_digit(s@[i as int]));
        let d: u128 = (c as u32 as u128) - ('0' as u32 as u128);
        assert(d == digit_value(s@[i as int]));
        proof {
            assert(s@.take(i + 1).drop_last() =~= s@.take(i as int));
            assert(s@.take(i + 1).last() == s@[i as int]);
            if !saturated {
                lemma_digits_value_nonneg(s@.take(i as int));
            } else {
                lemma_digits_value_nonneg(s@.take(i + 1));
                assert(digits_value(s@.take(i + 1)) == digits_value(s@.take(i as int)) * 10
                    + digit_value(s@[i as int]));
            }
        }
        if !saturated {
            acc = acc * 10 + d;
            if acc > u64::MAX as u128 {
                saturated = true;
            }
        }
        i = i + 1;
    }
    // Either the whole text was digits, or a dot was found at position i.
    let int_end: usize = i;
    let mut frac: u64 = 0;
    if dot {
        if int_end == 0 {
            // A leading dot has no integer part: not of decimal shape.
            proof {
                if decimal_shape(s@) {
                    if all_digits(s@) {
                        assert(is_digit(s@[0]));
                    } else {
                        let k = choose|k: int|
                            1 <= k < s@.len() && #[trigger] s@[k] == '.' && all_digits(
                                s@.take(k),
                            ) && all_digits(s@.skip(k + 1));
                        assert(s@.take(k)[0] == s@[0]);
                    }
                    assert(false);
                }
            }
            return None;
        }
        let mut j: usize = int_end + 1;
        while j < n
            invariant
                0 <= int_end < j <= n == s@.len(),
                s@[int_end as int] == '.',
                all_digits(s@.take(int_end as int)),
                all_digits(s@.subrange(int_end + 1, j as int)),
            decreases n - j,
        {
            let c = s.get_char(j);
            if c < '0' || c > '9' {
                proof {
                    if decimal_shape(s@) {
                        if all_digits(s@) {
                            assert(is_digit(s@[int_end as int]));
                            assert(!is_digit('.'));
                        } else {
                            let k = choose|k: int|
                                1 <= k < s@.len() && #[trigger] s@[k] == '.' && all_digits(
                                    s@.take(k),
                                ) && all_digits(s@.skip(k + 1));
                            lemma_dot_position(s@, k, int_end as int);
                            assert(s@.skip(int_end + 1)[j - int_end - 1] == s@[j as int]);
                            assert(is_digit(s@[j as int]));
                        }
                        assert(false);
                    }
                }
                return None;
            }
            assert(is_digit(s@[j as int]));
            proof {
                assert(s@.subrange(int_end + 1, j + 1).drop_last() =~= s@.subrange(
                    int_end + 1,
                    j as int,
                ));
                assert(forall|p: int|
                    0 <= p < j + 1 - (int_end + 1) ==> #[trigger] s@.subrange(int_end + 1, j + 1)[p]
                        == s@[int_end + 1 + p]);
            }
            j = j + 1;
        }
        proof {
            assert(s@.subrange(int_end + 1, n as int) =~= s@.skip(int_end + 1));
        }
        // Every fraction character is a digit; read the first three.
        let ghost f: Seq<char> = s@.skip(int_end + 1);
        let flen: usize = n - int_end - 1;
        proof {
            assert(forall|p: int| 0 <= p < f.len() ==> #[trigger] f[p] == s@[int_end + 1 + p]);
        }
        if flen >= 1 {
            let c = s.get_char(int_end + 1);
            assert(c == s@[int_end as int + 1]);
            assert(f[0] == s@[int_end as int + 1]);
            assert(is_digit(f[0]));
            let d: u64 = (c as u32 as u64) - ('0' as u32 as u64);
            assert(d == digit_value(f[0]));
            frac = frac + d * 100;
        }
        if flen >= 2 {
            let c = s.get_char(int_end + 2);
            assert(c == s@[int_end as int + 2]);
            assert(f[1] == s@[int_end as int + 2]);
            assert(is_digit(f[1]));
            let d: u64 = (c as u32 as u64) - ('0' as u32 as u64);
            assert(d == digit_value(f[1]));
            frac = frac + d * 10;
        }
        if flen >= 3 {
            let c = s.get_char(int_end + 3);
            assert(c == s@[int_end as int + 3]);
            assert(f[2] == s@[int_end as int + 3]);
            assert(is_digit(f[2]));
            let d: u64 = (c as u32 as u64) - ('0' as u32 as u64);
            assert(d == digit_value(f[2]));
            frac = frac + d;
        }
        proof {
            if f.len() >= 3 {
                let t3 = f.take(3);
                assert(t3.drop_last() =~= f.take(2));
                assert(f.take(2).drop_last() =~= f.take(1));
                assert(f.take(1).drop_last() =~= Seq::<char>::empty());
                assert(t3.last() == f[2] && f.take(2).last() == f[1] && f.take(1).last() == f[0]);
                assert(digits_value(Seq::<char>::empty()) == 0);
                assert(digits_value(f.take(1)) == digit_value(f[0]));
                assert(digits_value(f.take(2)) == digit_value(f[0]) * 10 + digit_value(f[1]));
                assert(digits_value(t3) == (digit_value(f[0]) * 10 + digit_value(f[1])) * 10
                    + digit_value(f[2]));
                assert(frac == fraction_ms(f));
            } else if f.len() == 2 {
                assert(f.drop_last() =~= f.take(1));
                assert(f.take(1).drop_last() =~= Seq::<char>::empty());
                assert(f.take(1).last() == f[0] && f.last() == f[1]);
                assert(digits_value(Seq::<char>::empty()) == 0);
                assert(digits_value(f.take(1)) == digit_value(f[0]));
                assert(digits_value(f) == digit_value(f[0]) * 10 + digit_value(f[1]));
                assert(frac == fraction_ms(f));
            } else if f.len() == 1 {
                assert(f.drop_last() =~= Seq::<char>::empty());
                assert(f.last() == f[0]);
                assert(digits_value(Seq::<char>::empty()) == 0);
                assert(digits_value(f) == digit_value(f[0]));
                assert(frac == fraction_ms(f));
            } else {
                assert(frac == fraction_ms(f));
            }
            assert(frac <= 999);
        }
    } else {
        proof {
            assert(s@.take(n as int) =~= s@);
        }
    }
    // The text has decimal shape; assemble the clamped value.
    proof {
        if dot {
            assert(decimal_shape(s@)) by {
                assert(1 <= int_end < s@.len() && s@[int_end as int] == '.' && all_digits(
                    s@.take(int_end as int),
                ) && all_digits(s@.skip(int_end + 1)));
            }
            assert(!all_digits(s@)) by {
                assert(!is_digit(s@[int_end as int]));
            }
            let k = choose|k: int|
                1 <= k < s@.len() && #[trigger] s@[k] == '.' && all_digits(s@.take(k))
                    && all_digits(s@.skip(k + 1));
            lemma_dot_position(s@, k, int_end as int);
        }
    }
    let ghost int_digits: Seq<char> = if dot {
        s@.take(int_end as int)
    } else {
        s@
    };
    let ghost total: int = decimal_ms(s@);
    proof {
        lemma_digits_value_nonneg(int_digits);
        if !saturated {
            assert(acc == digits_value(int_digits));
        } else {
            assert(digits_value(int_digits) > u64::MAX);
        }
        assert(total == digits_value(int_digits) * 1000 + if dot {
            fraction_ms(s@.skip(int_end + 1))
        } else {
            0int
        });
    }
    if saturated {
        proof {
            assert(digits_value(int_digits) * 1000 > u64::MAX) by {
                assert(digits_value(int_digits) > u64::MAX);
                assert(digits_value(int_digits) * 1000 >= digits_value(int_digits) * 1) by (
                nonlinear_arith)
                    requires
                        digits_value(int_digits) > 0,
                ;
            }
        }
        return Some(u64::MAX);
    }
    let total_u128: u128 = acc * 1000 + frac as u128;
    if total_u128 > u64::MAX as u128 {
        Some(u64::MAX)
    } else {
        Some(total_u128 as u64)
    }
}

/// An absent header parses to nothing; a present one must be of decimal
/// shape, else the response is malformed.
pub fn parse_number_header(value: Option<&str>) -> (r: Result<Option<u64>, ()>)
    ensures
        value is None ==> r == Ok::<Option<u64>, ()>(None::<u64>),
        value matches Some(s) ==> r == if decimal_shape(s@) {
            Ok::<Option<u64>, ()>(Some(clamped_decimal_ms(s@)))
        } else {
            Err::<Option<u64>, ()>(())
        },
{
    match value {
        None => Ok(None),
        Some(s) => match parse_decimal_ms(s) {
            Some(ms) => Ok(Some(ms)),
            None => Err(()),
        },
    }
}

} // verus!

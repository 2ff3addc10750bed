//! Verified decimal parsers: a signed 32-bit integer parser for stock
//! counts, and a fixed-point price parser that yields integer minor units
//! (cents), so that money never passes through floating point.

use vstd::prelude::*;

verus! {

/// Whether `c` is a decimal digit.
pub open spec fn is_digit(c: char) -> bool {
    '0' <= c && c <= '9'
}

/// The value of one decimal digit.
pub open spec fn digit_val(c: char) -> int {
    c as int - '0' as int
}

/// Whether every character of `s` is a decimal digit.
pub open spec fn all_digits(s: Seq<char>) -> bool {
    forall|i: int| 0 <= i < s.len() ==> is_digit(#[trigger] s[i])
}

/// The number a digit sequence denotes, most significant first.
pub open spec fn digits_val(s: Seq<char>) -> int
    decreases s.len(),
{
    if s.len() == 0 {
        0
    } else {
        digits_val(s.drop_last()) * 10 + digit_val(s.last())
    }
}

proof fn lemma_digits_val_nonneg(s: Seq<char>)
    requires
        all_digits(s),
    ensures
        digits_val(s) >= 0,
    decreases s.len(),
{
    if s.len() > 0 {
        assert(all_digits(s.drop_last()));
        lemma_digits_val_nonneg(s.drop_last());
    }
}

/// A digit sequence denotes at least what any of its prefixes denotes.
proof fn lemma_digits_val_prefix(s: Seq<char>, j: int)
    requires
        all_digits(s),
        0 <= j <= s.len(),
    ensures
        digits_val(s) >= digits_val(s.take(j)),
    decreases s.len() - j,
{
    lemma_digits_val_nonneg(s.take(j));
    if j < s.len() {
        assert(s.take(j + 1).drop_last() =~= s.take(j));
        assert(all_digits(s.take(j + 1)));
        assert(digits_val(s.take(j + 1)) == digits_val(s.take(j)) * 10 + digit_val(s[j]));
        lemma_digits_val_prefix(s, j + 1);
    } else {
        assert(s.take(j) =~= s);
    }
}

/// At most two digits denote at most 99.
proof fn lemma_two_digits_le(s: Seq<char>)
    requires
        all_digits(s),
        s.len() <= 2,
    ensures
        0 <= digits_val(s) <= 99,
{
    lemma_digits_val_nonneg(s);
    assert(digits_val(Seq::<char>::empty()) == 0);
    if s.len() == 1 {
        assert(s.drop_last() =~= Seq::<char>::empty());
        assert(digits_val(s) == digits_val(s.drop_last()) * 10 + digit_val(s.last()));
    }
    if s.len() == 2 {
        let g = s.drop_last();
        assert(all_digits(g));
        assert(g.drop_last() =~= Seq::<char>::empty());
        assert(digits_val(g) == digits_val(g.drop_last()) * 10 + digit_val(g.last()));
        assert(digits_val(s) == digits_val(g) * 10 + digit_val(s.last()));
    }
}

/// Scan the digit run `s[from..to]` into a non-negative accumulator.
///
/// `Some(v)` is the number the run denotes when the run is all digits
/// and its value stays within `cap`; `None` comes back exactly when a
/// non-digit appears in the run or the run's value exceeds `cap`.
fn scan_digits(s: &str, from: usize, to: usize, cap: i64) -> (r: Option<i64>)
    requires
        from <= to <= s@.len(),
        0 <= cap,
    ensures
        r matches Some(v) ==> all_digits(s@.subrange(from as int, to as int)) && v
            == digits_val(s@.subrange(from as int, to as int)) && 0 <= v <= cap,
        r is None ==> !all_digits(s@.subrange(from as int, to as int)) || digits_val(
            s@.subrange(from as int, to as int),
        ) > cap,
{
    let ghost run = s@.subrange(from as int, to as int);
    let mut acc: i64 = 0;
    let mut i: usize = from;
    while i < to
        invariant
            from <= i <= to <= s@.len(),
            run == s@.subrange(from as int, to as int),
            all_digits(run.take(i - from)),
            acc == digits_val(run.take(i - from)),
            0 <= acc <= cap,
            0 <= cap,
        decreases to - i,
    {
        let c = s.get_char(i);
        proof {
            assert(run[i - from] == s@[i as int]);
        }
        if !('0' <= c && c <= '9') {
            proof {
                assert(!is_digit(run[i - from]));
            }
            return None;
        }
        let d: i64 = (c as u32 as i64) - 48;
        proof {
            assert(d == digit_val(run[i - from]));
            assert(run.take(i - from + 1).drop_last() =~= run.take(i - from));
            assert(all_digits(run.take(i - from + 1)));
            assert(digits_val(run.take(i - from + 1)) == acc * 10 + d);
        }
        if d > cap || acc > (cap - d) / 10 {
            proof {
                if d <= cap {
                    assert(acc * 10 + d > cap) by (nonlinear_arith)
                        requires
                            acc > (cap - d) / 10,
                            0 <= acc,
                            0 <= d <= 9,
                            d <= cap,
                    ;
                }
                if all_digits(run) {
                    lemma_digits_val_prefix(run, i - from + 1);
                }
            }
            return None;
        }
        proof {
            assert(acc * 10 + d <= cap) by (nonlinear_arith)
                requires
                    acc <= (cap - d) / 10,
                    0 <= acc,
                    0 <= d <= 9,
                    d <= cap,
            ;
        }
        acc = acc * 10 + d;
        i = i + 1;
    }
    proof {
        assert(run.take(to - from) =~= run);
    }
    Some(acc)
}

/// What a stock field denotes: an optional sign, then one or more digits,
/// within the 32-bit signed range — the grammar of `i32` parsing.
pub open spec fn spec_parse_i32(s: Seq<char>) -> Option<int> {
    let body = if s.len() > 0 && (s[0] == '+' || s[0] == '-') {
        s.drop_first()
    } else {
        s
    };
    if body.len() == 0 || !all_digits(body) {
        None
    } else {
        let v = if s[0] == '-' {
            -digits_val(body)
        } else {
            digits_val(body)
        };
        if i32::MIN <= v <= i32::MAX {
            Some(v)
        } else {
            None
        }
    }
}

/// Parse a signed 32-bit integer: an optional `+` or `-`, then one or
/// more digits, rejected outside the `i32` range.
pub fn parse_i32(s: &str) -> (r: Option<i32>)
    ensures
        r matches Some(v) ==> spec_parse_i32(s@) == Some(v as int),
        r is None ==> spec_parse_i32(s@) is None,
{
    let n = s.unicode_len();
    if n == 0 {
        return None;
    }
    let c0 = s.get_char(0);
    let negative = c0 == '-';
    let start: usize = if c0 == '-' || c0 == '+' {
        1
    } else {
        0
    };
    let ghost body = if start == 1 {
        s@.drop_first()
    } else {
        s@
    };
    proof {
        assert(body =~= s@.subrange(start as int, n as int));
    }
    if start == 1 && n == 1 {
        return None;
    }
    let magnitude = match scan_digits(s, start, n, 2147483648) {
        Some(v) => v,
        None => {
            proof {
                if all_digits(body) {
                    lemma_digits_val_nonneg(body);
                }
            }
            return None;
        },
    };
    if negative {
        Some((-magnitude) as i32)
    } else {
        if magnitude == 2147483648 {
            None
        } else {
            Some(magnitude as i32)
        }
    }
}

/// The first index of `'.'` in `s`, or `s.len()` when there is none.
pub open spec fn first_dot(s: Seq<char>) -> int
    decreases s.len(),
{
    if s.len() == 0 {
        0
    } else if s[0] == '.' {
        0
    } else {
        1 + first_dot(s.drop_first())
    }
}

proof fn lemma_first_dot(s: Seq<char>)
    ensures
        0 <= first_dot(s) <= s.len(),
        forall|j: int| 0 <= j < first_dot(s) ==> s[j] != '.',
        first_dot(s) < s.len() ==> s[first_dot(s)] == '.',
    decreases s.len(),
{
    if s.len() > 0 && s[0] != '.' {
        lemma_first_dot(s.drop_first());
        assert forall|j: int| 0 <= j < first_dot(s) implies s[j] != '.' by {
            if j > 0 {
                assert(s.drop_first()[j - 1] == s[j]);
            }
        }
    }
}

/// What a price field denotes, in integer minor units: one or more
/// digits, optionally followed by a dot and one or two fraction digits.
/// `"12.5"` denotes 1250, `"12.50"` denotes 1250, `"12"` denotes 1200.
pub open spec fn spec_price_minor(s: Seq<char>) -> Option<int> {
    let k = first_dot(s);
    let whole = s.take(k);
    if whole.len() == 0 || !all_digits(whole) {
        None
    } else if k == s.len() {
        Some(digits_val(whole) * 100)
    } else {
        let frac = s.skip(k + 1);
        if 1 <= frac.len() <= 2 && all_digits(frac) {
            Some(
                digits_val(whole) * 100 + digits_val(frac) * (if frac.len() == 1 {
                    10int
                } else {
                    1int
                }),
            )
        } else {
            None
        }
    }
}

/// Parse a price into integer minor units (cents), per
/// [`spec_price_minor`]. `None` also comes back for the rare prices in
/// grammar whose minor units exceed the `i64` range.
pub fn parse_price_minor(s: &str) -> (r: Option<i64>)
    ensures
        r matches Some(v) ==> spec_price_minor(s@) == Some(v as int) && 0 <= v,
        r is None ==> spec_price_minor(s@) is None || (spec_price_minor(s@) matches Some(v) && v
            > i64::MAX),
{
    let n = s.unicode_len();
    let mut k: usize = 0;
    let mut found = false;
    while k < n && !found
        invariant
            n == s@.len(),
            k <= n,
            forall|j: int| 0 <= j < k ==> s@[j] != '.',
            found ==> k < n && s@[k as int] == '.',
        decreases n - k + (if found {
            0int
        } else {
            1int
        }),
    {
        if s.get_char(k) == '.' {
            found = true;
        } else {
            k = k + 1;
        }
    }
    proof {
        lemma_first_dot(s@);
        assert(first_dot(s@) == k) by {
            if first_dot(s@) < k {
                assert(s@[first_dot(s@)] == '.');
            }
            if first_dot(s@) > k && k < n {
                assert(s@[k as int] == '.');
            }
        }
        assert(s@.take(k as int) =~= s@.subrange(0, k as int));
    }
    let ghost whole_run = s@.take(k as int);
    if k == 0 {
        return None;
    }
    let whole = match scan_digits(s, 0, k, i64::MAX / 100) {
        Some(v) => v,
        None => {
            proof {
                if all_digits(whole_run) {
                    let dv = digits_val(whole_run);
                    assert(dv * 100 > i64::MAX) by (nonlinear_arith)
                        requires
                            dv > i64::MAX / 100,
                    ;
                    if k < n {
                        let frac = s@.skip(k + 1);
                        if 1 <= frac.len() <= 2 && all_digits(frac) {
                            lemma_digits_val_nonneg(frac);
                        }
                    }
                }
            }
            return None;
        },
    };
    if k == n {
        proof {
            assert(whole * 100 <= i64::MAX) by (nonlinear_arith)
                requires
                    0 <= whole <= i64::MAX / 100,
            ;
        }
        return Some(whole * 100);
    }
    let frac_len = n - k - 1;
    if frac_len < 1 || frac_len > 2 {
        return None;
    }
    let ghost frac_run = s@.skip(k + 1);
    proof {
        assert(frac_run =~= s@.subrange(k + 1 as int, n as int));
    }
    let frac = match scan_digits(s, k + 1, n, 99) {
        Some(v) => v,
        None => {
            proof {
                if all_digits(frac_run) {
                    lemma_two_digits_le(frac_run);
                }
            }
            return None;
        },
    };
    let fs: i64 = if frac_len == 1 {
        frac * 10
    } else {
        frac
    };
    if whole > (i64::MAX - fs) / 100 {
        proof {
            assert(whole * 100 + fs > i64::MAX) by (nonlinear_arith)
                requires
                    whole > (i64::MAX - fs) / 100,
                    0 <= fs,
                    0 <= whole,
            ;
        }
        return None;
    }
    proof {
        assert(whole * 100 + fs <= i64::MAX) by (nonlinear_arith)
            requires
                whole <= (i64::MAX - fs) / 100,
                0 <= fs,
                0 <= whole,
        ;
    }
    Some(whole * 100 + fs)
}

} // verus!

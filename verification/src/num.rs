//! Verified decimal parsing for the two numeric coercions the decoder makes:
//! `integer` element text as `i64`, and track-id keys as `u64`.

use vstd::prelude::*;

verus! {

/// The numeric value of a digit character, or `None` for any other character.
pub open spec fn spec_digit(c: char) -> Option<int> {
    if '0' <= c && c <= '9' {
        Some(c as int - '0' as int)
    } else {
        None
    }
}

/// True when every character of `s` is a decimal digit.
pub open spec fn all_digits(s: Seq<char>) -> bool {
    forall|i: int| 0 <= i < s.len() ==> #[trigger] spec_digit(s[i]) is Some
}

/// The value of a digit sequence read as a decimal numeral.
pub open spec fn digits_val(s: Seq<char>) -> int
    decreases s.len(),
{
    if s.len() == 0 {
        0
    } else {
        digits_val(s.drop_last()) * 10 + spec_digit(s.last()).unwrap_or(0)
    }
}

/// The digits of `s` after an optional leading sign, or `None` when `s` is
/// empty or what follows the sign is empty or not all digits.
pub open spec fn spec_magnitude(s: Seq<char>, signed: bool) -> Option<Seq<char>> {
    if s.len() == 0 {
        None
    } else {
        let ds = if s[0] == '+' || (signed && s[0] == '-') {
            s.drop_first()
        } else {
            s
        };
        if ds.len() == 0 || !all_digits(ds) {
            None
        } else {
            Some(ds)
        }
    }
}

/// The signed 64-bit value of `s` written as an optionally signed decimal
/// numeral, or `None` when `s` is not such a numeral or the value does not
/// fit.
pub open spec fn spec_parse_i64(s: Seq<char>) -> Option<i64> {
    match spec_magnitude(s, true) {
        None => None,
        Some(ds) => {
            let v = digits_val(ds);
            if s[0] == '-' {
                if v <= 0x8000000000000000 {
                    Some((-v) as i64)
                } else {
                    None
                }
            } else {
                if v <= 0x7fffffffffffffff {
                    Some(v as i64)
                } else {
                    None
                }
            }
        },
    }
}

/// The unsigned 64-bit value of `s` written as a decimal numeral with an
/// optional leading `+`, or `None` when `s` is not such a numeral or the
/// value does not fit.
pub open spec fn spec_parse_u64(s: Seq<char>) -> Option<u64> {
    match spec_magnitude(s, false) {
        None => None,
        Some(ds) => {
            let v = digits_val(ds);
            if v <= 0xffffffffffffffff {
                Some(v as u64)
            } else {
                None
            }
        },
    }
}

/// A digit sequence never has a negative value.
pub proof fn lemma_digits_val_nonneg(s: Seq<char>)
    ensures
        digits_val(s) >= 0,
    decreases s.len(),
{
    if s.len() > 0 {
        lemma_digits_val_nonneg(s.drop_last());
    }
}

/// Extending a digit sequence on the right never lowers its value.
pub proof fn lemma_digits_val_prefix(s: Seq<char>, n: int)
    requires
        0 <= n <= s.len(),
    ensures
        digits_val(s.take(n)) <= digits_val(s),
    decreases s.len() - n,
{
    if n < s.len() {
        lemma_digits_val_prefix(s, n + 1);
        let t = s.take(n + 1);
        assert(t.drop_last() =~= s.take(n));
        lemma_digits_val_nonneg(s.take(n));
        assert(digits_val(t) == digits_val(s.take(n)) * 10 + spec_digit(t.last()).unwrap_or(0));
        assert(digits_val(s.take(n)) <= digits_val(s.take(n)) * 10) by {
            lemma_digits_val_nonneg(s.take(n));
        }
    } else {
        assert(s.take(n) =~= s);
    }
}

/// Reports whether a character is a decimal digit.
pub fn is_digit(c: char) -> (r: bool)
    ensures
        r == (spec_digit(c) is Some),
{
    '0' <= c && c <= '9'
}

/// The value of the digits of `s` from index `from` on, accumulated into a
/// `u64`, or `None` as soon as the accumulated value would not fit.
fn digits_value_from(s: &str, from: usize, n: usize) -> (r: Option<u64>)
    requires
        n == s@.len(),
        0 <= from < n,
        all_digits(s@.skip(from as int)),
    ensures
        match r {
            Some(v) => v == digits_val(s@.skip(from as int)),
            None => digits_val(s@.skip(from as int)) > u64::MAX,
        },
{
    let ghost ds = s@.skip(from as int);
    let mut acc: u64 = 0;
    let mut i: usize = from;
    while i < n
        invariant
            from <= i <= n,
            n == s@.len(),
            ds == s@.skip(from as int),
            all_digits(ds),
            acc == digits_val(ds.take(i - from)),
        decreases n - i,
    {
        let c = s.get_char(i);
        assert(c == ds[i - from]);
        let d: u64 = (c as u32 as u64) - 48;
        assert(spec_digit(c) is Some && d == spec_digit(c).unwrap_or(0)) by {
            assert(spec_digit(ds[i - from]) is Some);
        }
        let next = match acc.checked_mul(10) {
            Some(m) => m.checked_add(d),
            None => None,
        };
        proof {
            assert(ds.take(i + 1 - from).drop_last() =~= ds.take(i - from));
            assert(ds.take(i + 1 - from).last() == c);
            assert(digits_val(ds.take(i + 1 - from)) == acc * 10 + d as int);
        }
        match next {
            Some(v) => {
                acc = v;
            },
            None => {
                proof {
                    lemma_digits_val_prefix(ds, i + 1 - from);
                }
                return None;
            },
        }
        i = i + 1;
    }
    proof {
        assert(ds.take(n - from) =~= ds);
    }
    Some(acc)
}

/// Scans `s` for an optional sign and a run of digits; returns the index of
/// the first digit, whether the sign was `-`, or `None` when `s` is not an
/// optionally signed numeral (`-` accepted only when `signed` is set).
#[verifier::loop_isolation(false)]
fn scan_magnitude(s: &str, n: usize, signed: bool) -> (r: Option<(usize, bool)>)
    requires
        n == s@.len(),
    ensures
        match r {
            Some((from, neg)) => {
                &&& spec_magnitude(s@, signed) == Some(s@.skip(from as int))
                &&& 0 <= from < n
                &&& neg == (s@[0] == '-')
            },
            None => spec_magnitude(s@, signed) is None,
        },
{
    if n == 0 {
        return None;
    }
    let c0 = s.get_char(0);
    let from: usize = if c0 == '+' || (signed && c0 == '-') {
        1
    } else {
        0
    };
    let ghost ds = if from == 1 {
        s@.drop_first()
    } else {
        s@
    };
    proof {
        assert(s@.skip(from as int) =~= ds);
    }
    if from == 1 && n == 1 {
        return None;
    }
    let mut i: usize = from;
    while i < n
        invariant
            from <= i <= n,
            n == s@.len(),
            ds == s@.skip(from as int),
            forall|j: int| from <= j < i ==> #[trigger] spec_digit(s@[j]) is Some,
        decreases n - i,
    {
        let c = s.get_char(i);
        if !is_digit(c) {
            proof {
                assert(ds[i - from] == s@[i as int]);
                assert(!all_digits(ds));
            }
            return None;
        }
        i = i + 1;
    }
    proof {
        assert forall|j: int| 0 <= j < ds.len() implies #[trigger] spec_digit(ds[j]) is Some by {
            assert(ds[j] == s@[j + from]);
        }
    }
    Some((from, c0 == '-'))
}

/// Parses `s` as a signed decimal 64-bit integer, exactly as
/// `spec_parse_i64` states it.
pub fn parse_i64(s: &str) -> (r: Option<i64>)
    ensures
        r == spec_parse_i64(s@),
{
    let n = s.unicode_len();
    let scanned = scan_magnitude(s, n, true);
    match scanned {
        None => None,
        Some((from, neg)) => {
            proof {
                lemma_digits_val_nonneg(s@.skip(from as int));
            }
            match digits_value_from(s, from, n) {
                None => None,
                Some(v) => {
                    if neg {
                        if v <= 0x8000000000000000 {
                            if v == 0x8000000000000000 {
                                Some(-0x7fffffffffffffffi64 - 1)
                            } else {
                                Some(-(v as i64))
                            }
                        } else {
                            None
                        }
                    } else {
                        if v <= 0x7fffffffffffffff {
                            Some(v as i64)
                        } else {
                            None
                        }
                    }
                },
            }
        },
    }
}

/// Parses `s` as an unsigned decimal 64-bit integer, exactly as
/// `spec_parse_u64` states it.
pub fn parse_u64(s: &str) -> (r: Option<u64>)
    ensures
        r == spec_parse_u64(s@),
{
    let n = s.unicode_len();
    let scanned = scan_magnitude(s, n, false);
    match scanned {
        None => None,
        Some((from, _)) => digits_value_from(s, from, n),
    }
}

} // verus!

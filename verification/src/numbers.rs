//! Decimal integer parsing, with the grammar of `str::parse::<i32>`.
use vstd::prelude::*;
use crate::chars::str_chars;

verus! {

/// `c` is one of the ASCII digits `0` to `9`.
pub open spec fn is_ascii_digit(c: char) -> bool {
    48 <= (c as u32) <= 57
}

/// Value of an ASCII digit.
pub open spec fn digit_value(c: char) -> int {
    (c as u32) - 48
}

/// Every character of `ds` is an ASCII digit.
pub open spec fn all_ascii_digits(ds: Seq<char>) -> bool {
    forall|k: int| 0 <= k < ds.len() ==> is_ascii_digit(#[trigger] ds[k])
}

/// Value of a string of decimal digits, most significant first.
pub open spec fn decimal_value(ds: Seq<char>) -> int
    decreases ds.len(),
{
    if ds.len() == 0 {
        0
    } else {
        decimal_value(ds.drop_last()) * 10 + digit_value(ds.last())
    }
}

/// What `str::parse::<i32>` accepts and returns: an optional `+` or `-`
/// sign followed by at least one ASCII digit, whose value fits in an `i32`.
pub open spec fn parse_i32_spec(s: Seq<char>) -> Option<i32> {
    let negative = s.len() > 0 && s[0] == '-';
    let signed = s.len() > 0 && (s[0] == '-' || s[0] == '+');
    let ds = if signed {
        s.drop_first()
    } else {
        s
    };
    let v = if negative {
        -decimal_value(ds)
    } else {
        decimal_value(ds)
    };
    if ds.len() > 0 && all_ascii_digits(ds) && i32::MIN <= v <= i32::MAX {
        Some(v as i32)
    } else {
        None
    }
}

proof fn lemma_decimal_nonneg(ds: Seq<char>)
    requires
        all_ascii_digits(ds),
    ensures
        decimal_value(ds) >= 0,
    decreases ds.len(),
{
    if ds.len() > 0 {
        let t = ds.drop_last();
        assert forall|k: int| 0 <= k < t.len() implies is_ascii_digit(#[trigger] t[k]) by {
            assert(t[k] == ds[k]);
        }
        lemma_decimal_nonneg(t);
        assert(is_ascii_digit(ds[ds.len() - 1]));
    }
}

proof fn lemma_decimal_prefix_le(ds: Seq<char>, k: int)
    requires
        0 <= k <= ds.len(),
        all_ascii_digits(ds),
    ensures
        decimal_value(ds.take(k)) <= decimal_value(ds),
    decreases ds.len() - k,
{
    if k == ds.len() {
        assert(ds.take(k) == ds);
    } else {
        lemma_decimal_prefix_le(ds, k + 1);
        let a = ds.take(k);
        let b = ds.take(k + 1);
        assert(b.drop_last() == a);
        assert(b.last() == ds[k]);
        assert(is_ascii_digit(ds[k]));
        assert forall|m: int| 0 <= m < a.len() implies is_ascii_digit(#[trigger] a[m]) by {
            assert(a[m] == ds[m]);
        }
        lemma_decimal_nonneg(a);
    }
}

/// Parses `s` as `str::parse::<i32>` does: `None` where that gives an error.
pub fn parse_i32(s: &str) -> (r: Option<i32>)
    ensures
        r == parse_i32_spec(s@),
{
    let cs = str_chars(s);
    let n = cs.len();
    if n == 0 {
        return None;
    }
    let negative = cs[0] == '-';
    let start: usize = if cs[0] == '-' || cs[0] == '+' {
        1
    } else {
        0
    };
    let ghost ds = if start == 1 {
        s@.drop_first()
    } else {
        s@
    };
    assert(ds == s@.subrange(start as int, n as int));
    if start == n {
        return None;
    }
    let limit: i64 = if negative {
        2147483648
    } else {
        2147483647
    };
    let mut acc: i64 = 0;
    let mut k: usize = start;
    assert(s@.subrange(start as int, start as int) =~= Seq::<char>::empty());
    while k < n
        invariant
            cs@ == s@,
            n == cs@.len(),
            start <= k <= n,
            ds == s@.subrange(start as int, n as int),
            ds == (if s@.len() > 0 && (s@[0] == '-' || s@[0] == '+') {
                s@.drop_first()
            } else {
                s@
            }),
            ds.len() > 0,
            negative == (s@.len() > 0 && s@[0] == '-'),
            limit == (if negative {
                2147483648i64
            } else {
                2147483647i64
            }),
            0 <= acc <= limit,
            limit <= 2147483648,
            acc == decimal_value(s@.subrange(start as int, k as int)),
            all_ascii_digits(s@.subrange(start as int, k as int)),
        decreases n - k,
    {
        let c = cs[k];
        let code = c as u32;
        let ghost before = s@.subrange(start as int, k as int);
        let ghost after = s@.subrange(start as int, k + 1);
        assert(after.drop_last() == before);
        assert(after.last() == c);
        assert(ds[k - start] == c);
        if code < 48 || code > 57 {
            assert(!is_ascii_digit(ds[k - start]));
            return None;
        }
        let d = (code - 48) as i64;
        acc = acc * 10 + d;
        if acc > limit {
            proof {
                assert(ds.take(k + 1 - start) == after);
                if all_ascii_digits(ds) {
                    lemma_decimal_prefix_le(ds, k + 1 - start);
                }
            }
            return None;
        }
        k = k + 1;
    }
    assert(s@.subrange(start as int, n as int) == ds);
    if negative {
        Some((0 - acc) as i32)
    } else {
        Some(acc as i32)
    }
}

} // verus!

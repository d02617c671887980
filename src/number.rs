//! Decimal numbers as the fuzzer and the coverage tool print them.
use crate::text::{all_digits, digits_value, is_digit, DIGITS_CAP, MAX_SCALE};
use vstd::prelude::*;

verus! {

/// A decimal number `mantissa / 10^scale`, kept at the precision it was written in.
#[derive(Clone, Copy, Debug, PartialEq, Eq, Structural)]
pub struct Decimal {
    pub mantissa: i64,
    pub scale: u32,
}

/// What a run of digits denotes, where it is one and stays under the cap.
pub open spec fn nat_of(s: Seq<u8>) -> Option<int> {
    if s.len() > 0 && all_digits(s) && digits_value(s) < DIGITS_CAP {
        Some(digits_value(s))
    } else {
        None
    }
}

/// What a signed 32-bit integer's text denotes: an optional `+` or `-`, then digits.
pub open spec fn i32_of(s: Seq<u8>) -> Option<int> {
    if s.len() > 0 && s[0] == 45u8 {
        match nat_of(s.drop_first()) {
            Some(v) => if v <= 0x8000_0000 { Some(-v) } else { None },
            None => None,
        }
    } else {
        let body = if s.len() > 0 && s[0] == 43u8 { s.drop_first() } else { s };
        match nat_of(body) {
            Some(v) => if v <= 0x7fff_ffff { Some(v) } else { None },
            None => None,
        }
    }
}

/// What a decimal's text denotes: digits, then optionally `.` and more digits.
pub open spec fn decimal_of(s: Seq<u8>) -> Option<Decimal> {
    let d = crate::text::find_byte(s, 46u8, 0, s.len() as int);
    if d == s.len() {
        match nat_of(s) {
            Some(v) => Some(Decimal { mantissa: v as i64, scale: 0 }),
            None => None,
        }
    } else {
        let int_part = s.subrange(0, d);
        let frac = s.subrange(d + 1, s.len() as int);
        if int_part.len() > 0 && frac.len() > 0 && frac.len() <= MAX_SCALE {
            match nat_of(int_part + frac) {
                Some(v) => Some(Decimal { mantissa: v as i64, scale: frac.len() as u32 }),
                None => None,
            }
        } else {
            None
        }
    }
}

proof fn lemma_digits_step(s: Seq<u8>, lo: int, i: int)
    requires
        0 <= lo <= i < s.len(),
    ensures
        digits_value(s.subrange(lo, i + 1)) == 10 * digits_value(s.subrange(lo, i)) + (s[i]
            - 48),
{
    assert(s.subrange(lo, i + 1).drop_last() =~= s.subrange(lo, i));
}

proof fn lemma_digits_nonneg(s: Seq<u8>)
    requires
        all_digits(s),
    ensures
        digits_value(s) >= 0,
    decreases s.len(),
{
    if s.len() > 0 {
        assert(all_digits(s.drop_last()));
        lemma_digits_nonneg(s.drop_last());
    }
}

/// The value of the digits `s[lo..hi]`, where they are digits and stay under the cap.
pub fn parse_nat(s: &[u8], lo: usize, hi: usize) -> (r: Option<u64>)
    requires
        lo <= hi <= s@.len(),
    ensures
        r matches Some(v) ==> nat_of(s@.subrange(lo as int, hi as int)) == Some(v as int),
        r is None ==> nat_of(s@.subrange(lo as int, hi as int)) is None,
{
    if lo == hi {
        return None;
    }
    let mut acc: u64 = 0;
    let mut i: usize = lo;
    while i < hi
        invariant
            lo <= i <= hi <= s@.len(),
            all_digits(s@.subrange(lo as int, i as int)),
            acc <= DIGITS_CAP,
            acc as int == if digits_value(s@.subrange(lo as int, i as int)) < DIGITS_CAP {
                digits_value(s@.subrange(lo as int, i as int))
            } else {
                DIGITS_CAP as int
            },
        decreases hi - i,
    {
        let b = s[i];
        if b < 48u8 || b > 57u8 {
            assert(s@.subrange(lo as int, hi as int)[i - lo] == b);
            return None;
        }
        proof {
            lemma_digits_step(s@, lo as int, i as int);
            lemma_digits_nonneg(s@.subrange(lo as int, i as int));
            assert(all_digits(s@.subrange(lo as int, i as int + 1))) by {
                assert forall|k: int| 0 <= k < i + 1 - lo implies is_digit(
                    #[trigger] s@.subrange(lo as int, i as int + 1)[k],
                ) by {
                    if k < i - lo {
                        assert(s@.subrange(lo as int, i as int + 1)[k] == s@.subrange(
                            lo as int,
                            i as int,
                        )[k]);
                    }
                }
            }
        }
        let next = acc * 10 + (b - 48u8) as u64;
        acc = if next < DIGITS_CAP { next } else { DIGITS_CAP };
        i = i + 1;
    }
    assert(s@.subrange(lo as int, i as int) =~= s@.subrange(lo as int, hi as int));
    if acc < DIGITS_CAP {
        Some(acc)
    } else {
        None
    }
}

/// The value of a signed 32-bit integer written in `s[lo..hi]`.
pub fn parse_i32(s: &[u8], lo: usize, hi: usize) -> (r: Option<i32>)
    requires
        lo <= hi <= s@.len(),
    ensures
        r matches Some(v) ==> i32_of(s@.subrange(lo as int, hi as int)) == Some(v as int),
        r is None ==> i32_of(s@.subrange(lo as int, hi as int)) is None,
{
    let ghost t = s@.subrange(lo as int, hi as int);
    if lo < hi && s[lo] == 45u8 {
        assert(t.drop_first() =~= s@.subrange(lo + 1, hi as int));
        match parse_nat(s, lo + 1, hi) {
            Some(v) => if v <= 0x8000_0000 {
                Some((0 - v as i64) as i32)
            } else {
                None
            },
            None => None,
        }
    } else {
        let start: usize = if lo < hi && s[lo] == 43u8 {
            assert(t.drop_first() =~= s@.subrange(lo + 1, hi as int));
            lo + 1
        } else {
            lo
        };
        match parse_nat(s, start, hi) {
            Some(v) => if v <= 0x7fff_ffff {
                Some(v as i32)
            } else {
                None
            },
            None => None,
        }
    }
}

/// The decimal written in `s[lo..hi]`.
pub fn parse_decimal(s: &[u8], lo: usize, hi: usize) -> (r: Option<Decimal>)
    requires
        lo <= hi <= s@.len(),
    ensures
        r == decimal_of(s@.subrange(lo as int, hi as int)),
{
    let ghost t = s@.subrange(lo as int, hi as int);
    let d = crate::text::find_byte_at(s, 46u8, lo, hi);
    proof {
        lemma_find_shift(s@, 46u8, lo as int, hi as int, lo as int);
    }
    if d == hi {
        return match parse_nat(s, lo, hi) {
            Some(v) => Some(Decimal { mantissa: v as i64, scale: 0 }),
            None => None,
        };
    }
    if d == lo || d + 1 == hi || hi - (d + 1) > MAX_SCALE {
        return None;
    }
    let mut digits: Vec<u8> = Vec::new();
    let mut i: usize = lo;
    while i < hi
        invariant
            lo <= d < hi <= s@.len(),
            lo <= i <= hi,
            i <= d ==> digits@ == s@.subrange(lo as int, i as int),
            i > d ==> digits@ == s@.subrange(lo as int, d as int) + s@.subrange(
                d + 1,
                i as int,
            ),
        decreases hi - i,
    {
        if i != d {
            digits.push(s[i]);
        }
        proof {
            if i < d {
                assert(digits@ =~= s@.subrange(lo as int, i + 1));
            } else if i > d {
                assert(digits@ =~= s@.subrange(lo as int, d as int) + s@.subrange(
                    d + 1,
                    i + 1,
                ));
            } else {
                assert(digits@ =~= s@.subrange(lo as int, d as int) + s@.subrange(
                    d + 1,
                    i + 1,
                ));
            }
        }
        i = i + 1;
    }
    assert(t.subrange(0, d - lo) =~= s@.subrange(lo as int, d as int));
    assert(t.subrange(d - lo + 1, t.len() as int) =~= s@.subrange(d + 1, hi as int));
    assert(digits@.subrange(0, digits@.len() as int) =~= digits@);
    match parse_nat(digits.as_slice(), 0, digits.len()) {
        Some(v) => Some(Decimal { mantissa: v as i64, scale: (hi - (d + 1)) as u32 }),
        None => None,
    }
}

/// Finding a byte in a window of `s` is finding it in that window taken alone.
proof fn lemma_find_shift(s: Seq<u8>, c: u8, lo: int, hi: int, i: int)
    requires
        0 <= lo <= i <= hi <= s.len(),
    ensures
        crate::text::find_byte(s, c, i, hi) - lo == crate::text::find_byte(
            s.subrange(lo, hi),
            c,
            i - lo,
            hi - lo,
        ),
    decreases hi - i,
{
    if i < hi && s[i] != c {
        lemma_find_shift(s, c, lo, hi, i + 1);
    }
}

} // verus!

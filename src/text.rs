//! Byte-level scanning of the text that the fuzzer and the coverage tool write:
//! blanks, lines, `key : value` fields, whitespace-separated words, and numbers.
use vstd::prelude::*;

verus! {

/// Largest magnitude (exclusive) that a run of digits may denote.
pub const DIGITS_CAP: u64 = 1_000_000_000_000_000_000;

/// Most digits allowed after the decimal point.
pub const MAX_SCALE: usize = 18;

pub open spec fn is_blank(b: u8) -> bool {
    b == 32u8 || (9u8 <= b && b <= 13u8)
}

pub open spec fn is_digit(b: u8) -> bool {
    48u8 <= b && b <= 57u8
}

pub open spec fn all_digits(s: Seq<u8>) -> bool {
    forall|i: int| 0 <= i < s.len() ==> is_digit(#[trigger] s[i])
}

/// The number that a run of decimal digits denotes.
pub open spec fn digits_value(s: Seq<u8>) -> int
    decreases s.len(),
{
    if s.len() == 0 {
        0
    } else {
        10 * digits_value(s.drop_last()) + (s.last() - 48)
    }
}

/// First index in `[i, hi)` that holds no blank, or `hi`.
pub open spec fn skip_blank(s: Seq<u8>, i: int, hi: int) -> int
    decreases hi - i,
{
    if i >= hi || !is_blank(s[i]) {
        i
    } else {
        skip_blank(s, i + 1, hi)
    }
}

/// First index in `[i, hi)` that holds a blank, or `hi`.
pub open spec fn word_end(s: Seq<u8>, i: int, hi: int) -> int
    decreases hi - i,
{
    if i >= hi || is_blank(s[i]) {
        i
    } else {
        word_end(s, i + 1, hi)
    }
}

/// First index in `[i, hi)` that holds `c`, or `hi`.
pub open spec fn find_byte(s: Seq<u8>, c: u8, i: int, hi: int) -> int
    decreases hi - i,
{
    if i >= hi || s[i] == c {
        i
    } else {
        find_byte(s, c, i + 1, hi)
    }
}

/// End of `[lo, j)` once blanks at its back are dropped.
pub open spec fn trim_back(s: Seq<u8>, lo: int, j: int) -> int
    decreases j - lo,
{
    if j <= lo || !is_blank(s[j - 1]) {
        j
    } else {
        trim_back(s, lo, j - 1)
    }
}

/// `s[lo..hi]` without blanks at either end.
pub open spec fn trimmed(s: Seq<u8>, lo: int, hi: int) -> Seq<u8> {
    let a = skip_blank(s, lo, hi);
    s.subrange(a, trim_back(s, a, hi))
}

pub proof fn lemma_find_byte_bounds(s: Seq<u8>, c: u8, i: int, hi: int)
    requires
        0 <= i <= hi <= s.len(),
    ensures
        i <= find_byte(s, c, i, hi) <= hi,
        find_byte(s, c, i, hi) < hi ==> s[find_byte(s, c, i, hi)] == c,
    decreases hi - i,
{
    if i < hi && s[i] != c {
        lemma_find_byte_bounds(s, c, i + 1, hi);
    }
}

fn is_blank_byte(b: u8) -> (r: bool)
    ensures
        r == is_blank(b),
{
    b == 32u8 || (9u8 <= b && b <= 13u8)
}

/// Index of the first non-blank byte of `s[i..hi]`, or `hi`.
pub fn skip_blank_at(s: &[u8], i: usize, hi: usize) -> (r: usize)
    requires
        i <= hi <= s@.len(),
    ensures
        r as int == skip_blank(s@, i as int, hi as int),
        i <= r <= hi,
{
    let mut j: usize = i;
    while j < hi && is_blank_byte(s[j])
        invariant
            i <= j <= hi <= s@.len(),
            skip_blank(s@, i as int, hi as int) == skip_blank(s@, j as int, hi as int),
        decreases hi - j,
    {
        j = j + 1;
    }
    j
}

/// Index of the first blank byte of `s[i..hi]`, or `hi`.
pub fn word_end_at(s: &[u8], i: usize, hi: usize) -> (r: usize)
    requires
        i <= hi <= s@.len(),
    ensures
        r as int == word_end(s@, i as int, hi as int),
        i <= r <= hi,
{
    let mut j: usize = i;
    while j < hi && !is_blank_byte(s[j])
        invariant
            i <= j <= hi <= s@.len(),
            word_end(s@, i as int, hi as int) == word_end(s@, j as int, hi as int),
        decreases hi - j,
    {
        j = j + 1;
    }
    j
}

/// Index of the first `c` in `s[i..hi]`, or `hi`.
pub fn find_byte_at(s: &[u8], c: u8, i: usize, hi: usize) -> (r: usize)
    requires
        i <= hi <= s@.len(),
    ensures
        r as int == find_byte(s@, c, i as int, hi as int),
        i <= r <= hi,
{
    let mut j: usize = i;
    while j < hi && s[j] != c
        invariant
            i <= j <= hi <= s@.len(),
            find_byte(s@, c, i as int, hi as int) == find_byte(s@, c, j as int, hi as int),
        decreases hi - j,
    {
        j = j + 1;
    }
    j
}

/// End of `s[lo..j]` once blanks at its back are dropped.
pub fn trim_back_at(s: &[u8], lo: usize, j: usize) -> (r: usize)
    requires
        lo <= j <= s@.len(),
    ensures
        r as int == trim_back(s@, lo as int, j as int),
        lo <= r <= j,
{
    let mut k: usize = j;
    while k > lo && is_blank_byte(s[k - 1])
        invariant
            lo <= k <= j <= s@.len(),
            trim_back(s@, lo as int, j as int) == trim_back(s@, lo as int, k as int),
        decreases k - lo,
    {
        k = k - 1;
    }
    k
}

} // verus!

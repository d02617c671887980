//! The fuzzer's live status file: a flat list of `key : value` lines.
use crate::number::{decimal_of, i32_of, parse_decimal, parse_i32, Decimal};
use crate::text::{
    find_byte, find_byte_at, lemma_find_byte_bounds, skip_blank, skip_blank_at, trim_back_at,
    trimmed,
};
use vstd::prelude::*;
use vstd::string::StringSliceAdditionalSpecFns;

verus! {

/// What a field stands at when it is absent or does not parse.
pub const MISSING: i32 = -1;

/// The value of the first `key : value` line of `s[i..]` whose key is `key`, blanks trimmed.
pub open spec fn field_from(s: Seq<u8>, key: Seq<u8>, i: int) -> Option<Seq<u8>>
    decreases s.len() - i,
{
    if i < 0 || i >= s.len() {
        None
    } else {
        let e = find_byte(s, 10u8, i, s.len() as int);
        let c = find_byte(s, 58u8, i, e);
        if c < e && trimmed(s, i, c) == key {
            Some(trimmed(s, c + 1, e))
        } else if e >= s.len() {
            None
        } else {
            proof {
                lemma_find_byte_bounds(s, 10u8, i, s.len() as int);
            }
            field_from(s, key, e + 1)
        }
    }
}

/// The count recorded under `key`, or `MISSING`.
pub open spec fn count_field(s: Seq<u8>, key: Seq<u8>) -> int {
    match field_from(s, key, 0) {
        Some(v) => match i32_of(v) {
            Some(n) => n,
            None => MISSING as int,
        },
        None => MISSING as int,
    }
}

pub open spec fn missing_percent() -> Decimal {
    Decimal { mantissa: -1i64, scale: 0 }
}

/// A percentage written as a decimal followed by `%`.
pub open spec fn percent_of(v: Seq<u8>) -> Option<Decimal> {
    if v.len() > 0 && v.last() == 37u8 {
        decimal_of(v.drop_last())
    } else {
        None
    }
}

/// The percentage recorded under `key`, or `-1` where it is absent or does not parse.
pub open spec fn percent_field(s: Seq<u8>, key: Seq<u8>) -> Decimal {
    match field_from(s, key, 0) {
        Some(v) => match percent_of(v) {
            Some(d) => d,
            None => missing_percent(),
        },
        None => missing_percent(),
    }
}

/// Whether `s[lo..hi]` is `key`.
fn bytes_eq(s: &[u8], lo: usize, hi: usize, key: &[u8]) -> (r: bool)
    requires
        lo <= hi <= s@.len(),
    ensures
        r == (s@.subrange(lo as int, hi as int) == key@),
{
    if hi - lo != key.len() {
        assert(s@.subrange(lo as int, hi as int).len() != key@.len());
        return false;
    }
    let mut k: usize = 0;
    while k < key.len()
        invariant
            hi - lo == key@.len(),
            lo <= hi <= s@.len(),
            k <= key@.len(),
            s@.subrange(lo as int, lo + k) =~= key@.subrange(0, k as int),
        decreases key@.len() - k,
    {
        if s[lo + k] != key[k] {
            assert(s@.subrange(lo as int, hi as int)[k as int] != key@[k as int]);
            return false;
        }
        k = k + 1;
        assert(s@.subrange(lo as int, lo + k) =~= key@.subrange(0, k as int));
    }
    assert(s@.subrange(lo as int, hi as int) =~= key@);
    true
}

/// A percentage written in `s[lo..hi]` as a decimal followed by `%`.
pub fn parse_percent(s: &[u8], lo: usize, hi: usize) -> (r: Option<Decimal>)
    requires
        lo <= hi <= s@.len(),
    ensures
        r == percent_of(s@.subrange(lo as int, hi as int)),
{
    if lo < hi && s[hi - 1] == 37u8 {
        assert(s@.subrange(lo as int, hi as int).drop_last() =~= s@.subrange(
            lo as int,
            hi - 1,
        ));
        parse_decimal(s, lo, hi - 1)
    } else {
        None
    }
}

/// The fuzzer's progress as its status file reports it.
#[derive(Clone, Copy, Debug, PartialEq, Eq, Structural)]
pub struct AflStautsResult {
    pub case_num: i32,
    pub cycle_num: i32,
    pub crash_num: i32,
    pub edge_covered: i32,
    pub edge_percent: Decimal,
}

/// Reads the progress of one fuzzing session from its status file.
pub struct AflStatusMonitor {
    pub status_file: String,
}

impl AflStatusMonitor {
    pub fn new(status_file: String) -> (r: Self)
        ensures
            r.status_file@ == status_file@,
    {
        Self { status_file }
    }

    /// Span of the value of the first line of `text` whose key is `key`.
    pub fn grep_item(text: &[u8], key: &[u8]) -> (r: Option<(usize, usize)>)
        ensures
            r is None ==> field_from(text@, key@, 0) is None,
            r matches Some((a, b)) ==> a <= b <= text@.len() && field_from(text@, key@, 0)
                == Some(text@.subrange(a as int, b as int)),
    {
        let n = text.len();
        let mut i: usize = 0;
        while i < n
            invariant
                n == text@.len(),
                i <= n,
                field_from(text@, key@, 0) == field_from(text@, key@, i as int),
            decreases n - i,
        {
            let e = find_byte_at(text, 10u8, i, n);
            let c = find_byte_at(text, 58u8, i, e);
            if c < e {
                let k0 = skip_blank_at(text, i, c);
                let k1 = trim_back_at(text, k0, c);
                if bytes_eq(text, k0, k1, key) {
                    let v0 = skip_blank_at(text, c + 1, e);
                    let v1 = trim_back_at(text, v0, e);
                    return Some((v0, v1));
                }
            }
            if e == n {
                return None;
            }
            i = e + 1;
        }
        assert(field_from(text@, key@, i as int) is None);
        None
    }

    /// The count recorded under `key` in `text`, or `MISSING`.
    pub fn count_item(text: &[u8], key: &[u8]) -> (r: i32)
        ensures
            r as int == count_field(text@, key@),
    {
        match Self::grep_item(text, key) {
            Some((a, b)) => match parse_i32(text, a, b) {
                Some(v) => v,
                None => MISSING,
            },
            None => MISSING,
        }
    }

    /// The percentage recorded under `key` in `text`, or `-1`.
    pub fn percent_item(text: &[u8], key: &[u8]) -> (r: Decimal)
        ensures
            r == percent_field(text@, key@),
    {
        match Self::grep_item(text, key) {
            Some((a, b)) => match parse_percent(text, a, b) {
                Some(d) => d,
                None => Decimal { mantissa: -1, scale: 0 },
            },
            None => Decimal { mantissa: -1, scale: 0 },
        }
    }

    /// The progress that the status file's text `text` reports; a field that is
    /// absent or does not parse stands at `-1`.
    pub fn get_result(&self, text: &[u8]) -> (r: AflStautsResult)
        ensures
            r.case_num as int == count_field(text@, "corpus_count".spec_bytes()),
            r.cycle_num as int == count_field(text@, "execs_done".spec_bytes()),
            r.crash_num as int == count_field(text@, "saved_crashes".spec_bytes()),
            r.edge_covered as int == count_field(text@, "edges_found".spec_bytes()),
            r.edge_percent == percent_field(text@, "bitmap_cvg".spec_bytes()),
    {
        AflStautsResult {
            case_num: Self::count_item(text, "corpus_count".as_bytes()),
            cycle_num: Self::count_item(text, "execs_done".as_bytes()),
            crash_num: Self::count_item(text, "saved_crashes".as_bytes()),
            edge_covered: Self::count_item(text, "edges_found".as_bytes()),
            edge_percent: Self::percent_item(text, "bitmap_cvg".as_bytes()),
        }
    }
}

/// The value of one line, where it is a `key : value` line for `key`.
pub open spec fn line_field(l: Seq<u8>, key: Seq<u8>) -> Option<Seq<u8>> {
    let c = find_byte(l, 58u8, 0, l.len() as int);
    if c < l.len() && trimmed(l, 0, c) == key {
        Some(trimmed(l, c + 1, l.len() as int))
    } else {
        None
    }
}

/// Lines written one after another, each ended by a newline.
pub open spec fn joined(ls: Seq<Seq<u8>>) -> Seq<u8>
    decreases ls.len(),
{
    if ls.len() == 0 {
        Seq::empty()
    } else {
        ls[0] + seq![10u8] + joined(ls.drop_first())
    }
}

pub open spec fn no_newline(l: Seq<u8>) -> bool {
    forall|k: int| 0 <= k < l.len() ==> l[k] != 10u8
}

proof fn lemma_find_shift(s: Seq<u8>, t: Seq<u8>, off: int, c: u8, i: int, hi: int)
    requires
        0 <= off,
        off + t.len() <= s.len(),
        s.subrange(off, off + t.len()) == t,
        0 <= i <= hi <= t.len(),
    ensures
        find_byte(s, c, off + i, off + hi) == off + find_byte(t, c, i, hi),
    decreases hi - i,
{
    if i < hi {
        assert(s[off + i] == t[i]);
        lemma_find_shift(s, t, off, c, i + 1, hi);
    }
}

proof fn lemma_skip_shift(s: Seq<u8>, t: Seq<u8>, off: int, i: int, hi: int)
    requires
        0 <= off,
        off + t.len() <= s.len(),
        s.subrange(off, off + t.len()) == t,
        0 <= i <= hi <= t.len(),
    ensures
        skip_blank(s, off + i, off + hi) == off + skip_blank(t, i, hi),
        i <= skip_blank(t, i, hi) <= hi,
    decreases hi - i,
{
    if i < hi {
        assert(s[off + i] == t[i]);
        lemma_skip_shift(s, t, off, i + 1, hi);
    }
}

proof fn lemma_trim_back_shift(s: Seq<u8>, t: Seq<u8>, off: int, lo: int, j: int)
    requires
        0 <= off,
        off + t.len() <= s.len(),
        s.subrange(off, off + t.len()) == t,
        0 <= lo <= j <= t.len(),
    ensures
        crate::text::trim_back(s, off + lo, off + j) == off + crate::text::trim_back(t, lo, j),
        lo <= crate::text::trim_back(t, lo, j) <= j,
    decreases j - lo,
{
    if j > lo {
        assert(s[off + j - 1] == t[j - 1]);
        lemma_trim_back_shift(s, t, off, lo, j - 1);
    }
}

proof fn lemma_trimmed_shift(s: Seq<u8>, t: Seq<u8>, off: int, lo: int, hi: int)
    requires
        0 <= off,
        off + t.len() <= s.len(),
        s.subrange(off, off + t.len()) == t,
        0 <= lo <= hi <= t.len(),
    ensures
        trimmed(s, off + lo, off + hi) == trimmed(t, lo, hi),
{
    lemma_skip_shift(s, t, off, lo, hi);
    let a = skip_blank(t, lo, hi);
    lemma_trim_back_shift(s, t, off, a, hi);
    let b = crate::text::trim_back(t, a, hi);
    assert(s.subrange(off + a, off + b) =~= t.subrange(a, b));
}

/// Looking up a field from `off` on is looking it up in the text after `off`.
proof fn lemma_field_shift(s: Seq<u8>, t: Seq<u8>, key: Seq<u8>, off: int, i: int)
    requires
        0 <= off,
        off + t.len() == s.len(),
        s.subrange(off, off + t.len()) == t,
        0 <= i <= t.len(),
    ensures
        field_from(s, key, off + i) == field_from(t, key, i),
    decreases t.len() - i,
{
    if i < t.len() {
        lemma_find_shift(s, t, off, 10u8, i, t.len() as int);
        let e = find_byte(t, 10u8, i, t.len() as int);
        lemma_find_byte_bounds(t, 10u8, i, t.len() as int);
        lemma_find_shift(s, t, off, 58u8, i, e);
        let c = find_byte(t, 58u8, i, e);
        lemma_find_byte_bounds(t, 58u8, i, e);
        lemma_trimmed_shift(s, t, off, i, c);
        if c < e {
            lemma_trimmed_shift(s, t, off, c + 1, e);
        }
        if e < t.len() {
            lemma_field_shift(s, t, key, off, e + 1);
        }
    }
}

proof fn lemma_find_first(s: Seq<u8>, c: u8, i: int, hi: int, e: int)
    requires
        0 <= i <= e < hi <= s.len(),
        s[e] == c,
        forall|k: int| i <= k < e ==> s[k] != c,
    ensures
        find_byte(s, c, i, hi) == e,
    decreases e - i,
{
    if i < e {
        lemma_find_first(s, c, i + 1, hi, e);
    }
}

/// The value of the first of the lines `ls` that holds `key`.
pub open spec fn first_field(ls: Seq<Seq<u8>>, key: Seq<u8>) -> Option<Seq<u8>>
    decreases ls.len(),
{
    if ls.len() == 0 {
        None
    } else {
        match line_field(ls[0], key) {
            Some(v) => Some(v),
            None => first_field(ls.drop_first(), key),
        }
    }
}

/// The field of text made of lines is that of the first of its lines that
/// holds the key.
proof fn lemma_field_of_lines(ls: Seq<Seq<u8>>, key: Seq<u8>)
    requires
        forall|i: int| 0 <= i < ls.len() ==> no_newline(#[trigger] ls[i]),
    ensures
        field_from(joined(ls), key, 0) == first_field(ls, key),
    decreases ls.len(),
{
    if ls.len() > 0 {
        let l = ls[0];
        let rest = ls.drop_first();
        let r = joined(rest);
        let s = joined(ls);
        assert(s == l + seq![10u8] + r);
        let n = l.len() as int;
        assert(s.subrange(0, n) =~= l);
        assert(s.subrange(n + 1, s.len() as int) =~= r);
        assert(no_newline(l));
        assert forall|k: int| 0 <= k < n implies s[k] != 10u8 by {
            assert(s[k] == l[k]);
        }
        assert(s[n] == 10u8);
        lemma_find_first(s, 10u8, 0, s.len() as int, n);
        lemma_find_shift(s, l, 0, 58u8, 0, n);
        let c = find_byte(l, 58u8, 0, n);
        lemma_find_byte_bounds(l, 58u8, 0, n);
        lemma_trimmed_shift(s, l, 0, 0, c);
        if c < n {
            lemma_trimmed_shift(s, l, 0, c + 1, n);
        }
        lemma_field_shift(s, r, key, n + 1, 0);
        assert forall|i: int| 0 <= i < rest.len() implies no_newline(#[trigger] rest[i]) by {
            assert(rest[i] == ls[i + 1]);
        }
        lemma_field_of_lines(rest, key);
    }
}

proof fn lemma_first_field_unique(ls: Seq<Seq<u8>>, key: Seq<u8>, j: int)
    requires
        0 <= j < ls.len(),
        line_field(ls[j], key) is Some,
        forall|i: int| 0 <= i < ls.len() && i != j ==> (#[trigger] line_field(ls[i], key)) is None,
    ensures
        first_field(ls, key) == line_field(ls[j], key),
    decreases ls.len(),
{
    if j > 0 {
        let rest = ls.drop_first();
        assert(line_field(ls[0], key) is None);
        assert forall|i: int| 0 <= i < rest.len() && i != j - 1 implies (#[trigger] line_field(
            rest[i],
            key,
        )) is None by {
            assert(rest[i] == ls[i + 1]);
        }
        assert(rest[j - 1] == ls[j]);
        lemma_first_field_unique(rest, key, j - 1);
    }
}

/// A status file made of lines, only one of which holds `key`, reads that
/// line's value for `key`: however the lines are ordered, and whatever other
/// lines stand among them.
pub proof fn lemma_field_of_unique_line(ls: Seq<Seq<u8>>, key: Seq<u8>, j: int)
    requires
        forall|i: int| 0 <= i < ls.len() ==> no_newline(#[trigger] ls[i]),
        0 <= j < ls.len(),
        line_field(ls[j], key) is Some,
        forall|i: int| 0 <= i < ls.len() && i != j ==> (#[trigger] line_field(ls[i], key)) is None,
    ensures
        field_from(joined(ls), key, 0) == line_field(ls[j], key),
{
    lemma_field_of_lines(ls, key);
    lemma_first_field_unique(ls, key, j);
}

} // verus!

//! Wall-clock time of a sample, in the local time zone.
use crate::render::{fixed_digits, push_fixed};
use vstd::prelude::*;
use vstd::string::StringExecFns;

verus! {

/// A local date and time to the second.
#[derive(Clone, Copy, Debug, PartialEq, Eq, Structural)]
pub struct Timestamp {
    pub year: i32,
    pub month: u32,
    pub day: u32,
    pub hour: u32,
    pub minute: u32,
    pub second: u32,
}

impl Timestamp {
    pub open spec fn wf(&self) -> bool {
        &&& 1 <= self.month <= 12
        &&& 1 <= self.day <= 31
        &&& self.hour < 24
        &&& self.minute < 60
        &&& self.second < 60
    }

    /// A time whose year has four digits, as the record format asks.
    pub open spec fn printable(&self) -> bool {
        self.wf() && 0 <= self.year <= 9999
    }

    /// `YYYY-MM-DD HH:MM:SS`.
    pub open spec fn text(&self) -> Seq<char> {
        fixed_digits(self.year as nat, 4) + "-"@ + fixed_digits(self.month as nat, 2) + "-"@
            + fixed_digits(self.day as nat, 2) + " "@ + fixed_digits(self.hour as nat, 2) + ":"@
            + fixed_digits(self.minute as nat, 2) + ":"@ + fixed_digits(self.second as nat, 2)
    }

    pub fn is_printable(&self) -> (r: bool)
        ensures
            r == self.printable(),
    {
        1 <= self.month && self.month <= 12 && 1 <= self.day && self.day <= 31 && self.hour < 24
            && self.minute < 60 && self.second < 60 && 0 <= self.year && self.year <= 9999
    }

    /// The time as `YYYY-MM-DD HH:MM:SS`.
    pub fn format(&self) -> (r: String)
        requires
            self.printable(),
        ensures
            r@ == self.text(),
    {
        let mut s = String::new();
        push_fixed(&mut s, self.year as u64, 4);
        s.append("-");
        push_fixed(&mut s, self.month as u64, 2);
        s.append("-");
        push_fixed(&mut s, self.day as u64, 2);
        s.append(" ");
        push_fixed(&mut s, self.hour as u64, 2);
        s.append(":");
        push_fixed(&mut s, self.minute as u64, 2);
        s.append(":");
        push_fixed(&mut s, self.second as u64, 2);
        assert(s@ =~= self.text());
        s
    }
}

/// `x` comes before `y` in dictionary order, first differing at `k`.
pub open spec fn differs_first_at(x: Seq<char>, y: Seq<char>, k: int) -> bool {
    &&& 0 <= k < x.len()
    &&& k < y.len()
    &&& (x[k] as u32) < (y[k] as u32)
    &&& forall|i: int| 0 <= i < k ==> x[i] == y[i]
}

/// `x` comes strictly before `y` in dictionary order.
pub open spec fn text_lt(x: Seq<char>, y: Seq<char>) -> bool {
    exists|k: int| #[trigger] differs_first_at(x, y, k)
}

proof fn lemma_digit_order(a: int, b: int)
    requires
        0 <= a < b < 10,
    ensures
        (crate::render::digit_char(a) as u32) < (crate::render::digit_char(b) as u32),
{
}

/// `a` is an earlier time than `b`.
pub open spec fn ts_lt(a: Timestamp, b: Timestamp) -> bool {
    a.year < b.year || (a.year == b.year && (a.month < b.month || (a.month == b.month && (a.day
        < b.day || (a.day == b.day && (a.hour < b.hour || (a.hour == b.hour && (a.minute
        < b.minute || (a.minute == b.minute && a.second < b.second)))))))))
}

proof fn lemma_fixed_len(n: nat, w: nat)
    ensures
        fixed_digits(n, w).len() == w,
    decreases w,
{
    if w > 0 {
        lemma_fixed_len(n / 10, (w - 1) as nat);
    }
}

/// Fixed-width digits keep the order of the numbers they write.
proof fn lemma_fixed_lt(n: nat, m: nat, w: nat)
    requires
        n < m < crate::render::pow10(w),
    ensures
        text_lt(fixed_digits(n, w), fixed_digits(m, w)),
    decreases w,
{
    let p = crate::render::pow10((w - 1) as nat);
    assert(w > 0);
    let x = fixed_digits(n, w);
    let y = fixed_digits(m, w);
    let px = fixed_digits(n / 10, (w - 1) as nat);
    let py = fixed_digits(m / 10, (w - 1) as nat);
    lemma_fixed_len(n / 10, (w - 1) as nat);
    lemma_fixed_len(m / 10, (w - 1) as nat);
    assert(n / 10 <= m / 10) by (nonlinear_arith)
        requires
            n < m,
    ;
    if n / 10 < m / 10 {
        assert(m / 10 < p) by (nonlinear_arith)
            requires
                m < 10 * p,
        ;
        lemma_fixed_lt(n / 10, m / 10, (w - 1) as nat);
        let k = choose|k: int| #[trigger] differs_first_at(px, py, k);
        assert(differs_first_at(x, y, k));
    } else {
        assert(n % 10 < m % 10) by (nonlinear_arith)
            requires
                n < m,
                n / 10 == m / 10,
        ;
        lemma_digit_order((n % 10) as int, (m % 10) as int);
        assert(differs_first_at(x, y, w - 1));
    }
}

/// Two texts that agree before `off` and hold `fa`, `fb` from there, in
/// that order, are in that order too.
proof fn lemma_field_step(ta: Seq<char>, tb: Seq<char>, fa: Seq<char>, fb: Seq<char>, off: int)
    requires
        0 <= off,
        fa.len() == fb.len(),
        off + fa.len() <= ta.len(),
        off + fb.len() <= tb.len(),
        ta.subrange(0, off) == tb.subrange(0, off),
        ta.subrange(off, off + fa.len()) == fa,
        tb.subrange(off, off + fb.len()) == fb,
        text_lt(fa, fb),
    ensures
        text_lt(ta, tb),
{
    let k = choose|k: int| #[trigger] differs_first_at(fa, fb, k);
    assert(ta[off + k] == fa[k]);
    assert(tb[off + k] == fb[k]);
    assert forall|i: int| 0 <= i < off + k implies ta[i] == tb[i] by {
        if i < off {
            assert(ta[i] == ta.subrange(0, off)[i]);
            assert(tb[i] == tb.subrange(0, off)[i]);
        } else {
            assert(ta[i] == fa[i - off]);
            assert(tb[i] == fb[i - off]);
        }
    }
    assert(differs_first_at(ta, tb, off + k));
}

/// The text of a time keeps the order of times: an earlier time is written
/// before a later one in dictionary order.
pub proof fn lemma_text_order(a: Timestamp, b: Timestamp)
    requires
        a.printable(),
        b.printable(),
        ts_lt(a, b),
    ensures
        text_lt(a.text(), b.text()),
{
    reveal_strlit("-");
    reveal_strlit(" ");
    reveal_strlit(":");
    reveal_with_fuel(crate::render::pow10, 5);
    let ta = a.text();
    let tb = b.text();
    lemma_fixed_len(a.year as nat, 4);
    lemma_fixed_len(b.year as nat, 4);
    lemma_fixed_len(a.month as nat, 2);
    lemma_fixed_len(b.month as nat, 2);
    lemma_fixed_len(a.day as nat, 2);
    lemma_fixed_len(b.day as nat, 2);
    lemma_fixed_len(a.hour as nat, 2);
    lemma_fixed_len(b.hour as nat, 2);
    lemma_fixed_len(a.minute as nat, 2);
    lemma_fixed_len(b.minute as nat, 2);
    lemma_fixed_len(a.second as nat, 2);
    lemma_fixed_len(b.second as nat, 2);
    assert(ta.len() == 19);
    assert(tb.len() == 19);
    if a.year < b.year {
        lemma_fixed_lt(a.year as nat, b.year as nat, 4);
        assert(ta.subrange(0, 4) =~= fixed_digits(a.year as nat, 4));
        assert(tb.subrange(0, 4) =~= fixed_digits(b.year as nat, 4));
        assert(ta.subrange(0, 0) =~= tb.subrange(0, 0));
        lemma_field_step(ta, tb, fixed_digits(a.year as nat, 4), fixed_digits(b.year as nat, 4), 0);
    } else if a.month < b.month {
        lemma_fixed_lt(a.month as nat, b.month as nat, 2);
        assert(ta.subrange(5, 7) =~= fixed_digits(a.month as nat, 2));
        assert(tb.subrange(5, 7) =~= fixed_digits(b.month as nat, 2));
        assert(ta.subrange(0, 5) =~= tb.subrange(0, 5));
        lemma_field_step(ta, tb, fixed_digits(a.month as nat, 2), fixed_digits(b.month as nat, 2), 5);
    } else if a.day < b.day {
        lemma_fixed_lt(a.day as nat, b.day as nat, 2);
        assert(ta.subrange(8, 10) =~= fixed_digits(a.day as nat, 2));
        assert(tb.subrange(8, 10) =~= fixed_digits(b.day as nat, 2));
        assert(ta.subrange(0, 8) =~= tb.subrange(0, 8));
        lemma_field_step(ta, tb, fixed_digits(a.day as nat, 2), fixed_digits(b.day as nat, 2), 8);
    } else if a.hour < b.hour {
        lemma_fixed_lt(a.hour as nat, b.hour as nat, 2);
        assert(ta.subrange(11, 13) =~= fixed_digits(a.hour as nat, 2));
        assert(tb.subrange(11, 13) =~= fixed_digits(b.hour as nat, 2));
        assert(ta.subrange(0, 11) =~= tb.subrange(0, 11));
        lemma_field_step(ta, tb, fixed_digits(a.hour as nat, 2), fixed_digits(b.hour as nat, 2), 11);
    } else if a.minute < b.minute {
        lemma_fixed_lt(a.minute as nat, b.minute as nat, 2);
        assert(ta.subrange(14, 16) =~= fixed_digits(a.minute as nat, 2));
        assert(tb.subrange(14, 16) =~= fixed_digits(b.minute as nat, 2));
        assert(ta.subrange(0, 14) =~= tb.subrange(0, 14));
        lemma_field_step(ta, tb, fixed_digits(a.minute as nat, 2), fixed_digits(b.minute as nat, 2), 14);
    } else {
        lemma_fixed_lt(a.second as nat, b.second as nat, 2);
        assert(ta.subrange(17, 19) =~= fixed_digits(a.second as nat, 2));
        assert(tb.subrange(17, 19) =~= fixed_digits(b.second as nat, 2));
        assert(ta.subrange(0, 17) =~= tb.subrange(0, 17));
        lemma_field_step(ta, tb, fixed_digits(a.second as nat, 2), fixed_digits(b.second as nat, 2), 17);
    }
}

} // verus!

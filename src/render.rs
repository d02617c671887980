//! Numbers written as decimal text.
use crate::number::Decimal;
use vstd::prelude::*;
use vstd::string::StringExecFns;

verus! {

pub open spec fn digit_char(d: int) -> char {
    (48 + d) as char
}

/// The decimal digits of `n`, without leading zeros.
pub open spec fn nat_text(n: nat) -> Seq<char>
    decreases n,
{
    if n < 10 {
        seq![digit_char(n as int)]
    } else {
        nat_text(n / 10) + seq![digit_char((n % 10) as int)]
    }
}

/// The last `w` decimal digits of `n`, zeros in front where it has fewer.
pub open spec fn fixed_digits(n: nat, w: nat) -> Seq<char>
    decreases w,
{
    if w == 0 {
        Seq::empty()
    } else {
        fixed_digits(n / 10, (w - 1) as nat) + seq![digit_char((n % 10) as int)]
    }
}

pub open spec fn pow10(k: nat) -> nat
    decreases k,
{
    if k == 0 {
        1
    } else {
        10 * pow10((k - 1) as nat)
    }
}

pub open spec fn abs(n: int) -> nat {
    if n < 0 {
        (-n) as nat
    } else {
        n as nat
    }
}

pub open spec fn sign_text(n: int) -> Seq<char> {
    if n < 0 {
        "-"@
    } else {
        Seq::empty()
    }
}

/// An integer as decimal text, with `-` in front of a negative one.
pub open spec fn int_text(n: int) -> Seq<char> {
    sign_text(n) + nat_text(abs(n))
}

/// A decimal as text, with exactly `scale` digits after the point.
pub open spec fn decimal_text(d: Decimal) -> Seq<char> {
    let m = abs(d.mantissa as int);
    let p = pow10(d.scale as nat);
    sign_text(d.mantissa as int) + nat_text(m / p) + if d.scale > 0 {
        "."@ + fixed_digits(m % p, d.scale as nat)
    } else {
        Seq::empty()
    }
}

fn digit_str(d: u64) -> (r: &'static str)
    requires
        d < 10,
    ensures
        r@ == seq![digit_char(d as int)],
{
    proof {
        reveal_strlit("0");
        reveal_strlit("1");
        reveal_strlit("2");
        reveal_strlit("3");
        reveal_strlit("4");
        reveal_strlit("5");
        reveal_strlit("6");
        reveal_strlit("7");
        reveal_strlit("8");
        reveal_strlit("9");
    }
    let r = match d {
        0 => "0",
        1 => "1",
        2 => "2",
        3 => "3",
        4 => "4",
        5 => "5",
        6 => "6",
        7 => "7",
        8 => "8",
        _ => "9",
    };
    assert(r@ =~= seq![digit_char(d as int)]);
    r
}

/// Appends the decimal digits of `n`.
pub fn push_nat(s: &mut String, n: u64)
    ensures
        final(s)@ == old(s)@ + nat_text(n as nat),
    decreases n,
{
    if n >= 10 {
        push_nat(s, n / 10);
    }
    s.append(digit_str(n % 10));
    assert(final(s)@ =~= old(s)@ + nat_text(n as nat));
}

/// Appends the last `w` decimal digits of `n`.
pub fn push_fixed(s: &mut String, n: u64, w: u32)
    ensures
        final(s)@ == old(s)@ + fixed_digits(n as nat, w as nat),
    decreases w,
{
    if w > 0 {
        push_fixed(s, n / 10, w - 1);
        s.append(digit_str(n % 10));
    }
    assert(final(s)@ =~= old(s)@ + fixed_digits(n as nat, w as nat));
}

/// An integer as decimal text.
pub fn int_to_text(n: i64) -> (r: String)
    ensures
        r@ == int_text(n as int),
{
    let mut s = String::new();
    let m: u64 = if n < 0 {
        s.append("-");
        (0i128 - n as i128) as u64
    } else {
        n as u64
    };
    push_nat(&mut s, m);
    assert(s@ =~= int_text(n as int));
    s
}

fn pow10_exec(k: u32) -> (r: u64)
    requires
        k <= 18,
    ensures
        r as nat == pow10(k as nat),
{
    let mut p: u64 = 1;
    let mut i: u32 = 0;
    while i < k
        invariant
            i <= k <= 18,
            p as nat == pow10(i as nat),
        decreases k - i,
    {
        proof {
            lemma_pow10_mono((i + 1) as nat, 18);
            reveal_with_fuel(pow10, 19);
        }
        p = p * 10;
        i = i + 1;
    }
    p
}

proof fn lemma_pow10_mono(a: nat, b: nat)
    requires
        a <= b,
    ensures
        pow10(a) <= pow10(b),
    decreases b,
{
    if a < b {
        lemma_pow10_mono(a, (b - 1) as nat);
        lemma_pow10_pos((b - 1) as nat);
    }
}

proof fn lemma_pow10_pos(k: nat)
    ensures
        pow10(k) >= 1,
    decreases k,
{
    if k > 0 {
        lemma_pow10_pos((k - 1) as nat);
    }
}

/// A decimal as text, with exactly `scale` digits after the point.
pub fn decimal_to_text(d: Decimal) -> (r: String)
    requires
        d.scale <= 18,
    ensures
        r@ == decimal_text(d),
{
    let mut s = String::new();
    let m: u64 = if d.mantissa < 0 {
        s.append("-");
        (0i128 - d.mantissa as i128) as u64
    } else {
        d.mantissa as u64
    };
    let p = pow10_exec(d.scale);
    proof {
        lemma_pow10_pos(d.scale as nat);
    }
    push_nat(&mut s, m / p);
    if d.scale > 0 {
        s.append(".");
        push_fixed(&mut s, m % p, d.scale);
    }
    assert(s@ =~= decimal_text(d));
    s
}

} // verus!

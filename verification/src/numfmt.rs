//! Rendering of fixed-point numbers as decimal strings.
//!
//! Measurement values are stored in thousandths of a unit (milli scale).
//! Rendering rounds such a value to a requested number of fractional digits
//! (half away from zero) and prints it, mirroring the usual fixed-precision
//! display of numeric values.

use vstd::prelude::*;
use vstd::arithmetic::div_mod::lemma_multiply_divide_lt;

verus! {

/// Largest magnitude (in thousandths) that the renderer accepts.
pub const MILLI_ABS_MAX: i64 = 1_000_000_000_000;

/// Largest fractional-digit count that the renderer accepts.
pub const MAX_DECIMALS: usize = 6;

/// Ten to the power `e`.
pub open spec fn pow10(e: nat) -> nat
    decreases e,
{
    if e == 0 {
        1
    } else {
        10 * pow10((e - 1) as nat)
    }
}

pub proof fn lemma_pow10_pos(e: nat)
    ensures
        pow10(e) >= 1,
    decreases e,
{
    if e > 0 {
        lemma_pow10_pos((e - 1) as nat);
    }
}

pub proof fn lemma_pow10_mono(a: nat, b: nat)
    requires
        a <= b,
    ensures
        pow10(a) <= pow10(b),
    decreases b,
{
    if a < b {
        lemma_pow10_mono(a, (b - 1) as nat);
    }
}

/// The character for one decimal digit.
pub open spec fn digit_char(d: nat) -> char {
    if d == 0 {
        '0'
    } else if d == 1 {
        '1'
    } else if d == 2 {
        '2'
    } else if d == 3 {
        '3'
    } else if d == 4 {
        '4'
    } else if d == 5 {
        '5'
    } else if d == 6 {
        '6'
    } else if d == 7 {
        '7'
    } else if d == 8 {
        '8'
    } else {
        '9'
    }
}

/// The decimal digits of `n`, most significant first, without leading zeros
/// (a single `'0'` for zero).
pub open spec fn dec_digits(n: nat) -> Seq<char>
    decreases n,
{
    if n < 10 {
        seq![digit_char(n)]
    } else {
        dec_digits(n / 10).push(digit_char(n % 10))
    }
}

/// A number below `pow10(k)` has at most `k` decimal digits.
pub proof fn lemma_dec_digits_len(n: nat, k: nat)
    requires
        k >= 1,
        n < pow10(k),
    ensures
        dec_digits(n).len() <= k,
    decreases k,
{
    if n >= 10 {
        if k == 1 {
            assert(pow10(1nat) == 10) by {
                reveal_with_fuel(pow10, 3);
            }
        } else {
            assert(pow10(k) == 10 * pow10((k - 1) as nat));
            lemma_multiply_divide_lt(n as int, 10, pow10((k - 1) as nat) as int);
            lemma_dec_digits_len(n / 10, (k - 1) as nat);
        }
    }
}

/// The value `m` (in thousandths), rounded half away from zero to `d`
/// fractional digits and scaled to an integer with `d` implied fractional
/// digits.
pub open spec fn rounded_scaled(m: nat, d: nat) -> nat {
    (m * pow10(d) + 500) / 1000
}

/// `s` left-padded with `'0'` up to width `w`.
pub open spec fn zero_pad(s: Seq<char>, w: nat) -> Seq<char> {
    if s.len() >= w {
        s
    } else {
        Seq::new((w - s.len()) as nat, |i: int| '0') + s
    }
}

/// The rendering of the non-negative value `m` (in thousandths) with exactly
/// `d` fractional digits: integer part, then, if `d > 0`, a point and the
/// zero-padded fractional part.
pub open spec fn fixed_chars(m: nat, d: nat) -> Seq<char> {
    let r = rounded_scaled(m, d);
    if d == 0 {
        dec_digits(r)
    } else {
        dec_digits(r / pow10(d)) + seq!['.'] + zero_pad(dec_digits(r % pow10(d)), d)
    }
}

/// The rendering of the signed value `v` (in thousandths) with exactly `d`
/// fractional digits; a negative value is rendered with a leading minus sign.
pub open spec fn value_chars(v: int, d: nat) -> Seq<char> {
    if v < 0 {
        seq!['-'] + fixed_chars((0 - v) as nat, d)
    } else {
        fixed_chars(v as nat, d)
    }
}

/// Ten to the power `e`, as a machine integer.
pub fn pow10_u64(e: usize) -> (r: u64)
    requires
        e <= 12,
    ensures
        r as nat == pow10(e as nat),
{
    let mut r: u64 = 1;
    let mut i: usize = 0;
    while i < e
        invariant
            i <= e <= 12,
            r as nat == pow10(i as nat),
        decreases e - i,
    {
        proof {
            lemma_pow10_mono(i as nat, 11);
            assert(pow10(11nat) == 100_000_000_000) by {
                reveal_with_fuel(pow10, 13);
            }
        }
        r = r * 10;
        i = i + 1;
    }
    r
}

/// The one-character string for a decimal digit.
fn digit_str(d: u64) -> (r: &'static str)
    requires
        d < 10,
    ensures
        r@ =~= seq![digit_char(d as nat)],
{
    proof {
        reveal_strlit("0");
        reveal_strlit("1");
        reveal_strlit("2");
        reveal_strlit("3");
        reveal_strlit("4");
        reveal_strlit("5");
        reveal_strlit("6");
        reveal_strlit("7");
        reveal_strlit("8");
        reveal_strlit("9");
    }
    match d {
        0 => "0",
        1 => "1",
        2 => "2",
        3 => "3",
        4 => "4",
        5 => "5",
        6 => "6",
        7 => "7",
        8 => "8",
        _ => "9",
    }
}

/// The decimal digits of `n`, as a string.
pub fn u64_string(n: u64) -> (r: String)
    ensures
        r@ == dec_digits(n as nat),
    decreases n,
{
    if n < 10 {
        let r = String::from_str(digit_str(n));
        proof {
            assert(r@ =~= dec_digits(n as nat));
        }
        r
    } else {
        let mut s = u64_string(n / 10);
        s.append(digit_str(n % 10));
        proof {
            assert(s@ =~= dec_digits(n as nat));
        }
        s
    }
}

/// Renders the non-negative value `m` (in thousandths) with exactly `d`
/// fractional digits.
pub fn fixed_string(m: u64, d: usize) -> (r: String)
    requires
        m <= MILLI_ABS_MAX,
        d <= MAX_DECIMALS,
    ensures
        r@ == fixed_chars(m as nat, d as nat),
{
    proof {
        reveal_strlit(".");
        reveal_strlit("0");
        lemma_pow10_mono(d as nat, 6);
        assert(pow10(6nat) == 1_000_000) by {
            reveal_with_fuel(pow10, 8);
        }
    }
    let p: u64 = pow10_u64(d);
    proof {
        assert(m * p <= 1_000_000_000_000_000_000) by (nonlinear_arith)
            requires
                0 <= m <= 1_000_000_000_000,
                0 <= p <= 1_000_000,
        ;
    }
    let scaled: u64 = (m * p + 500) / 1000;
    if d == 0 {
        u64_string(scaled)
    } else {
        proof {
            lemma_pow10_pos(d as nat);
        }
        let ip: u64 = scaled / p;
        let fr: u64 = scaled % p;
        proof {
            lemma_dec_digits_len(fr as nat, d as nat);
        }
        let mut s = u64_string(ip);
        s.append(".");
        let f_str = u64_string(fr);
        let fl: usize = f_str.as_str().unicode_len();
        let mut i: usize = fl;
        while i < d
            invariant
                fl <= i <= d,
                fl == dec_digits(fr as nat).len(),
                s@ == dec_digits(ip as nat) + seq!['.'] + Seq::new((i - fl) as nat, |j: int| '0'),
            decreases d - i,
        {
            proof {
                reveal_strlit("0");
            }
            s.append("0");
            i = i + 1;
            proof {
                assert(s@ =~= dec_digits(ip as nat) + seq!['.'] + Seq::new(
                    (i - fl) as nat,
                    |j: int| '0',
                ));
            }
        }
        s.append(f_str.as_str());
        proof {
            assert(s@ =~= fixed_chars(m as nat, d as nat));
        }
        s
    }
}

/// Renders the signed value `v` (in thousandths) with exactly `d` fractional
/// digits.
pub fn value_string(v: i64, d: usize) -> (r: String)
    requires
        -MILLI_ABS_MAX <= v <= MILLI_ABS_MAX,
        d <= MAX_DECIMALS,
    ensures
        r@ == value_chars(v as int, d as nat),
{
    if v < 0 {
        proof {
            reveal_strlit("-");
        }
        let mut s = String::from_str("-");
        let t = fixed_string((-v) as u64, d);
        s.append(t.as_str());
        proof {
            assert(s@ =~= value_chars(v as int, d as nat));
        }
        s
    } else {
        fixed_string(v as u64, d)
    }
}

} // verus!

//! Conversion of provider-native values into display units: remaining-time
//! estimates into the configured time format, and temperatures into the
//! configured temperature unit.

use vstd::prelude::*;
use human_time::ToHumanTimeString;
use crate::enums::TimeFormat;
use crate::numfmt::{dec_digits, digit_char, value_chars, value_string, MILLI_ABS_MAX};

verus! {

/// One duration component: the count followed by its unit label.
pub open spec fn component_chars(n: nat, unit: Seq<char>) -> Seq<char> {
    dec_digits(n) + unit
}

/// The comma-joined rendering of the components whose count is non-zero.
pub open spec fn join_nonzero(parts: Seq<(nat, Seq<char>)>) -> Seq<char>
    decreases parts.len(),
{
    if parts.len() == 0 {
        Seq::empty()
    } else {
        let rest = join_nonzero(parts.drop_first());
        if parts[0].0 == 0 {
            rest
        } else if rest.len() == 0 {
            component_chars(parts[0].0, parts[0].1)
        } else {
            component_chars(parts[0].0, parts[0].1) + seq![','] + rest
        }
    }
}

/// The human-friendly rendering of a whole-second duration: day, hour,
/// minute and second counts, each non-zero count rendered as the count
/// followed by its unit letter and joined with commas; a zero duration is
/// rendered in the smallest unit, as `0μs`.
pub open spec fn human_duration_chars(s: nat) -> Seq<char> {
    if s == 0 {
        seq!['0', 'μ', 's']
    } else {
        join_nonzero(
            seq![
                (s / 86400, seq!['d']),
                ((s % 86400) / 3600, seq!['h']),
                ((s % 3600) / 60, seq!['m']),
                (s % 60, seq!['s']),
            ],
        )
    }
}

/// Relies on `human_time::ToHumanTimeString::to_human_time_string` for
/// `std::time::Duration`: a pure function of the duration that splits it
/// into day, hour, minute, second, millisecond and microsecond counts,
/// renders each non-zero count as the count followed by its unit label,
/// joins them with commas, and renders a zero duration as `0μs`. For a
/// whole-second duration the sub-second counts are zero, which
/// `human_duration_chars` states.
#[verifier::external_body]
fn human_time_string(secs: u64) -> (r: String)
    ensures
        r@ == human_duration_chars(secs as nat),
{
    std::time::Duration::from_secs(secs).to_human_time_string()
}

/// The rendering of a remaining-time estimate of `milli_s` thousandths of a
/// second: raw seconds or minutes with one fractional digit (minutes rounded
/// to the nearest thousandth), or the human-friendly form of the
/// whole-second truncation.
pub open spec fn time_chars(fmt: TimeFormat, milli_s: nat) -> Seq<char> {
    match fmt {
        TimeFormat::Seconds => value_chars(milli_s as int, 1) + " seconds"@,
        TimeFormat::Minutes => value_chars(((milli_s + 30) / 60) as int, 1) + " minutes"@,
        TimeFormat::Human => human_duration_chars(milli_s / 1000),
    }
}

/// Renders a remaining-time estimate of `milli_s` thousandths of a second in
/// the given format.
pub fn time_string(fmt: TimeFormat, milli_s: u64) -> (r: String)
    requires
        milli_s <= MILLI_ABS_MAX,
    ensures
        r@ == time_chars(fmt, milli_s as nat),
{
    match fmt {
        TimeFormat::Seconds => {
            let mut s = value_string(milli_s as i64, 1);
            s.append(" seconds");
            s
        },
        TimeFormat::Minutes => {
            let mm: u64 = (milli_s + 30) / 60;
            let mut s = value_string(mm as i64, 1);
            s.append(" minutes");
            s
        },
        TimeFormat::Human => human_time_string(milli_s / 1000),
    }
}

/// No character of a number's digits is the micro sign.
proof fn lemma_dec_digits_no_micro(n: nat)
    ensures
        forall|i: int| 0 <= i < dec_digits(n).len() ==> dec_digits(n)[i] != 'μ',
    decreases n,
{
    if n >= 10 {
        lemma_dec_digits_no_micro(n / 10);
        assert forall|i: int| 0 <= i < dec_digits(n).len() implies dec_digits(n)[i] != 'μ' by {
            let prefix = dec_digits(n / 10);
            assert(dec_digits(n) == prefix.push(digit_char(n % 10)));
            if i < prefix.len() {
                assert(dec_digits(n)[i] == prefix[i]);
            } else {
                assert(dec_digits(n)[i] == digit_char(n % 10));
            }
        }
    }
}

/// A join of components whose unit labels are free of the micro sign is
/// itself free of it.
proof fn lemma_join_no_micro(parts: Seq<(nat, Seq<char>)>)
    requires
        forall|k: int, j: int|
            0 <= k < parts.len() && 0 <= j < parts[k].1.len() ==> parts[k].1[j] != 'μ',
    ensures
        forall|i: int| 0 <= i < join_nonzero(parts).len() ==> join_nonzero(parts)[i] != 'μ',
    decreases parts.len(),
{
    if parts.len() > 0 {
        assert forall|k: int, j: int|
            0 <= k < parts.drop_first().len() && 0 <= j < parts.drop_first()[k].1.len() implies
            parts.drop_first()[k].1[j] != 'μ' by {
            assert(parts.drop_first()[k] == parts[k + 1]);
        }
        lemma_join_no_micro(parts.drop_first());
        lemma_dec_digits_no_micro(parts[0].0);
        let rest = join_nonzero(parts.drop_first());
        let head = component_chars(parts[0].0, parts[0].1);
        let digits = dec_digits(parts[0].0);
        assert forall|i: int| 0 <= i < join_nonzero(parts).len() implies join_nonzero(parts)[i]
            != 'μ' by {
            if parts[0].0 == 0 {
                assert(join_nonzero(parts) == rest);
            } else if rest.len() == 0 {
                assert(join_nonzero(parts) == head);
                if i < digits.len() {
                    assert(head[i] == digits[i]);
                } else {
                    assert(head[i] == parts[0].1[i - digits.len()]);
                }
            } else {
                assert(join_nonzero(parts) == head + seq![','] + rest);
                if i < digits.len() {
                    assert(join_nonzero(parts)[i] == digits[i]);
                } else if i < head.len() {
                    assert(join_nonzero(parts)[i] == parts[0].1[i - digits.len()]);
                } else if i == head.len() {
                    assert(join_nonzero(parts)[i] == ',');
                } else {
                    assert(join_nonzero(parts)[i] == rest[i - head.len() - 1]);
                }
            }
        }
    }
}

/// A positive whole-second duration renders without a sub-second component:
/// the micro sign, the marker of the smallest unit, never appears in it.
pub proof fn lemma_human_no_subsecond_marker(s: nat)
    requires
        s >= 1,
    ensures
        forall|i: int|
            0 <= i < human_duration_chars(s).len() ==> human_duration_chars(s)[i] != 'μ',
{
    let parts = seq![
        (s / 86400, seq!['d']),
        ((s % 86400) / 3600, seq!['h']),
        ((s % 3600) / 60, seq!['m']),
        (s % 60, seq!['s']),
    ];
    assert forall|k: int, j: int|
        0 <= k < parts.len() && 0 <= j < parts[k].1.len() implies parts[k].1[j] != 'μ' by {
        assert(parts[k].1.len() == 1);
    }
    lemma_join_no_micro(parts);
}

/// A human-format estimate is a function of the whole seconds alone — the
/// value is truncated before rendering, so no sub-second component can
/// appear: two estimates that agree on their whole-second truncation render
/// identically.
pub proof fn lemma_human_whole_seconds(a: nat, b: nat)
    requires
        a / 1000 == b / 1000,
    ensures
        time_chars(TimeFormat::Human, a) == time_chars(TimeFormat::Human, b),
{
}

/// Thousandths of a degree Fahrenheit corresponding to `c` thousandths of a
/// degree Celsius: nine fifths of `c`, rounded toward negative infinity,
/// plus thirty-two degrees.
pub open spec fn fahrenheit_milli(c: int) -> int {
    (c * 9 + 160_000) / 5
}

/// Converts a temperature from thousandths of a degree Celsius to
/// thousandths of a degree Fahrenheit.
pub fn celsius_to_fahrenheit_milli(c: i64) -> (r: i64)
    requires
        -1_000_000_000 <= c <= 1_000_000_000,
    ensures
        r == fahrenheit_milli(c as int),
{
    let n: i64 = c * 9 + 160_000;
    if n >= 0 {
        n / 5
    } else {
        let q: i64 = (-n + 4) / 5;
        proof {
            assert(q == -((n as int) / 5)) by (nonlinear_arith)
                requires
                    n < 0,
                    q == (-(n as int) + 4) / 5,
            ;
        }
        -q
    }
}

} // verus!

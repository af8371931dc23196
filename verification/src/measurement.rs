//! A measurement: a numeric value paired with a unit label and a display
//! precision.

use vstd::prelude::*;
use crate::numfmt::{value_chars, value_string, MAX_DECIMALS, MILLI_ABS_MAX};

verus! {

/// The rendering of a measurement: the value with `decimals` fractional
/// digits, then the unit label, with no separating space when the unit is
/// `"%"` and a single space otherwise.
pub open spec fn formatted_chars(value: int, units: Seq<char>, decimals: nat) -> Seq<char> {
    if units == seq!['%'] {
        value_chars(value, decimals) + units
    } else {
        value_chars(value, decimals) + seq![' '] + units
    }
}

/// The rendering of a measurement, from its stored fields.
pub open spec fn measurement_chars(m: Measurement) -> Seq<char> {
    formatted_chars(m.value as int, m.units@, m.decimals as nat)
}

/// An immutable value object: a numeric value (in thousandths of a unit), a
/// unit label, and the number of fractional digits to display.
pub struct Measurement {
    /// The value, in thousandths of a unit.
    pub value: i64,
    /// The display label of the unit.
    pub units: String,
    /// The number of fractional digits to display.
    pub decimals: usize,
}

impl Measurement {
    /// The value and precision are within the renderer's range.
    pub open spec fn wf(&self) -> bool {
        &&& -MILLI_ABS_MAX <= self.value <= MILLI_ABS_MAX
        &&& self.decimals <= MAX_DECIMALS
    }

    /// Pure constructor.
    pub fn new(value: i64, units: String, decimals: usize) -> (r: Self)
        requires
            -MILLI_ABS_MAX <= value <= MILLI_ABS_MAX,
            decimals <= MAX_DECIMALS,
        ensures
            r.value == value,
            r.units == units,
            r.decimals == decimals,
            r.wf(),
    {
        Measurement { value, units, decimals }
    }

    /// Read-only view of the value, in thousandths of a unit.
    pub fn value(&self) -> (r: i64)
        ensures
            r == self.value,
    {
        self.value
    }

    /// Read-only view of the unit label.
    pub fn units(&self) -> (r: &String)
        ensures
            r == &self.units,
    {
        &self.units
    }

    /// Renders the measurement without mutating it; the result is a pure
    /// function of the stored fields.
    pub fn formatted(&self) -> (r: String)
        requires
            self.wf(),
        ensures
            r@ == formatted_chars(self.value as int, self.units@, self.decimals as nat),
    {
        let mut s = value_string(self.value, self.decimals);
        if !is_percent(&self.units) {
            proof {
                reveal_strlit(" ");
            }
            s.append(" ");
        }
        s.append(self.units.as_str());
        proof {
            assert(s@ =~= formatted_chars(self.value as int, self.units@, self.decimals as nat));
        }
        s
    }
}

/// Whether a unit label is exactly the percent sign.
fn is_percent(u: &String) -> (r: bool)
    ensures
        r == (u@ == seq!['%']),
{
    proof {
        reveal_strlit("%");
    }
    let us = u.as_str();
    if us.unicode_len() == 1 {
        let c = us.get_char(0);
        if c == '%' {
            proof {
                assert(u@ =~= seq!['%']);
            }
            true
        } else {
            false
        }
    } else {
        false
    }
}

/// Rendering is idempotent: any two renderings of the same value, unit label
/// and precision are the same string.
pub proof fn lemma_formatted_deterministic(
    value: int,
    units: Seq<char>,
    decimals: nat,
    r1: Seq<char>,
    r2: Seq<char>,
)
    requires
        r1 == formatted_chars(value, units, decimals),
        r2 == formatted_chars(value, units, decimals),
    ensures
        r1 == r2,
{
}

} // verus!

//! Configuration enumerations and the battery charge state.

use vstd::prelude::*;

verus! {

/// The format in which remaining-time estimates are rendered.
#[derive(Debug, Clone, Copy, PartialEq, Eq, Structural)]
pub enum TimeFormat {
    /// Raw seconds with one fractional digit.
    Seconds,
    /// Minutes with one fractional digit.
    Minutes,
    /// A human-friendly duration string built from whole seconds.
    Human,
}

impl TimeFormat {
    /// The symbolic name of the variant.
    pub fn name(&self) -> (r: String)
        ensures
            r@ == match *self {
                TimeFormat::Seconds => "Seconds"@,
                TimeFormat::Minutes => "Minutes"@,
                TimeFormat::Human => "Human"@,
            },
    {
        match *self {
            TimeFormat::Seconds => String::from_str("Seconds"),
            TimeFormat::Minutes => String::from_str("Minutes"),
            TimeFormat::Human => String::from_str("Human"),
        }
    }
}

/// The unit in which temperatures are rendered.
#[derive(Debug, Clone, Copy, PartialEq, Eq, Structural)]
pub enum TempUnit {
    /// Degrees Celsius.
    DegC,
    /// Degrees Fahrenheit.
    DegF,
}

impl TempUnit {
    /// The symbolic name of the variant.
    pub fn name(&self) -> (r: String)
        ensures
            r@ == match *self {
                TempUnit::DegC => "DegC"@,
                TempUnit::DegF => "DegF"@,
            },
    {
        match *self {
            TempUnit::DegC => String::from_str("DegC"),
            TempUnit::DegF => String::from_str("DegF"),
        }
    }
}

/// The charge state a provider reports for a battery.
#[derive(Debug, Clone, Copy, PartialEq, Eq, Structural)]
pub enum State {
    Unknown,
    Charging,
    Discharging,
    Empty,
    Full,
}

/// The symbolic name of a charge state.
pub open spec fn state_name_chars(s: State) -> Seq<char> {
    match s {
        State::Unknown => "Unknown"@,
        State::Charging => "Charging"@,
        State::Discharging => "Discharging"@,
        State::Empty => "Empty"@,
        State::Full => "Full"@,
    }
}

/// The lower-case display form of a charge state.
pub open spec fn state_display_chars(s: State) -> Seq<char> {
    match s {
        State::Unknown => "unknown"@,
        State::Charging => "charging"@,
        State::Discharging => "discharging"@,
        State::Empty => "empty"@,
        State::Full => "full"@,
    }
}

impl State {
    /// The symbolic name of the variant, for structured access.
    pub fn name(&self) -> (r: String)
        ensures
            r@ == state_name_chars(*self),
    {
        match *self {
            State::Unknown => String::from_str("Unknown"),
            State::Charging => String::from_str("Charging"),
            State::Discharging => String::from_str("Discharging"),
            State::Empty => String::from_str("Empty"),
            State::Full => String::from_str("Full"),
        }
    }

    /// The lower-case display form of the variant, for diagnostic output.
    pub fn display(&self) -> (r: String)
        ensures
            r@ == state_display_chars(*self),
    {
        match *self {
            State::Unknown => String::from_str("unknown"),
            State::Charging => String::from_str("charging"),
            State::Discharging => String::from_str("discharging"),
            State::Empty => String::from_str("empty"),
            State::Full => String::from_str("full"),
        }
    }
}

} // verus!

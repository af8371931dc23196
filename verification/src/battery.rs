//! One battery's attribute set: construction from provider data, the
//! interval-gated refresh policy, and the volatile-snapshot merge.
//!
//! Querying the operating system's power subsystem is the surrounding
//! application's job. It enumerates batteries, resolves the requested index
//! with [`select_battery`], queries the provider for that battery, and hands
//! the outcome in as a [`ProviderSnapshot`]. Reading a volatile field is a
//! two-step contract: poll [`Battery::needs_refresh`] with the current time;
//! when it returns true, re-query the provider and merge the outcome with
//! [`Battery::refresh`]; then read the field.

use vstd::prelude::*;
use crate::convert::{celsius_to_fahrenheit_milli, fahrenheit_milli, time_chars, time_string};
use crate::enums::{State, TempUnit, TimeFormat};
use crate::enums::state_display_chars;
use crate::measurement::{measurement_chars, Measurement};
use crate::numfmt::{dec_digits, u64_string, MILLI_ABS_MAX};

verus! {

/// Why acquiring or refreshing battery data failed.
#[derive(Debug, PartialEq, Eq)]
pub enum Error {
    /// The provider enumerated no batteries at all.
    NoBatteriesFound,
    /// The requested battery index is not below the number of batteries.
    IndexOutOfRange,
    /// The provider itself failed; carries the underlying message.
    ProviderError(String),
}

/// What the hardware provider reports for one battery, as plain values:
/// strings as reported, physical quantities in thousandths of their display
/// unit (percent, degree Celsius, watt-hour, watt, volt, second).
pub struct ProviderSnapshot {
    pub vendor: Option<String>,
    pub model: Option<String>,
    pub serial_number: Option<String>,
    pub technology: String,
    pub state_of_charge_milli_percent: i64,
    pub state: State,
    pub state_of_health_milli_percent: i64,
    pub temperature_milli_celsius: Option<i64>,
    pub cycle_count: Option<u32>,
    pub energy_milli_wh: i64,
    pub energy_full_milli_wh: i64,
    pub energy_full_design_milli_wh: i64,
    pub energy_rate_milli_w: i64,
    pub voltage_milli_v: i64,
    pub time_to_empty_milli_s: Option<u64>,
    pub time_to_full_milli_s: Option<u64>,
}

impl ProviderSnapshot {
    /// Every quantity is within the range the converters accept.
    pub open spec fn wf(&self) -> bool {
        &&& -MILLI_ABS_MAX <= self.state_of_charge_milli_percent <= MILLI_ABS_MAX
        &&& -MILLI_ABS_MAX <= self.state_of_health_milli_percent <= MILLI_ABS_MAX
        &&& (self.temperature_milli_celsius matches Some(c) ==> -1_000_000_000 <= c
            <= 1_000_000_000)
        &&& -MILLI_ABS_MAX <= self.energy_milli_wh <= MILLI_ABS_MAX
        &&& -MILLI_ABS_MAX <= self.energy_full_milli_wh <= MILLI_ABS_MAX
        &&& -MILLI_ABS_MAX <= self.energy_full_design_milli_wh <= MILLI_ABS_MAX
        &&& -MILLI_ABS_MAX <= self.energy_rate_milli_w <= MILLI_ABS_MAX
        &&& -MILLI_ABS_MAX <= self.voltage_milli_v <= MILLI_ABS_MAX
        &&& (self.time_to_empty_milli_s matches Some(t) ==> t <= MILLI_ABS_MAX)
        &&& (self.time_to_full_milli_s matches Some(t) ==> t <= MILLI_ABS_MAX)
    }
}

/// The result of trimming an optional identity string: absence is kept,
/// presence is kept with the whitespace-trimmed characters.
pub open spec fn is_trimmed_of(out: Option<String>, inp: Option<String>) -> bool {
    match inp {
        Option::None => out is None,
        Option::Some(v) => out matches Some(w) && w@ == trim_of(v@),
    }
}

/// The characters of `str::trim` applied to `s`.
pub uninterp spec fn trim_of(s: Seq<char>) -> Seq<char>;

/// Relies on `str::trim`: returns the string with leading and trailing
/// whitespace removed, a pure function of the characters alone.
#[verifier::external_body]
fn trim_string(s: String) -> (r: String)
    ensures
        r@ == trim_of(s@),
{
    s.trim().to_owned()
}

/// Trims an optional identity string, keeping absence as absence.
fn trim_opt(o: Option<String>) -> (r: Option<String>)
    ensures
        is_trimmed_of(r, o),
{
    match o {
        Option::None => Option::None,
        Option::Some(v) => Option::Some(trim_string(v)),
    }
}

/// One battery's full attribute set, cached between refreshes.
pub struct Battery {
    /// Identity: set at construction, never changed by a refresh.
    pub vendor: Option<String>,
    pub model: Option<String>,
    pub serial_number: Option<String>,
    pub technology: String,
    /// Volatile snapshot: replaced wholesale on every refresh.
    pub percent_full: Measurement,
    pub state: State,
    pub capacity: Measurement,
    pub temperature: Option<Measurement>,
    pub cycle_count: Option<u32>,
    pub energy: Measurement,
    pub energy_full: Measurement,
    pub energy_full_design: Measurement,
    pub energy_rate: Measurement,
    pub voltage: Measurement,
    pub time_to_empty: Option<String>,
    pub time_to_full: Option<String>,
    /// Configuration: set at construction, mutable thereafter.
    pub time_format: TimeFormat,
    pub temp_unit: TempUnit,
    pub refresh_interval_ms: u64,
    /// Bookkeeping: when the volatile snapshot was taken, and which index
    /// the record was constructed with.
    pub last_refresh_ms: u64,
    pub battery_index: usize,
}

/// The identity fields and the stored index of `a` and `b` agree.
pub open spec fn same_identity(a: Battery, b: Battery) -> bool {
    &&& a.vendor == b.vendor
    &&& a.model == b.model
    &&& a.serial_number == b.serial_number
    &&& a.technology == b.technology
    &&& a.battery_index == b.battery_index
}

/// The configuration fields of `a` and `b` agree.
pub open spec fn same_config(a: Battery, b: Battery) -> bool {
    &&& a.time_format == b.time_format
    &&& a.temp_unit == b.temp_unit
    &&& a.refresh_interval_ms == b.refresh_interval_ms
}

/// The volatile fields of `a` and `b` agree.
pub open spec fn same_volatile(a: Battery, b: Battery) -> bool {
    &&& a.percent_full == b.percent_full
    &&& a.state == b.state
    &&& a.capacity == b.capacity
    &&& a.temperature == b.temperature
    &&& a.cycle_count == b.cycle_count
    &&& a.energy == b.energy
    &&& a.energy_full == b.energy_full
    &&& a.energy_full_design == b.energy_full_design
    &&& a.energy_rate == b.energy_rate
    &&& a.voltage == b.voltage
    &&& a.time_to_empty == b.time_to_empty
    &&& a.time_to_full == b.time_to_full
}

/// The identity fields of `b` are the trimmed identity strings of snapshot
/// `s`.
pub open spec fn identity_from(b: Battery, s: ProviderSnapshot) -> bool {
    &&& is_trimmed_of(b.vendor, s.vendor)
    &&& is_trimmed_of(b.model, s.model)
    &&& is_trimmed_of(b.serial_number, s.serial_number)
    &&& b.technology == s.technology
}

/// The volatile fields of `b` hold exactly the values of snapshot `s`,
/// converted for time format `tf` and temperature unit `tu`: percentages,
/// energies and voltage as measurements with one fractional digit, the
/// temperature in the requested unit, and the remaining-time estimates
/// rendered in the requested format.
pub open spec fn snapshot_applied(
    b: Battery,
    s: ProviderSnapshot,
    tf: TimeFormat,
    tu: TempUnit,
) -> bool {
    &&& b.percent_full.value == s.state_of_charge_milli_percent
    &&& b.percent_full.units@ == "%"@
    &&& b.percent_full.decimals == 1
    &&& b.state == s.state
    &&& b.capacity.value == s.state_of_health_milli_percent
    &&& b.capacity.units@ == "%"@
    &&& b.capacity.decimals == 1
    &&& match s.temperature_milli_celsius {
        Option::None => b.temperature is None,
        Option::Some(c) => b.temperature matches Some(m) && m.decimals == 1 && match tu {
            TempUnit::DegC => m.value == c && m.units@ == "°C"@,
            TempUnit::DegF => m.value == fahrenheit_milli(c as int) && m.units@ == "°F"@,
        },
    }
    &&& b.cycle_count == s.cycle_count
    &&& b.energy.value == s.energy_milli_wh
    &&& b.energy.units@ == "Wh"@
    &&& b.energy.decimals == 1
    &&& b.energy_full.value == s.energy_full_milli_wh
    &&& b.energy_full.units@ == "Wh"@
    &&& b.energy_full.decimals == 1
    &&& b.energy_full_design.value == s.energy_full_design_milli_wh
    &&& b.energy_full_design.units@ == "Wh"@
    &&& b.energy_full_design.decimals == 1
    &&& b.energy_rate.value == s.energy_rate_milli_w
    &&& b.energy_rate.units@ == "W"@
    &&& b.energy_rate.decimals == 1
    &&& b.voltage.value == s.voltage_milli_v
    &&& b.voltage.units@ == "V"@
    &&& b.voltage.decimals == 1
    &&& match s.time_to_empty_milli_s {
        Option::None => b.time_to_empty is None,
        Option::Some(ms) => b.time_to_empty matches Some(t) && t@ == time_chars(tf, ms as nat),
    }
    &&& match s.time_to_full_milli_s {
        Option::None => b.time_to_full is None,
        Option::Some(ms) => b.time_to_full matches Some(t) && t@ == time_chars(tf, ms as nat),
    }
}

/// The index a request resolves to: the requested one, or the first battery.
pub open spec fn resolved_index(index: Option<usize>) -> usize {
    match index {
        Option::None => 0,
        Option::Some(i) => i,
    }
}

/// Resolves a requested battery index against the number of enumerated
/// batteries. Fails with `NoBatteriesFound` exactly when the enumeration is
/// empty, and with `IndexOutOfRange` exactly when the resolved index is not
/// below the count.
pub fn select_battery(index: Option<usize>, count: usize) -> (r: Result<usize, Error>)
    ensures
        count == 0 ==> r == Err::<usize, Error>(Error::NoBatteriesFound),
        count > 0 && resolved_index(index) >= count ==> r == Err::<usize, Error>(
            Error::IndexOutOfRange,
        ),
        count > 0 && resolved_index(index) < count ==> r == Ok::<usize, Error>(
            resolved_index(index),
        ),
{
    if count == 0 {
        return Err(Error::NoBatteriesFound);
    }
    let idx: usize = match index {
        Option::None => 0,
        Option::Some(i) => i,
    };
    if idx >= count {
        return Err(Error::IndexOutOfRange);
    }
    Ok(idx)
}

impl Battery {
    /// Every stored measurement is within the renderer's range.
    pub open spec fn wf(&self) -> bool {
        &&& self.percent_full.wf()
        &&& self.capacity.wf()
        &&& (self.temperature matches Some(m) ==> m.wf())
        &&& self.energy.wf()
        &&& self.energy_full.wf()
        &&& self.energy_full_design.wf()
        &&& self.energy_rate.wf()
        &&& self.voltage.wf()
    }

    /// The snapshot taken at `last_refresh_ms` is stale at time `now`.
    pub open spec fn is_stale(&self, now: int) -> bool {
        now - self.last_refresh_ms >= self.refresh_interval_ms
    }

    /// Builds a battery record from the outcome of one provider query: the
    /// resolved index, the fetched attribute set, the configuration, and the
    /// construction time. Identity strings are trimmed; a reported absence
    /// stays absent. A provider failure is wrapped in `ProviderError` and no
    /// partially initialized record is produced.
    pub fn new(
        battery_index: usize,
        fetch: Result<ProviderSnapshot, String>,
        time_format: TimeFormat,
        temp_unit: TempUnit,
        refresh_interval_ms: u64,
        now_ms: u64,
    ) -> (r: Result<Battery, Error>)
        requires
            fetch matches Ok(s) ==> s.wf(),
        ensures
            fetch matches Err(m) ==> r == Err::<Battery, Error>(Error::ProviderError(m)),
            fetch matches Ok(s) ==> r matches Ok(b) && {
                &&& identity_from(b, s)
                &&& snapshot_applied(b, s, time_format, temp_unit)
                &&& b.time_format == time_format
                &&& b.temp_unit == temp_unit
                &&& b.refresh_interval_ms == refresh_interval_ms
                &&& b.last_refresh_ms == now_ms
                &&& b.battery_index == battery_index
                &&& b.wf()
            },
    {
        let snap = match fetch {
            Result::Ok(s) => s,
            Result::Err(m) => {
                return Err(Error::ProviderError(m));
            },
        };
        let temperature = match snap.temperature_milli_celsius {
            Option::None => Option::None,
            Option::Some(c) => Option::Some(
                match temp_unit {
                    TempUnit::DegC => Measurement::new(c, String::from_str("°C"), 1),
                    TempUnit::DegF => Measurement::new(
                        celsius_to_fahrenheit_milli(c),
                        String::from_str("°F"),
                        1,
                    ),
                },
            ),
        };
        let time_to_empty = match snap.time_to_empty_milli_s {
            Option::None => Option::None,
            Option::Some(ms) => Option::Some(time_string(time_format, ms)),
        };
        let time_to_full = match snap.time_to_full_milli_s {
            Option::None => Option::None,
            Option::Some(ms) => Option::Some(time_string(time_format, ms)),
        };
        Ok(
            Battery {
                vendor: trim_opt(snap.vendor),
                model: trim_opt(snap.model),
                serial_number: trim_opt(snap.serial_number),
                technology: snap.technology,
                percent_full: Measurement::new(
                    snap.state_of_charge_milli_percent,
                    String::from_str("%"),
                    1,
                ),
                state: snap.state,
                capacity: Measurement::new(
                    snap.state_of_health_milli_percent,
                    String::from_str("%"),
                    1,
                ),
                temperature,
                cycle_count: snap.cycle_count,
                energy: Measurement::new(snap.energy_milli_wh, String::from_str("Wh"), 1),
                energy_full: Measurement::new(
                    snap.energy_full_milli_wh,
                    String::from_str("Wh"),
                    1,
                ),
                energy_full_design: Measurement::new(
                    snap.energy_full_design_milli_wh,
                    String::from_str("Wh"),
                    1,
                ),
                energy_rate: Measurement::new(
                    snap.energy_rate_milli_w,
                    String::from_str("W"),
                    1,
                ),
                voltage: Measurement::new(snap.voltage_milli_v, String::from_str("V"), 1),
                time_to_empty,
                time_to_full,
                time_format,
                temp_unit,
                refresh_interval_ms,
                last_refresh_ms: now_ms,
                battery_index,
            },
        )
    }

    /// Whether the cached snapshot is stale at `now_ms`: the time elapsed
    /// since the last refresh has reached the refresh interval. Callers poll
    /// this before reading a volatile field; only when it returns true do
    /// they re-query the provider and hand the outcome to `refresh`, so a
    /// read within the interval never costs a provider query.
    pub fn needs_refresh(&self, now_ms: u64) -> (r: bool)
        requires
            now_ms >= self.last_refresh_ms,
        ensures
            r == self.is_stale(now_ms as int),
    {
        now_ms - self.last_refresh_ms >= self.refresh_interval_ms
    }

    /// Merges a forced re-acquisition into the record. On success every
    /// volatile field is overwritten wholesale with the freshly converted
    /// snapshot and the refresh time is stamped; identity fields, the stored
    /// index and the configuration are never touched. On provider failure
    /// the record is left exactly as it was — still readable, merely stale —
    /// and the error is surfaced to the caller.
    pub fn refresh(&mut self, fetch: Result<ProviderSnapshot, String>, now_ms: u64) -> (r: Result<
        (),
        Error,
    >)
        requires
            fetch matches Ok(s) ==> s.wf(),
        ensures
            fetch matches Err(m) ==> *final(self) == *old(self) && r == Err::<(), Error>(
                Error::ProviderError(m),
            ),
            fetch matches Ok(s) ==> {
                &&& r == Ok::<(), Error>(())
                &&& same_identity(*final(self), *old(self))
                &&& same_config(*final(self), *old(self))
                &&& snapshot_applied(*final(self), s, old(self).time_format, old(self).temp_unit)
                &&& final(self).last_refresh_ms == now_ms
                &&& final(self).wf()
            },
    {
        let fresh = match Battery::new(
            self.battery_index,
            fetch,
            self.time_format,
            self.temp_unit,
            self.refresh_interval_ms,
            now_ms,
        ) {
            Result::Ok(b) => b,
            Result::Err(e) => {
                return Err(e);
            },
        };
        self.percent_full = fresh.percent_full;
        self.state = fresh.state;
        self.capacity = fresh.capacity;
        self.temperature = fresh.temperature;
        self.cycle_count = fresh.cycle_count;
        self.energy = fresh.energy;
        self.energy_full = fresh.energy_full;
        self.energy_full_design = fresh.energy_full_design;
        self.energy_rate = fresh.energy_rate;
        self.voltage = fresh.voltage;
        self.time_to_empty = fresh.time_to_empty;
        self.time_to_full = fresh.time_to_full;
        self.last_refresh_ms = now_ms;
        Ok(())
    }

    /// Replaces the refresh interval; no other field changes.
    pub fn set_refresh_interval(&mut self, interval_ms: u64)
        ensures
            final(self).refresh_interval_ms == interval_ms,
            same_identity(*final(self), *old(self)),
            same_volatile(*final(self), *old(self)),
            final(self).time_format == old(self).time_format,
            final(self).temp_unit == old(self).temp_unit,
            final(self).last_refresh_ms == old(self).last_refresh_ms,
    {
        self.refresh_interval_ms = interval_ms;
    }

    /// The refresh interval, in milliseconds.
    pub fn refresh_interval(&self) -> (r: u64)
        ensures
            r == self.refresh_interval_ms,
    {
        self.refresh_interval_ms
    }
}

/// The flat rendering of an optional string: the string, or empty when
/// absent.
pub open spec fn opt_string_chars(o: Option<String>) -> Seq<char> {
    match o {
        Option::None => Seq::empty(),
        Option::Some(s) => s@,
    }
}

/// The flat rendering of an optional measurement: its rendering, or empty
/// when absent.
pub open spec fn opt_measurement_chars(o: Option<Measurement>) -> Seq<char> {
    match o {
        Option::None => Seq::empty(),
        Option::Some(m) => measurement_chars(m),
    }
}

/// The flat rendering of an optional cycle count: its digits, or empty when
/// absent.
pub open spec fn opt_count_chars(o: Option<u32>) -> Seq<char> {
    match o {
        Option::None => Seq::empty(),
        Option::Some(c) => dec_digits(c as nat),
    }
}

/// The flat value of an optional string field.
fn opt_string_value(o: &Option<String>) -> (r: String)
    ensures
        r@ == opt_string_chars(*o),
{
    match o {
        Option::None => String::new(),
        Option::Some(s) => s.clone(),
    }
}

impl Battery {
    /// Read-only view of the vendor.
    pub fn vendor(&self) -> (r: &Option<String>)
        ensures
            r == &self.vendor,
    {
        &self.vendor
    }

    /// Read-only view of the model.
    pub fn model(&self) -> (r: &Option<String>)
        ensures
            r == &self.model,
    {
        &self.model
    }

    /// Read-only view of the serial number.
    pub fn serial_number(&self) -> (r: &Option<String>)
        ensures
            r == &self.serial_number,
    {
        &self.serial_number
    }

    /// Read-only view of the technology label.
    pub fn technology(&self) -> (r: &String)
        ensures
            r == &self.technology,
    {
        &self.technology
    }

    /// Read-only view of the state of charge.
    pub fn percent(&self) -> (r: &Measurement)
        ensures
            r == &self.percent_full,
    {
        &self.percent_full
    }

    /// The charge state.
    pub fn state(&self) -> (r: State)
        ensures
            r == self.state,
    {
        self.state
    }

    /// Read-only view of the state of health.
    pub fn capacity(&self) -> (r: &Measurement)
        ensures
            r == &self.capacity,
    {
        &self.capacity
    }

    /// Read-only view of the temperature, in the configured unit.
    pub fn temperature(&self) -> (r: &Option<Measurement>)
        ensures
            r == &self.temperature,
    {
        &self.temperature
    }

    /// The cycle count, when the hardware reports one.
    pub fn cycle_count(&self) -> (r: Option<u32>)
        ensures
            r == self.cycle_count,
    {
        self.cycle_count
    }

    /// Read-only view of the current energy.
    pub fn energy(&self) -> (r: &Measurement)
        ensures
            r == &self.energy,
    {
        &self.energy
    }

    /// Read-only view of the last-full energy.
    pub fn energy_full(&self) -> (r: &Measurement)
        ensures
            r == &self.energy_full,
    {
        &self.energy_full
    }

    /// Read-only view of the design energy.
    pub fn energy_full_design(&self) -> (r: &Measurement)
        ensures
            r == &self.energy_full_design,
    {
        &self.energy_full_design
    }

    /// Read-only view of the energy rate.
    pub fn energy_rate(&self) -> (r: &Measurement)
        ensures
            r == &self.energy_rate,
    {
        &self.energy_rate
    }

    /// Read-only view of the voltage.
    pub fn voltage(&self) -> (r: &Measurement)
        ensures
            r == &self.voltage,
    {
        &self.voltage
    }

    /// Read-only view of the rendered time-to-empty estimate.
    pub fn time_to_empty(&self) -> (r: &Option<String>)
        ensures
            r == &self.time_to_empty,
    {
        &self.time_to_empty
    }

    /// Read-only view of the rendered time-to-full estimate.
    pub fn time_to_full(&self) -> (r: &Option<String>)
        ensures
            r == &self.time_to_full,
    {
        &self.time_to_full
    }

    /// Exports the full current snapshot as a flat key-value mapping:
    /// identity strings (empty when absent), measurements in their rendered
    /// form, the display form of the state, the cycle count's digits, the
    /// rendered remaining-time estimates, and the stored battery index.
    pub fn as_dict(&self) -> (r: Vec<(String, String)>)
        requires
            self.wf(),
        ensures
            r@.len() == 17,
            r@[0].0@ == "vendor"@ && r@[0].1@ == opt_string_chars(self.vendor),
            r@[1].0@ == "model"@ && r@[1].1@ == opt_string_chars(self.model),
            r@[2].0@ == "serial_number"@ && r@[2].1@ == opt_string_chars(self.serial_number),
            r@[3].0@ == "technology"@ && r@[3].1@ == self.technology@,
            r@[4].0@ == "percent"@ && r@[4].1@ == measurement_chars(self.percent_full),
            r@[5].0@ == "state"@ && r@[5].1@ == state_display_chars(self.state),
            r@[6].0@ == "capacity"@ && r@[6].1@ == measurement_chars(self.capacity),
            r@[7].0@ == "temperature"@ && r@[7].1@ == opt_measurement_chars(self.temperature),
            r@[8].0@ == "cycle_count"@ && r@[8].1@ == opt_count_chars(self.cycle_count),
            r@[9].0@ == "energy"@ && r@[9].1@ == measurement_chars(self.energy),
            r@[10].0@ == "energy_full"@ && r@[10].1@ == measurement_chars(self.energy_full),
            r@[11].0@ == "energy_full_design"@ && r@[11].1@ == measurement_chars(
                self.energy_full_design,
            ),
            r@[12].0@ == "energy_rate"@ && r@[12].1@ == measurement_chars(self.energy_rate),
            r@[13].0@ == "voltage"@ && r@[13].1@ == measurement_chars(self.voltage),
            r@[14].0@ == "time_to_empty"@ && r@[14].1@ == opt_string_chars(self.time_to_empty),
            r@[15].0@ == "time_to_full"@ && r@[15].1@ == opt_string_chars(self.time_to_full),
            r@[16].0@ == "battery_index"@ && r@[16].1@ == dec_digits(self.battery_index as nat),
    {
        let mut r: Vec<(String, String)> = Vec::new();
        r.push((String::from_str("vendor"), opt_string_value(&self.vendor)));
        r.push((String::from_str("model"), opt_string_value(&self.model)));
        r.push((String::from_str("serial_number"), opt_string_value(&self.serial_number)));
        r.push((String::from_str("technology"), self.technology.clone()));
        r.push((String::from_str("percent"), self.percent_full.formatted()));
        r.push((String::from_str("state"), self.state.display()));
        r.push((String::from_str("capacity"), self.capacity.formatted()));
        let temperature = match &self.temperature {
            Option::None => String::new(),
            Option::Some(m) => m.formatted(),
        };
        r.push((String::from_str("temperature"), temperature));
        let cycles = match self.cycle_count {
            Option::None => String::new(),
            Option::Some(c) => u64_string(c as u64),
        };
        r.push((String::from_str("cycle_count"), cycles));
        r.push((String::from_str("energy"), self.energy.formatted()));
        r.push((String::from_str("energy_full"), self.energy_full.formatted()));
        r.push((String::from_str("energy_full_design"), self.energy_full_design.formatted()));
        r.push((String::from_str("energy_rate"), self.energy_rate.formatted()));
        r.push((String::from_str("voltage"), self.voltage.formatted()));
        r.push((String::from_str("time_to_empty"), opt_string_value(&self.time_to_empty)));
        r.push((String::from_str("time_to_full"), opt_string_value(&self.time_to_full)));
        r.push((String::from_str("battery_index"), u64_string(self.battery_index as u64)));
        r
    }
}

/// Refresh gating: a record is stale exactly from the moment the refresh
/// interval has elapsed since the last refresh. Two reads within the
/// interval of the last refresh find the record fresh and must not re-query
/// the provider; a read at or after the interval finds it stale.
pub proof fn lemma_refresh_gating(b: Battery, now: int)
    requires
        now >= b.last_refresh_ms,
    ensures
        b.is_stale(now) <==> now >= b.last_refresh_ms + b.refresh_interval_ms,
{
}

} // verus!

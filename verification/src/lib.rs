//! Battery telemetry facade: snapshot records with interval-gated refresh.
//!
//! The library models one battery's attribute set as a record built from
//! plain provider values, converts provider-native units into the caller's
//! chosen time format and temperature unit, and decides when a cached
//! snapshot is stale. Querying the operating system's power subsystem is
//! left to the surrounding application, which hands the results in as a
//! provider snapshot of plain values.

pub mod battery;
pub mod convert;
pub mod enums;
pub mod measurement;
pub mod numfmt;

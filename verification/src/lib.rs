//! Core of a live-telemetry fan-out service.
//!
//! The library keeps an in-memory snapshot of moving entities, advances
//! their positions once per tick with a dead-reckoning model, serves
//! consistent copies of the snapshot to polling readers, and drives the
//! lifecycle of long-lived streaming sessions.  Positions, velocities and
//! trigonometric values are held in fixed-point integers (millionths of a
//! unit), so every rule of the core is stated and proved exactly.

use vstd::prelude::*;

pub mod entity;
pub mod gen;
pub mod registry;
pub mod session;
pub mod sim;
pub mod store;
pub mod trig;

verus! {

/// Relies on `std::time::SystemTime::now`: the wall clock, read once;
/// 0 if the clock reads before the epoch.  Nothing is promised of the
/// value: the clock is free to jump either way between reads.
#[verifier::external_body]
fn system_clock_seconds() -> u64 {
    std::time::SystemTime::now()
        .duration_since(std::time::UNIX_EPOCH)
        .map(|d| d.as_secs())
        .unwrap_or(0)
}

/// Seconds since the Unix epoch, as reported by the system clock.
/// Every rule of the library that depends on ordering takes the time
/// as a parameter instead of relying on this value.
pub fn current_timestamp() -> u64 {
    system_clock_seconds()
}

} // verus!

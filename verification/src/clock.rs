//! The host snapshot taken when no platform sensors are available.

use vstd::prelude::*;
use crate::status::{HostSnapshot, Thermal};

verus! {

/// `chrono::Utc::now().timestamp()`: the current unix time. Nothing is stated
/// of it; it comes from the system clock.
#[verifier::external_body]
fn unix_secs_now() -> i64 {
    chrono::Utc::now().timestamp()
}

/// A snapshot with the given clocks, the current wall time and local offset,
/// and neutral sensor values: on AC, battery and display state unknown, lid
/// open, the person just active, thermal nominal.
pub fn base_snapshot(monotonic: u64, continuous: u64) -> (r: HostSnapshot)
    ensures
        r.monotonic_ms == monotonic,
        r.continuous_ms == continuous,
        -86400 < r.utc_offset_secs < 86400,
        r.on_ac,
        r.battery_percent is None,
        !r.lid_closed,
        r.display_asleep is None,
        r.hid_idle_ms == 0,
        r.thermal == Thermal::Nominal,
{
    HostSnapshot {
        monotonic_ms: monotonic,
        continuous_ms: continuous,
        unix_secs: unix_secs_now(),
        utc_offset_secs: crate::duration::local_now().2,
        on_ac: true,
        battery_percent: None,
        lid_closed: false,
        display_asleep: None,
        hid_idle_ms: 0,
        thermal: Thermal::Nominal,
    }
}

} // verus!

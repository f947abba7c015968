//! The position report ("fix") as the flight logic reads it.
//!
//! Identifiers are carried as `u128` (the bits of a UUID), instants as
//! microseconds since the Unix epoch, coordinates as micro-degrees and the
//! ground speed as thousandths of a knot, rounded down.

use vstd::prelude::*;

verus! {

/// A position report of one aircraft.
#[derive(Clone, Debug)]
pub struct Fix {
    /// Identifier of this fix.
    pub id: u128,
    /// Aircraft that sent the fix.
    pub aircraft_id: u128,
    /// Flight the fix belongs to, once assigned.
    pub flight_id: Option<u128>,
    /// Callsign / flight number carried by the fix.
    pub flight_number: Option<String>,
    /// Time of the position, as reported by the sender (microseconds since the epoch).
    pub timestamp_us: i64,
    /// Time the fix was received (microseconds since the epoch).
    pub received_at_us: i64,
    /// Latitude in micro-degrees.
    pub latitude_udeg: i64,
    /// Longitude in micro-degrees.
    pub longitude_udeg: i64,
    /// Altitude above mean sea level, in feet.
    pub altitude_msl_feet: Option<i32>,
    /// Altitude above ground level, in feet.
    pub altitude_agl_feet: Option<i32>,
    /// Ground speed in thousandths of a knot (rounded down).
    pub ground_speed_milliknots: Option<i64>,
    /// Climb rate in feet per minute.
    pub climb_fpm: Option<i32>,
    /// Whether the aircraft is moving / airborne, as decided when the fix was built.
    pub is_active: bool,
    /// Whether the fix came from a transponder source (ADS-B/SBS) that reports on-ground status.
    pub transponder_data: bool,
    /// Seconds since the previous fix of the same flight.
    pub time_gap_seconds: Option<i32>,
}

impl Fix {
    /// Whether the fix came from a transponder source that carries an explicit on-ground flag.
    pub fn has_transponder_data(&self) -> (b: bool)
        ensures
            b == self.transponder_data,
    {
        self.transponder_data
    }
}

} // verus!

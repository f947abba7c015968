//! Flights: a takeoff-to-landing sequence of one aircraft.
//!
//! Identifiers are `u128` (UUID bits); instants are microseconds since the epoch.

use vstd::prelude::*;

use crate::aircraft::{AddressType, Aircraft};
use crate::fixes::Fix;
use crate::ids::new_time_ordered_id;
use crate::text::{clone_opt_string, decimal, opt_chars, to_decimal, to_decimal_padded, zero_padded};
use crate::time::{date_of, hour_minute_second, now_us, representable_instant, time_of_day, utc_date};

verus! {

/// Flight state enum representing the current status of a flight
#[derive(Clone, Copy, Debug, PartialEq, Eq, Structural)]
pub enum FlightState {
    /// No landing, no timeout, last fix within 10 minutes.
    Active,
    /// No beacons for more than 10 minutes.
    Stale,
    /// Landed.
    Complete,
    /// Timed out (no beacons for an hour or more).
    TimedOut,
}

/// Flight phase at timeout - used to determine flight coalescing behavior
#[derive(Clone, Copy, Debug, PartialEq, Eq, Structural)]
pub enum TimeoutPhase {
    Climbing,
    Cruising,
    Descending,
    Unknown,
}

/// Reason a flight was classified as spurious
#[derive(Clone, Copy, Debug, PartialEq, Eq, Structural)]
pub enum SpuriousFlightReason {
    DurationTooShort,
    AltitudeRangeInsufficient,
    MaxAglTooLow,
    ExcessiveAltitude,
    ExcessiveSpeed,
    DisplacementTooLow,
}

/// A flight representing a complete takeoff to landing sequence
pub struct Flight {
    pub id: u128,
    pub aircraft_id: Option<u128>,
    /// Aircraft address (hex ID like "39D304").
    pub device_address: String,
    pub device_address_type: AddressType,
    /// Takeoff time (none for flights first seen airborne).
    pub takeoff_time_us: Option<i64>,
    /// Landing time (none while in progress).
    pub landing_time_us: Option<i64>,
    pub departure_airport_id: Option<i32>,
    pub arrival_airport_id: Option<i32>,
    pub towed_by_aircraft_id: Option<u128>,
    pub towed_by_flight_id: Option<u128>,
    pub tow_release_altitude_msl_ft: Option<i32>,
    pub tow_release_time_us: Option<i64>,
    pub tow_release_height_delta_ft: Option<i32>,
    pub club_id: Option<u128>,
    pub takeoff_altitude_offset_ft: Option<i32>,
    pub landing_altitude_offset_ft: Option<i32>,
    pub takeoff_runway_ident: Option<String>,
    pub landing_runway_ident: Option<String>,
    /// Total distance flown in meters, as the bits of an IEEE-754 double, carried unchanged.
    pub total_distance_meters_bits: Option<u64>,
    /// Maximum displacement in meters, as the bits of an IEEE-754 double, carried unchanged.
    pub maximum_displacement_meters_bits: Option<u64>,
    pub runways_inferred: Option<bool>,
    pub start_location_id: Option<u128>,
    pub end_location_id: Option<u128>,
    /// When the flight timed out.
    pub timed_out_at_us: Option<i64>,
    pub timeout_phase: Option<TimeoutPhase>,
    /// Reception time of the flight's last fix.
    pub last_fix_at_us: i64,
    /// Callsign / flight number.
    pub callsign: Option<String>,
    pub created_at_us: i64,
    pub updated_at_us: i64,
}

/// The state of a flight at `now_us`.
pub open spec fn flight_state(f: Flight, now_us: int) -> FlightState {
    if f.timed_out_at_us is Some {
        FlightState::TimedOut
    } else if f.landing_time_us is Some {
        FlightState::Complete
    } else if now_us - f.last_fix_at_us > 600_000_000 {
        FlightState::Stale
    } else {
        FlightState::Active
    }
}


/// A flight just created, with nothing known yet but what is given.
pub open spec fn fresh_flight(
    f: Flight,
    id: u128,
    aircraft_id: Option<u128>,
    device_address: Seq<char>,
    device_address_type: AddressType,
    takeoff_time_us: Option<i64>,
    last_fix_at_us: i64,
    callsign: Option<Seq<char>>,
    created_at_us: i64,
    updated_at_us: i64,
) -> bool {
    &&& f.id == id
    &&& f.aircraft_id == aircraft_id
    &&& f.device_address@ == device_address
    &&& f.device_address_type == device_address_type
    &&& f.takeoff_time_us == takeoff_time_us
    &&& f.landing_time_us is None
    &&& f.departure_airport_id is None
    &&& f.arrival_airport_id is None
    &&& f.towed_by_aircraft_id is None
    &&& f.towed_by_flight_id is None
    &&& f.tow_release_altitude_msl_ft is None
    &&& f.tow_release_time_us is None
    &&& f.tow_release_height_delta_ft is None
    &&& f.club_id is None
    &&& f.takeoff_altitude_offset_ft is None
    &&& f.landing_altitude_offset_ft is None
    &&& f.takeoff_runway_ident is None
    &&& f.landing_runway_ident is None
    &&& f.total_distance_meters_bits is None
    &&& f.maximum_displacement_meters_bits is None
    &&& f.runways_inferred is None
    &&& f.start_location_id is None
    &&& f.end_location_id is None
    &&& f.timed_out_at_us is None
    &&& f.timeout_phase is None
    &&& f.last_fix_at_us == last_fix_at_us
    &&& opt_chars(f.callsign) == callsign
    &&& f.created_at_us == created_at_us
    &&& f.updated_at_us == updated_at_us
}

/// The address an aircraft is shown by, empty when unknown.
pub open spec fn shown_address(device: Aircraft) -> Seq<char> {
    match device.address_hex {
        Some(s) => s@,
        None => Seq::empty(),
    }
}


fn address_or_empty(device: &Aircraft) -> (r: String)
    ensures
        r@ == shown_address(*device),
{
    match device.aircraft_address_hex() {
        Some(s) => s,
        None => String::new(),
    }
}

impl Flight {
    /// Get the current state of the flight (staleness judged against the clock).
    pub fn state(&self) -> (r: FlightState)
        ensures
            exists|now: i64| r == flight_state(*self, now as int),
    {
        let now = now_us();
        self.state_at(now)
    }

    /// The state of the flight at `now_us`: timed out, complete, stale after more than
    /// 10 minutes without fix, else active.
    pub fn state_at(&self, now_us: i64) -> (r: FlightState)
        ensures
            r == flight_state(*self, now_us as int),
    {
        if self.timed_out_at_us.is_some() {
            FlightState::TimedOut
        } else if self.landing_time_us.is_some() {
            FlightState::Complete
        } else if now_us as i128 - self.last_fix_at_us as i128 > 600_000_000 {
            FlightState::Stale
        } else {
            FlightState::Active
        }
    }

    /// Check if the flight is timed out
    pub fn is_timed_out(&self) -> (r: bool)
        ensures
            r == self.timed_out_at_us is Some,
    {
        self.timed_out_at_us.is_some()
    }

    /// A flight with only an address and a takeoff time, created now.
    fn blank(
        id: u128,
        aircraft_id: Option<u128>,
        device_address: String,
        device_address_type: AddressType,
        takeoff_time_us: Option<i64>,
        last_fix_at_us: i64,
        callsign: Option<String>,
        created_at_us: i64,
        updated_at_us: i64,
    ) -> (f: Self)
        ensures
            fresh_flight(
                f,
                id,
                aircraft_id,
                device_address@,
                device_address_type,
                takeoff_time_us,
                last_fix_at_us,
                opt_chars(callsign),
                created_at_us,
                updated_at_us,
            ),
    {
        Flight {
            id,
            aircraft_id,
            device_address,
            device_address_type,
            takeoff_time_us,
            landing_time_us: None,
            departure_airport_id: None,
            arrival_airport_id: None,
            towed_by_aircraft_id: None,
            towed_by_flight_id: None,
            tow_release_altitude_msl_ft: None,
            tow_release_time_us: None,
            tow_release_height_delta_ft: None,
            club_id: None,
            takeoff_altitude_offset_ft: None,
            landing_altitude_offset_ft: None,
            takeoff_runway_ident: None,
            landing_runway_ident: None,
            total_distance_meters_bits: None,
            maximum_displacement_meters_bits: None,
            runways_inferred: None,
            start_location_id: None,
            end_location_id: None,
            timed_out_at_us: None,
            timeout_phase: None,
            last_fix_at_us,
            callsign,
            created_at_us,
            updated_at_us,
        }
    }

    /// Create a new flight with takeoff time, a new time-ordered identifier and the current
    /// time as creation time and last fix time.
    pub fn new(device_address: String, takeoff_time_us: Option<i64>) -> (f: Self)
        ensures
            exists|id: u128, now: i64|
                fresh_flight(
                    f,
                    id,
                    None,
                    device_address@,
                    AddressType::Unknown,
                    takeoff_time_us,
                    now,
                    None,
                    now,
                    now,
                ),
    {
        let id = new_time_ordered_id();
        let now = now_us();
        Self::blank(id, None, device_address, AddressType::Unknown, takeoff_time_us, now, None, now, now)
    }

    /// A flight of the fix's aircraft, timed by the fix's reception, without callsign.
    pub fn new_from_fix(fix: &Fix, device: &Aircraft, takeoff_time_us: Option<i64>) -> (f: Self)
        ensures
            exists|id: u128|
                fresh_flight(
                    f,
                    id,
                    Some(fix.aircraft_id),
                    shown_address(*device),
                    device.primary_type,
                    takeoff_time_us,
                    fix.received_at_us,
                    None,
                    fix.received_at_us,
                    fix.received_at_us,
                ),
    {
        let id = new_time_ordered_id();
        Self::blank(
            id,
            Some(fix.aircraft_id),
            address_or_empty(device),
            device.primary_address_type(),
            takeoff_time_us,
            fix.received_at_us,
            None,
            fix.received_at_us,
            fix.received_at_us,
        )
    }

    /// Create a new flight for device already airborne (no takeoff time)
    pub fn new_airborne_from_fix(fix: &Fix, device: &Aircraft) -> (f: Self)
        ensures
            exists|id: u128|
                fresh_flight(
                    f,
                    id,
                    Some(fix.aircraft_id),
                    shown_address(*device),
                    device.primary_type,
                    None,
                    fix.received_at_us,
                    None,
                    fix.received_at_us,
                    fix.received_at_us,
                ),
    {
        Self::new_from_fix(fix, device, None)
    }

    /// Create a new flight for device already airborne with a pre-generated identifier;
    /// it takes the fix's callsign.
    pub fn new_airborne_from_fix_with_id(fix: &Fix, device: &Aircraft, flight_id: u128) -> (f: Self)
        ensures
            fresh_flight(
                f,
                flight_id,
                Some(fix.aircraft_id),
                shown_address(*device),
                device.primary_type,
                None,
                fix.received_at_us,
                opt_chars(fix.flight_number),
                fix.received_at_us,
                fix.received_at_us,
            ),
    {
        Self::blank(
            flight_id,
            Some(fix.aircraft_id),
            address_or_empty(device),
            device.primary_address_type(),
            None,
            fix.received_at_us,
            clone_opt_string(&fix.flight_number),
            fix.received_at_us,
            fix.received_at_us,
        )
    }

    /// Create a new flight with known takeoff time
    pub fn new_with_takeoff_from_fix(fix: &Fix, device: &Aircraft, takeoff_time_us: i64) -> (f: Self)
        ensures
            exists|id: u128|
                fresh_flight(
                    f,
                    id,
                    Some(fix.aircraft_id),
                    shown_address(*device),
                    device.primary_type,
                    Some(takeoff_time_us),
                    fix.received_at_us,
                    None,
                    fix.received_at_us,
                    fix.received_at_us,
                ),
    {
        Self::new_from_fix(fix, device, Some(takeoff_time_us))
    }

    /// Create a new flight with known takeoff time and pre-generated identifier;
    /// it takes the fix's callsign.
    pub fn new_with_takeoff_from_fix_with_id(
        fix: &Fix,
        device: &Aircraft,
        flight_id: u128,
        takeoff_time_us: i64,
    ) -> (f: Self)
        ensures
            fresh_flight(
                f,
                flight_id,
                Some(fix.aircraft_id),
                shown_address(*device),
                device.primary_type,
                Some(takeoff_time_us),
                fix.received_at_us,
                opt_chars(fix.flight_number),
                fix.received_at_us,
                fix.received_at_us,
            ),
    {
        Self::blank(
            flight_id,
            Some(fix.aircraft_id),
            address_or_empty(device),
            device.primary_address_type(),
            Some(takeoff_time_us),
            fix.received_at_us,
            clone_opt_string(&fix.flight_number),
            fix.received_at_us,
            fix.received_at_us,
        )
    }

    /// Check if the flight is still in progress (no landing time)
    pub fn is_in_progress(&self) -> (r: bool)
        ensures
            r == self.landing_time_us is None,
    {
        self.landing_time_us.is_none()
    }

    /// Flight duration (microseconds) if landed, otherwise from takeoff to now;
    /// none without takeoff time.
    pub fn duration(&self) -> (r: Option<i128>)
        ensures
            self.takeoff_time_us is None ==> r is None,
            (self.takeoff_time_us is Some && self.landing_time_us is Some) ==> r == Some(
                (self.landing_time_us.unwrap() - self.takeoff_time_us.unwrap()) as i128,
            ),
            self.takeoff_time_us is Some && self.landing_time_us is None ==> r is Some,
    {
        let now = now_us();
        self.duration_at(now)
    }

    /// Flight duration in microseconds: until landing, or else until `now_us`;
    /// none without takeoff time.
    pub fn duration_at(&self, now_us: i64) -> (r: Option<i128>)
        ensures
            r == match self.takeoff_time_us {
                Some(t) => Some(
                    (match self.landing_time_us {
                        Some(l) => l,
                        None => now_us,
                    } - t) as i128,
                ),
                None => None,
            },
    {
        match self.takeoff_time_us {
            Some(t) => {
                let end = match self.landing_time_us {
                    Some(l) => l,
                    None => now_us,
                };
                Some(end as i128 - t as i128)
            },
            None => None,
        }
    }

    /// Check if this flight used a tow plane
    pub fn has_tow(&self) -> (r: bool)
        ensures
            r == (self.towed_by_aircraft_id is Some || self.towed_by_flight_id is Some),
    {
        self.towed_by_aircraft_id.is_some() || self.towed_by_flight_id.is_some()
    }
}


/// The marker placed at the start of a drawn track.
#[derive(Clone, Copy, Debug, PartialEq, Eq, Structural)]
pub enum TrackStart {
    /// The flight has a takeoff time.
    Takeoff,
    /// The flight was first seen airborne.
    Detected,
}

/// The marker placed at the end of a drawn track.
#[derive(Clone, Copy, Debug, PartialEq, Eq, Structural)]
pub enum TrackEnd {
    /// The flight landed.
    Landing,
    /// The flight timed out.
    SignalLost,
}

/// The name of an aircraft for display: model and registration, else the registration,
/// else the model, else the address kind and its hexadecimal address (an empty model or
/// registration counts as absent); the flight's device address when the aircraft is not
/// known.
pub open spec fn aircraft_identifier_spec(flight: Flight, device: Option<Aircraft>) -> Seq<char> {
    match device {
        Some(d) => {
            let has_model = d.aircraft_model@.len() > 0;
            let has_registration = d.registration matches Some(r) && r@.len() > 0;
            if has_model && has_registration {
                d.aircraft_model@ + " "@ + d.registration.unwrap()@
            } else if has_registration {
                d.registration.unwrap()@
            } else if has_model {
                d.aircraft_model@
            } else {
                address_kind_prefix(d.primary_type) + "-"@ + shown_address(d)
            }
        },
        None => flight.device_address@,
    }
}

/// How an address kind is written before an address.
pub open spec fn address_kind_prefix(t: AddressType) -> Seq<char> {
    match t {
        AddressType::Icao => "ICAO"@,
        AddressType::Flarm => "FLARM"@,
        AddressType::Ogn => "OGN"@,
        AddressType::Unknown => "Unknown"@,
    }
}

/// The KML document written when a flight has no fixes.
pub open spec fn empty_kml_spec(device_address: Seq<char>) -> Seq<char> {
    "<?xml version=\"1.0\" encoding=\"UTF-8\"?>\n"@ + "<kml xmlns=\"http://www.opengis.net/kml/2.2\">\n"@
        + "  <Document>\n"@ + "    <name>Flight "@ + device_address + " (No Track Data)</name>\n"@
        + "    <description>No position data available for flight "@ + device_address
        + "</description>\n"@ + "  </Document>\n"@ + "</kml>\n"@
}

/// The lowercase hexadecimal digit of `d < 16`.
pub open spec fn hex_digit(d: nat) -> char {
    if d < 10 {
        crate::text::digit_char(d)
    } else if d == 10 {
        'a'
    } else if d == 11 {
        'b'
    } else if d == 12 {
        'c'
    } else if d == 13 {
        'd'
    } else if d == 14 {
        'e'
    } else {
        'f'
    }
}

/// A byte as two lowercase hexadecimal digits.
pub open spec fn hex2(v: nat) -> Seq<char> {
    seq![hex_digit(v / 16), hex_digit(v % 16)]
}

/// A color in KML's alpha-blue-green-red form, opaque: "ff" then blue, green and red as
/// two hexadecimal digits each; gray ("ff888888") when there is none.
pub open spec fn kml_color_spec(rgb: Option<(u8, u8, u8)>) -> Seq<char> {
    match rgb {
        Some((r, g, b)) => "ff"@ + hex2(b as nat) + hex2(g as nat) + hex2(r as nat),
        None => "ff888888"@,
    }
}

fn hex_digit_str(d: u64) -> (r: &'static str)
    requires
        d < 16,
    ensures
        r@ == seq![hex_digit(d as nat)],
{
    if d < 10 {
        crate::text::digit_str(d)
    } else {
        proof {
            reveal_strlit("a");
            reveal_strlit("b");
            reveal_strlit("c");
            reveal_strlit("d");
            reveal_strlit("e");
            reveal_strlit("f");
        }
        if d == 10 {
            "a"
        } else if d == 11 {
            "b"
        } else if d == 12 {
            "c"
        } else if d == 13 {
            "d"
        } else if d == 14 {
            "e"
        } else {
            "f"
        }
    }
}

fn push_hex2(s: &mut String, v: u64)
    requires
        v < 256,
    ensures
        final(s)@ == old(s)@ + hex2(v as nat),
{
    s.append(hex_digit_str(v / 16));
    s.append(hex_digit_str(v % 16));
    assert(s@ =~= old(s)@ + hex2(v as nat));
}

/// A track segment's color from its red, green and blue channels, in KML's form (see
/// `kml_color_spec`); gray for a segment without a color (unknown altitude, or a flight
/// whose fixes all have one altitude).
pub fn kml_color(rgb: Option<(u8, u8, u8)>) -> (r: String)
    ensures
        r@ == kml_color_spec(rgb),
{
    proof {
        reveal_strlit("ff888888");
        reveal_strlit("ff");
    }
    match rgb {
        Some((r, g, b)) => {
            let mut s = String::from_str("ff");
            push_hex2(&mut s, b as u64);
            push_hex2(&mut s, g as u64);
            push_hex2(&mut s, r as u64);
            s
        },
        None => String::from_str("ff888888"),
    }
}

/// A placemark of a drawn track.
#[derive(Clone, Copy, Debug, PartialEq, Eq, Structural)]
pub enum KmlPlacemark {
    /// The line from fix `i` to fix `i + 1`, named "Segment {i}".
    Segment(usize),
    /// The marker at the first fix.
    Start(TrackStart),
    /// The marker at the last fix.
    End(TrackEnd),
}

/// The placemarks of a track of `n` fixes, in order: a segment between each two
/// neighbouring fixes, then the start marker, then the end marker when there is one; none
/// without fixes.
pub open spec fn kml_placemarks_spec(n: nat, start: TrackStart, end: Option<TrackEnd>) -> Seq<
    KmlPlacemark,
> {
    if n == 0 {
        Seq::empty()
    } else {
        Seq::new((n - 1) as nat, |i: int| KmlPlacemark::Segment(i as usize)) + seq![
            KmlPlacemark::Start(start),
        ] + match end {
            Some(e) => seq![KmlPlacemark::End(e)],
            None => Seq::empty(),
        }
    }
}

impl Flight {
    /// The time span of the flight's track: from takeoff (or creation) to landing (or
    /// the last fix).
    pub fn track_window(&self) -> (r: (i64, i64))
        ensures
            r.0 == match self.takeoff_time_us {
                Some(t) => t,
                None => self.created_at_us,
            },
            r.1 == match self.landing_time_us {
                Some(t) => t,
                None => self.last_fix_at_us,
            },
    {
        let start = match self.takeoff_time_us {
            Some(t) => t,
            None => self.created_at_us,
        };
        let end = match self.landing_time_us {
            Some(t) => t,
            None => self.last_fix_at_us,
        };
        (start, end)
    }

    /// The markers of a drawn track: "Takeoff" when the takeoff is known, else
    /// "Detected"; at the end "Signal Lost" when timed out, else "Landing" when landed,
    /// else none.
    pub open spec fn track_markers_spec(&self) -> (TrackStart, Option<TrackEnd>) {
        (
            if self.takeoff_time_us is Some {
                TrackStart::Takeoff
            } else {
                TrackStart::Detected
            },
            if self.timed_out_at_us is Some {
                Some(TrackEnd::SignalLost)
            } else if self.landing_time_us is Some {
                Some(TrackEnd::Landing)
            } else {
                None::<TrackEnd>
            },
        )
    }

    /// The markers of a drawn track: "Takeoff" when the takeoff is known, else
    /// "Detected"; at the end "Signal Lost" when timed out, else "Landing" when landed,
    /// else none.
    pub fn track_markers(&self) -> (r: (TrackStart, Option<TrackEnd>))
        ensures
            r == self.track_markers_spec(),
    {
        let start = if self.takeoff_time_us.is_some() {
            TrackStart::Takeoff
        } else {
            TrackStart::Detected
        };
        let end = if self.timed_out_at_us.is_some() {
            Some(TrackEnd::SignalLost)
        } else if self.landing_time_us.is_some() {
            Some(TrackEnd::Landing)
        } else {
            None
        };
        (start, end)
    }

    /// The placemarks of this flight's track drawn from `fix_count` fixes, in order (see
    /// `kml_placemarks_spec`), with the flight's markers.
    pub fn kml_placemarks(&self, fix_count: usize) -> (r: Vec<KmlPlacemark>)
        ensures
            ({
                let (start, end) = self.track_markers_spec();
                r@ == kml_placemarks_spec(fix_count as nat, start, end)
            }),
    {
        let mut out: Vec<KmlPlacemark> = Vec::new();
        if fix_count == 0 {
            assert(out@ =~= kml_placemarks_spec(0, self.track_markers_spec().0, self.track_markers_spec().1));
            return out;
        }
        let (start, end) = self.track_markers();
        let mut i: usize = 0;
        while i + 1 < fix_count
            invariant
                i < fix_count,
                out@ =~= Seq::new(i as nat, |k: int| KmlPlacemark::Segment(k as usize)),
            decreases fix_count - i,
        {
            out.push(KmlPlacemark::Segment(i));
            i = i + 1;
        }
        out.push(KmlPlacemark::Start(start));
        if let Some(e) = end {
            out.push(KmlPlacemark::End(e));
        }
        assert(out@ =~= kml_placemarks_spec(fix_count as nat, start, end));
        out
    }

    /// A human-readable name of the aircraft flying this flight (see
    /// `aircraft_identifier_spec`).
    pub fn get_aircraft_identifier(&self, device: Option<&Aircraft>) -> (r: String)
        ensures
            r@ == aircraft_identifier_spec(
                *self,
                match device {
                    Some(d) => Some(*d),
                    None => None,
                },
            ),
    {
        proof {
            reveal_strlit(" ");
            reveal_strlit("-");
            reveal_strlit("ICAO");
            reveal_strlit("FLARM");
            reveal_strlit("OGN");
            reveal_strlit("Unknown");
        }
        match device {
            Some(d) => {
                let has_model = d.aircraft_model.as_str().unicode_len() > 0;
                let has_registration = match &d.registration {
                    Some(r) => r.as_str().unicode_len() > 0,
                    None => false,
                };
                if has_model && has_registration {
                    let mut s = d.aircraft_model.clone();
                    s.append(" ");
                    match &d.registration {
                        Some(r) => s.append(r.as_str()),
                        None => {},
                    }
                    s
                } else if has_registration {
                    match &d.registration {
                        Some(r) => r.clone(),
                        None => String::new(),
                    }
                } else if has_model {
                    d.aircraft_model.clone()
                } else {
                    let prefix = match d.primary_address_type() {
                        AddressType::Icao => "ICAO",
                        AddressType::Flarm => "FLARM",
                        AddressType::Ogn => "OGN",
                        AddressType::Unknown => "Unknown",
                    };
                    let mut s = String::from_str(prefix);
                    s.append("-");
                    let a = address_or_empty(d);
                    s.append(a.as_str());
                    s
                }
            },
            None => self.device_address.clone(),
        }
    }

    /// The KML document for a flight without any fixes.
    pub fn generate_empty_kml(&self) -> (r: String)
        ensures
            r@ == empty_kml_spec(self.device_address@),
    {
        let mut kml = String::from_str("<?xml version=\"1.0\" encoding=\"UTF-8\"?>\n");
        kml.append("<kml xmlns=\"http://www.opengis.net/kml/2.2\">\n");
        kml.append("  <Document>\n");
        kml.append("    <name>Flight ");
        kml.append(self.device_address.as_str());
        kml.append(" (No Track Data)</name>\n");
        kml.append("    <description>No position data available for flight ");
        kml.append(self.device_address.as_str());
        kml.append("</description>\n");
        kml.append("  </Document>\n");
        kml.append("</kml>\n");
        proof {
            reveal_strlit("<?xml version=\"1.0\" encoding=\"UTF-8\"?>\n");
            reveal_strlit("<kml xmlns=\"http://www.opengis.net/kml/2.2\">\n");
            reveal_strlit("  <Document>\n");
            reveal_strlit("    <name>Flight ");
            reveal_strlit(" (No Track Data)</name>\n");
            reveal_strlit("    <description>No position data available for flight ");
            reveal_strlit("</description>\n");
            reveal_strlit("  </Document>\n");
            reveal_strlit("</kml>\n");
        }
        assert(kml@ =~= empty_kml_spec(self.device_address@));
        kml
    }
}


/// An aircraft with its number of flights archived as spurious.
#[derive(Clone, Debug)]
pub struct SpuriousAircraftRow {
    pub aircraft_id: Option<u128>,
    pub registration: Option<String>,
    pub aircraft_model: Option<String>,
    pub device_address: String,
    pub spurious_count: i64,
}

/// The display name of an aircraft row: "model - registration", else the registration,
/// else the model, else the device address (empty texts count as absent).
pub open spec fn row_display_name(r: SpuriousAircraftRow) -> Seq<char> {
    let has_registration = r.registration matches Some(x) && x@.len() > 0;
    let has_model = r.aircraft_model matches Some(x) && x@.len() > 0;
    if has_model && has_registration {
        r.aircraft_model.unwrap()@ + " - "@ + r.registration.unwrap()@
    } else if has_registration {
        r.registration.unwrap()@
    } else if has_model {
        r.aircraft_model.unwrap()@
    } else {
        r.device_address@
    }
}

impl SpuriousAircraftRow {
    /// Get display name for the aircraft: Model + Registration > Registration > Model >
    /// device address.
    pub fn display_name(&self) -> (r: String)
        ensures
            r@ == row_display_name(*self),
    {
        proof {
            reveal_strlit(" - ");
        }
        let has_registration = match &self.registration {
            Some(x) => x.as_str().unicode_len() > 0,
            None => false,
        };
        let has_model = match &self.aircraft_model {
            Some(x) => x.as_str().unicode_len() > 0,
            None => false,
        };
        match (&self.aircraft_model, &self.registration) {
            (Some(m), Some(reg)) => {
                if has_model && has_registration {
                    let mut s = m.clone();
                    s.append(" - ");
                    s.append(reg.as_str());
                    return s;
                }
            },
            _ => {},
        }
        if has_registration {
            match &self.registration {
                Some(reg) => return reg.clone(),
                None => {},
            }
        }
        if has_model {
            match &self.aircraft_model {
                Some(m) => return m.clone(),
                None => {},
            }
        }
        self.device_address.clone()
    }
}


/// A year as chrono's `%Y` writes it: four digits with leading zeros for years 0 to
/// 9999, otherwise a sign and at least four digits.
pub open spec fn year_text(y: int) -> Seq<char> {
    if 0 <= y <= 9999 {
        zero_padded(decimal(y as nat), 4)
    } else if y > 9999 {
        seq!['+'] + zero_padded(decimal(y as nat), 4)
    } else {
        seq!['-'] + zero_padded(decimal((-y) as nat), 4)
    }
}

/// Two digits.
pub open spec fn two_digits(v: int) -> Seq<char> {
    zero_padded(decimal(v as nat), 2)
}

/// An instant as `%Y-%m-%d %H:%M:%S` in UTC.
pub open spec fn timestamp_text(us: i64) -> Seq<char> {
    let (y, mo, d) = utc_date(us);
    let (h, mi, s) = time_of_day(us as int);
    year_text(y as int) + "-"@ + two_digits(mo as int) + "-"@ + two_digits(d as int) + " "@
        + two_digits(h) + ":"@ + two_digits(mi) + ":"@ + two_digits(s)
}

/// Write an instant as `%Y-%m-%d %H:%M:%S` in UTC (chrono's rendering).
pub fn format_timestamp(us: i64) -> (r: String)
    requires
        representable_instant(us as int),
    ensures
        r@ == timestamp_text(us),
{
    let (y, mo, d) = date_of(us);
    let (h, mi, sec) = hour_minute_second(us);
    let mut out = if 0 <= y && y <= 9999 {
        to_decimal_padded(y as u64, 4)
    } else if y > 9999 {
        let mut t = String::from_str("+");
        t.append(to_decimal_padded(y as u64, 4).as_str());
        t
    } else {
        let mut t = String::from_str("-");
        t.append(to_decimal_padded((-(y as i64)) as u64, 4).as_str());
        t
    };
    proof {
        reveal_strlit("+");
        reveal_strlit("-");
        reveal_strlit(" ");
        reveal_strlit(":");
        assert(out@ =~= year_text(y as int));
    }
    out.append("-");
    out.append(to_decimal_padded(mo as u64, 2).as_str());
    out.append("-");
    out.append(to_decimal_padded(d as u64, 2).as_str());
    out.append(" ");
    out.append(to_decimal_padded(h, 2).as_str());
    out.append(":");
    out.append(to_decimal_padded(mi, 2).as_str());
    out.append(":");
    out.append(to_decimal_padded(sec, 2).as_str());
    assert(out@ =~= timestamp_text(us));
    out
}

/// The texts of a drawn flight track.
#[derive(Debug)]
pub struct KmlLabels {
    /// "Flight {aircraft}".
    pub document_name: String,
    /// "Flight track for aircraft {aircraft} from {start} UTC to {end} UTC".
    pub document_description: String,
    /// Name and description of the start marker.
    pub start: (String, String),
    /// Name and description of the end marker, when the flight landed or timed out.
    pub end: Option<(String, String)>,
}

/// The texts of the start marker at `start_us`: "Takeoff" with its time, or "Detected"
/// for a flight first seen airborne.
pub open spec fn start_marker_text(takeoff_known: bool, start_us: i64) -> (Seq<char>, Seq<char>) {
    if takeoff_known {
        ("Takeoff"@, "Takeoff at "@ + timestamp_text(start_us) + " UTC"@)
    } else {
        (
            "Detected"@,
            "Flight first detected at "@ + timestamp_text(start_us) + " UTC (already airborne)"@,
        )
    }
}

/// The texts of the end marker at `end_us`.
pub open spec fn end_marker_text(end: TrackEnd, end_us: i64) -> (Seq<char>, Seq<char>) {
    match end {
        TrackEnd::SignalLost => (
            "Signal Lost"@,
            "Last signal received at "@ + timestamp_text(end_us)
                + " UTC (flight timed out after 1+ hour without updates)"@,
        ),
        TrackEnd::Landing => ("Landing"@, "Landing at "@ + timestamp_text(end_us) + " UTC"@),
    }
}

impl Flight {
    /// The texts of the flight's drawn track: the document's name and description (by
    /// the aircraft's display name and the track window), and the start and end markers.
    pub fn kml_labels(&self, device: Option<&Aircraft>) -> (r: KmlLabels)
        requires
            representable_instant(
                match self.takeoff_time_us {
                    Some(t) => t,
                    None => self.created_at_us,
                } as int,
            ),
            representable_instant(
                match self.landing_time_us {
                    Some(t) => t,
                    None => self.last_fix_at_us,
                } as int,
            ),
        ensures
            ({
                let start = match self.takeoff_time_us {
                    Some(t) => t,
                    None => self.created_at_us,
                };
                let end = match self.landing_time_us {
                    Some(t) => t,
                    None => self.last_fix_at_us,
                };
                let ident = aircraft_identifier_spec(
                    *self,
                    match device {
                        Some(d) => Some(*d),
                        None => None,
                    },
                );
                &&& r.document_name@ == "Flight "@ + ident
                &&& r.document_description@ == "Flight track for aircraft "@ + ident + " from "@
                    + timestamp_text(start) + " UTC to "@ + timestamp_text(end) + " UTC"@
                &&& (r.start.0@, r.start.1@) == start_marker_text(
                    self.takeoff_time_us is Some,
                    start,
                )
                &&& (if self.timed_out_at_us is Some {
                    r.end matches Some(e) && (e.0@, e.1@) == end_marker_text(
                        TrackEnd::SignalLost,
                        end,
                    )
                } else if self.landing_time_us is Some {
                    r.end matches Some(e) && (e.0@, e.1@) == end_marker_text(TrackEnd::Landing, end)
                } else {
                    r.end is None
                })
            }),
    {
        let (start, end) = self.track_window();
        let (start_kind, end_kind) = self.track_markers();
        let ident = self.get_aircraft_identifier(device);
        let start_text = format_timestamp(start);
        let end_text = format_timestamp(end);
        proof {
            reveal_strlit("Flight ");
            reveal_strlit("Flight track for aircraft ");
            reveal_strlit(" from ");
            reveal_strlit(" UTC to ");
            reveal_strlit(" UTC");
            reveal_strlit("Takeoff");
            reveal_strlit("Takeoff at ");
            reveal_strlit("Detected");
            reveal_strlit("Flight first detected at ");
            reveal_strlit(" UTC (already airborne)");
            reveal_strlit("Signal Lost");
            reveal_strlit("Last signal received at ");
            reveal_strlit(" UTC (flight timed out after 1+ hour without updates)");
            reveal_strlit("Landing");
            reveal_strlit("Landing at ");
        }
        let mut name = String::from_str("Flight ");
        name.append(ident.as_str());
        let mut description = String::from_str("Flight track for aircraft ");
        description.append(ident.as_str());
        description.append(" from ");
        description.append(start_text.as_str());
        description.append(" UTC to ");
        description.append(end_text.as_str());
        description.append(" UTC");
        let start_marker = match start_kind {
            TrackStart::Takeoff => {
                let mut d = String::from_str("Takeoff at ");
                d.append(start_text.as_str());
                d.append(" UTC");
                (String::from_str("Takeoff"), d)
            },
            TrackStart::Detected => {
                let mut d = String::from_str("Flight first detected at ");
                d.append(start_text.as_str());
                d.append(" UTC (already airborne)");
                (String::from_str("Detected"), d)
            },
        };
        let end_marker = match end_kind {
            Some(TrackEnd::SignalLost) => {
                let mut d = String::from_str("Last signal received at ");
                d.append(end_text.as_str());
                d.append(" UTC (flight timed out after 1+ hour without updates)");
                Some((String::from_str("Signal Lost"), d))
            },
            Some(TrackEnd::Landing) => {
                let mut d = String::from_str("Landing at ");
                d.append(end_text.as_str());
                d.append(" UTC");
                Some((String::from_str("Landing"), d))
            },
            None => None,
        };
        KmlLabels {
            document_name: name,
            document_description: description,
            start: start_marker,
            end: end_marker,
        }
    }
}

/// The style identifier of track segment `i` ("segment{i}").
pub fn segment_style_id(i: usize) -> (r: String)
    ensures
        r@ == "segment"@ + decimal(i as nat),
{
    let mut s = String::from_str("segment");
    s.append(to_decimal(i as u64).as_str());
    proof {
        reveal_strlit("segment");
    }
    s
}

/// The name of track segment `i` ("Segment {i}").
pub fn segment_name(i: usize) -> (r: String)
    ensures
        r@ == "Segment "@ + decimal(i as nat),
{
    let mut s = String::from_str("Segment ");
    s.append(to_decimal(i as u64).as_str());
    proof {
        reveal_strlit("Segment ");
    }
    s
}

} // verus!

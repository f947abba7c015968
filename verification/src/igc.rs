//! IGC file generation for flight exports.
//!
//! IGC is the International Gliding Commission's format for recording glider flights.
//! Coordinates are micro-degrees; instants are microseconds since the epoch.

use vstd::prelude::*;

use crate::aircraft::Aircraft;
use crate::fixes::Fix;
use crate::flights::Flight;
use crate::text::{decimal, lemma_decimal_len_bound, signed_padded, to_decimal_padded, to_signed_padded, zero_padded};
use crate::time::{date_of, hour_minute_second, now_us, representable_instant, time_of_day, utc_date};

verus! {

/// Absolute value.
pub open spec fn abs(v: int) -> nat {
    if v >= 0 {
        v as nat
    } else {
        (-v) as nat
    }
}

/// Degrees, whole minutes and thousandths of a minute of a coordinate in micro-degrees:
/// the coordinate is rounded (half up) to a thousandth of a minute, so that a rounding up
/// to a whole minute, or to a whole degree, carries over.
pub open spec fn dm_parts(udeg: int) -> (nat, nat, nat) {
    let t = (abs(udeg) * 60 + 500) / 1000;
    (t / 60000, (t % 60000) / 1000, t % 1000)
}

/// Latitude as DDMMmmmN/S.
pub open spec fn latitude_field(udeg: int) -> Seq<char> {
    let (d, m, f) = dm_parts(udeg);
    zero_padded(decimal(d), 2) + zero_padded(decimal(m), 2) + zero_padded(decimal(f), 3) + seq![
        if udeg >= 0 {
            'N'
        } else {
            'S'
        },
    ]
}

/// Longitude as DDDMMmmmE/W.
pub open spec fn longitude_field(udeg: int) -> Seq<char> {
    let (d, m, f) = dm_parts(udeg);
    zero_padded(decimal(d), 3) + zero_padded(decimal(m), 2) + zero_padded(decimal(f), 3) + seq![
        if udeg >= 0 {
            'E'
        } else {
            'W'
        },
    ]
}

/// Law: every valid latitude is written in the eight characters of DDMMmmmN/S, and every
/// valid longitude in the nine of DDDMMmmmE/W.
pub proof fn lemma_coordinate_fields_fixed_width(lat_udeg: int, lon_udeg: int)
    requires
        abs(lat_udeg) <= 90_000_000,
        abs(lon_udeg) <= 180_000_000,
    ensures
        latitude_field(lat_udeg).len() == 8,
        longitude_field(lon_udeg).len() == 9,
{
    reveal_with_fuel(vstd::arithmetic::power::pow, 4);
    let (ld, lm, lf) = dm_parts(lat_udeg);
    let (gd, gm, gf) = dm_parts(lon_udeg);
    assert(ld <= 90 && lm < 60 && lf < 1000);
    assert(gd <= 180 && gm < 60 && gf < 1000);
    lemma_decimal_len_bound(ld, 2, 100);
    lemma_decimal_len_bound(lm, 2, 100);
    lemma_decimal_len_bound(lf, 3, 1000);
    lemma_decimal_len_bound(gd, 3, 1000);
    lemma_decimal_len_bound(gm, 2, 100);
    lemma_decimal_len_bound(gf, 3, 1000);
}

fn dm_parts_exec(udeg: i64) -> (r: (u64, u64, u64))
    ensures
        r.0 as nat == dm_parts(udeg as int).0,
        r.1 as nat == dm_parts(udeg as int).1,
        r.2 as nat == dm_parts(udeg as int).2,
{
    let u: u64 = if udeg >= 0 {
        udeg as u64
    } else {
        (-(udeg as i128)) as u64
    };
    let t: u128 = (u as u128 * 60 + 500) / 1000;
    assert(t / 60000 <= u64::MAX);
    ((t / 60000) as u64, ((t % 60000) / 1000) as u64, (t % 1000) as u64)
}

/// Format latitude as DDMMmmmN/S. Example: 54118680 (54.11868°) -> 5407121N
pub fn format_latitude(lat_udeg: i64) -> (r: String)
    ensures
        r@ == latitude_field(lat_udeg as int),
{
    let (d, m, f) = dm_parts_exec(lat_udeg);
    let mut s = to_decimal_padded(d, 2);
    s.append(to_decimal_padded(m, 2).as_str());
    s.append(to_decimal_padded(f, 3).as_str());
    proof {
        reveal_strlit("N");
        reveal_strlit("S");
    }
    if lat_udeg >= 0 {
        s.append("N");
    } else {
        s.append("S");
    }
    s
}

/// Format longitude as DDDMMmmmE/W. Example: -2822370 (-2.82237°) -> 00249342W
pub fn format_longitude(lon_udeg: i64) -> (r: String)
    ensures
        r@ == longitude_field(lon_udeg as int),
{
    let (d, m, f) = dm_parts_exec(lon_udeg);
    let mut s = to_decimal_padded(d, 3);
    s.append(to_decimal_padded(m, 2).as_str());
    s.append(to_decimal_padded(f, 3).as_str());
    proof {
        reveal_strlit("E");
        reveal_strlit("W");
    }
    if lon_udeg >= 0 {
        s.append("E");
    } else {
        s.append("W");
    }
    s
}

/// Altitude in whole meters of an altitude in feet (0.3048 m per foot, rounded to the
/// nearest, halves up), not below zero; zero when unknown.
pub open spec fn altitude_meters(ft: Option<i32>) -> nat {
    match ft {
        Some(f) => if f > 0 {
            ((f * 3048 + 5000) / 10000) as nat
        } else {
            0
        },
        None => 0,
    }
}

fn altitude_meters_exec(ft: Option<i32>) -> (r: u64)
    ensures
        r as nat == altitude_meters(ft),
{
    match ft {
        Some(f) => if f > 0 {
            ((f as u64) * 3048 + 5000) / 10000
        } else {
            0
        },
        None => 0,
    }
}

/// A B (fix) record: B HHMMSS DDMMmmmN DDDMMmmmE V PPPPP GGGGG, ending with CRLF.
pub open spec fn b_record(fix: Fix) -> Seq<char> {
    let (h, m, s) = time_of_day(fix.timestamp_us as int);
    let alt = zero_padded(decimal(altitude_meters(fix.altitude_msl_feet)), 5);
    "B"@ + zero_padded(decimal(h as nat), 2) + zero_padded(decimal(m as nat), 2) + zero_padded(
        decimal(s as nat),
        2,
    ) + latitude_field(fix.latitude_udeg as int) + longitude_field(fix.longitude_udeg as int)
        + seq![
        if fix.altitude_msl_feet is Some {
            'A'
        } else {
            'V'
        },
    ] + alt + alt + "\r\n"@
}

/// Write a B (fix) record to the IGC file: time, position, validity (A with altitude, V
/// without), pressure and GPS altitude in meters (both from the GPS altitude).
pub fn write_b_record(igc: &mut String, fix: &Fix)
    ensures
        final(igc)@ == old(igc)@ + b_record(*fix),
{
    let (h, m, s) = hour_minute_second(fix.timestamp_us);
    let alt = altitude_meters_exec(fix.altitude_msl_feet);
    let pressure_alt = to_decimal_padded(alt, 5);
    let gps_alt = to_decimal_padded(alt, 5);
    proof {
        reveal_strlit("A");
        reveal_strlit("V");
    }
    let mut rec = String::from_str("B");
    rec.append(to_decimal_padded(h, 2).as_str());
    rec.append(to_decimal_padded(m, 2).as_str());
    rec.append(to_decimal_padded(s, 2).as_str());
    rec.append(format_latitude(fix.latitude_udeg).as_str());
    rec.append(format_longitude(fix.longitude_udeg).as_str());
    if fix.altitude_msl_feet.is_some() {
        rec.append("A");
    } else {
        rec.append("V");
    }
    rec.append(pressure_alt.as_str());
    rec.append(gps_alt.as_str());
    rec.append("\r\n");
    igc.append(rec.as_str());
}

/// The aircraft behind an optional reference.
pub open spec fn deref_aircraft(a: Option<&Aircraft>) -> Option<Aircraft> {
    match a {
        Some(a) => Some(*a),
        None => None,
    }
}

/// Pilot in charge: the aircraft's pilot, else its owner or operator, else "Unknown".
pub open spec fn pilot_name(aircraft: Option<Aircraft>) -> Seq<char> {
    match aircraft {
        Some(a) => match a.pilot_name {
            Some(p) => p@,
            None => match a.owner_operator {
                Some(o) => o@,
                None => "Unknown"@,
            },
        },
        None => "Unknown"@,
    }
}

/// Glider type: the aircraft's model, else "Unknown".
pub open spec fn glider_type(aircraft: Option<Aircraft>) -> Seq<char> {
    match aircraft {
        Some(a) => a.aircraft_model@,
        None => "Unknown"@,
    }
}

/// Glider identifier: the registration, else the flight's device address.
pub open spec fn glider_id(flight: Flight, aircraft: Option<Aircraft>) -> Seq<char> {
    match aircraft {
        Some(a) => match a.registration {
            Some(r) => r@,
            None => flight.device_address@,
        },
        None => flight.device_address@,
    }
}

/// The H (header) records of a flight on a date (year, month, day).
pub open spec fn header_records(flight: Flight, date: (i32, u32, u32), aircraft: Option<Aircraft>) -> Seq<char> {
    "HFDTE"@ + zero_padded(decimal(date.2 as nat), 2) + zero_padded(decimal(date.1 as nat), 2)
        + signed_padded(rem_toward_zero_i(date.0 as int, 100), 2) + "\r\n"@ + "HFFXA035\r\n"@
        + "HFPLTPILOTINCHARGE:"@ + pilot_name(aircraft) + "\r\n"@ + "HFGTYGLIDERTYPE:"@
        + glider_type(aircraft) + "\r\n"@ + "HFGIDGLIDERID:"@ + glider_id(flight, aircraft)
        + "\r\n"@ + "HFDTM100GPSDATUM:WGS-1984\r\n"@ + "HFFTYFRTYPE:SOAR Flight Tracker\r\n"@
        + "HFGPSGPS:Multiple Sources,12ch,18000m\r\n"@
}

/// Remainder with the sign of the dividend.
pub open spec fn rem_toward_zero_i(a: int, b: int) -> int {
    if a >= 0 {
        a % b
    } else {
        -((-a) % b)
    }
}

/// Write header (H) records to the IGC file
pub fn write_header_records(igc: &mut String, flight: &Flight, flight_date_us: i64, aircraft: Option<&Aircraft>)
    requires
        representable_instant(flight_date_us as int),
    ensures
        final(igc)@ == old(igc)@ + header_records(
            *flight,
            utc_date(flight_date_us),
            deref_aircraft(aircraft),
        ),
{
    let (year, month, day) = date_of(flight_date_us);
    let yy: i32 = year % 100;
    let mut hdr = String::from_str("HFDTE");
    hdr.append(to_decimal_padded(day as u64, 2).as_str());
    hdr.append(to_decimal_padded(month as u64, 2).as_str());
    hdr.append(to_signed_padded(yy as i64, 2).as_str());
    hdr.append("\r\n");
    hdr.append("HFFXA035\r\n");
    hdr.append("HFPLTPILOTINCHARGE:");
    match aircraft {
        Some(a) => match &a.pilot_name {
            Some(p) => hdr.append(p.as_str()),
            None => match &a.owner_operator {
                Some(o) => hdr.append(o.as_str()),
                None => hdr.append("Unknown"),
            },
        },
        None => hdr.append("Unknown"),
    }
    hdr.append("\r\n");
    hdr.append("HFGTYGLIDERTYPE:");
    match aircraft {
        Some(a) => hdr.append(a.aircraft_model.as_str()),
        None => hdr.append("Unknown"),
    }
    hdr.append("\r\n");
    hdr.append("HFGIDGLIDERID:");
    match aircraft {
        Some(a) => match &a.registration {
            Some(r) => hdr.append(r.as_str()),
            None => hdr.append(flight.device_address.as_str()),
        },
        None => hdr.append(flight.device_address.as_str()),
    }
    hdr.append("\r\n");
    hdr.append("HFDTM100GPSDATUM:WGS-1984\r\n");
    hdr.append("HFFTYFRTYPE:SOAR Flight Tracker\r\n");
    hdr.append("HFGPSGPS:Multiple Sources,12ch,18000m\r\n");
    igc.append(hdr.as_str());
}

/// The B records of the fixes, in order.
pub open spec fn b_records(fixes: Seq<Fix>) -> Seq<char>
    decreases fixes.len(),
{
    if fixes.len() == 0 {
        Seq::empty()
    } else {
        b_records(fixes.drop_last()) + b_record(fixes.last())
    }
}

/// The date an IGC file is dated by: takeoff, else first fix, else `now_us`.
pub open spec fn flight_date(flight: Flight, fixes: Seq<Fix>, now_us: i64) -> i64 {
    match flight.takeoff_time_us {
        Some(t) => t,
        None => if fixes.len() > 0 {
            fixes[0].timestamp_us
        } else {
            now_us
        },
    }
}

/// The whole IGC file.
pub open spec fn igc_file(flight: Flight, fixes: Seq<Fix>, aircraft: Option<Aircraft>, now_us: i64) -> Seq<char> {
    "AXXXSOAR\r\n"@ + header_records(flight, utc_date(flight_date(flight, fixes, now_us)), aircraft)
        + "I00\r\n"@ + b_records(fixes)
}

/// Generate an IGC file from flight data and fixes, dated at `now_us` when neither takeoff
/// time nor fixes give a date. The content uses CRLF line endings and the unofficial
/// manufacturer code XXX.
pub fn generate_igc_at(flight: &Flight, fixes: &[Fix], aircraft: Option<&Aircraft>, now_us: i64) -> (r:
    String)
    requires
        representable_instant(flight_date(*flight, fixes@, now_us) as int),
    ensures
        r@ == igc_file(
            *flight,
            fixes@,
            deref_aircraft(aircraft),
            now_us,
        ),
{
    let mut igc = String::from_str("AXXXSOAR\r\n");
    let date = match flight.takeoff_time_us {
        Some(t) => t,
        None => if fixes.len() > 0 {
            fixes[0].timestamp_us
        } else {
            now_us
        },
    };
    write_header_records(&mut igc, flight, date, aircraft);
    igc.append("I00\r\n");
    let ghost prefix = igc@;
    let mut i: usize = 0;
    while i < fixes.len()
        invariant
            i <= fixes@.len(),
            igc@ == prefix + b_records(fixes@.subrange(0, i as int)),
        decreases fixes@.len() - i,
    {
        write_b_record(&mut igc, &fixes[i]);
        assert(fixes@.subrange(0, i as int + 1).drop_last() =~= fixes@.subrange(0, i as int));
        i = i + 1;
    }
    assert(fixes@.subrange(0, fixes@.len() as int) =~= fixes@);
    igc
}

/// Generate an IGC file from flight data and fixes (dated now when neither takeoff time nor
/// fixes give a date).
pub fn generate_igc(flight: &Flight, fixes: &[Fix], aircraft: Option<&Aircraft>) -> (r: String)
    requires
        flight.takeoff_time_us matches Some(t) ==> representable_instant(t as int),
        flight.takeoff_time_us is None && fixes@.len() > 0 ==> representable_instant(
            fixes@[0].timestamp_us as int,
        ),
    ensures
        exists|now: i64|
            r@ == #[trigger] igc_file(
                *flight,
                fixes@,
                deref_aircraft(aircraft),
                now,
            ),
{
    let now = now_us();
    generate_igc_at(flight, fixes, aircraft, now)
}

} // verus!

//! Runway identification.

use vstd::prelude::*;

use crate::ogn_aprs_aircraft::AircraftType;
use crate::text::{decimal, opt_chars, to_decimal, to_decimal_padded, zero_padded};

verus! {

/// Aircraft types that take off and land on runways (unknown types are assumed to).
pub open spec fn runway_user(t: AircraftType) -> bool {
    match t {
        AircraftType::Glider | AircraftType::TowTug | AircraftType::RecipEngine
        | AircraftType::JetTurboprop | AircraftType::DropPlane | AircraftType::Unknown => true,
        _ => false,
    }
}

/// Check if an aircraft type uses runways
pub fn uses_runways(aircraft_type: &AircraftType) -> (r: bool)
    ensures
        r == runway_user(*aircraft_type),
{
    match aircraft_type {
        AircraftType::Glider => true,
        AircraftType::TowTug => true,
        AircraftType::RecipEngine => true,
        AircraftType::JetTurboprop => true,
        AircraftType::DropPlane => true,
        AircraftType::Paraglider => false,
        AircraftType::HangGlider => false,
        AircraftType::HelicopterGyro => false,
        AircraftType::Balloon => false,
        AircraftType::Airship => false,
        AircraftType::SkydiverParachute => false,
        AircraftType::Uav => false,
        AircraftType::StaticObstacle => false,
        AircraftType::Reserved => false,
        AircraftType::Unknown => true,
    }
}

/// Whether runway detection applies to an aircraft of this (possibly unknown) type: it is
/// skipped, before any fix or runway is looked up, for types that do not use runways
/// (paragliders, helicopters, balloons and the like). An aircraft without a type gets it.
pub fn runway_detection_applies(aircraft_type: Option<AircraftType>) -> (r: bool)
    ensures
        r == (aircraft_type matches Some(t) ==> runway_user(t)),
{
    match aircraft_type {
        Some(t) => uses_runways(&t),
        None => true,
    }
}

/// Remainder with the sign of the dividend, as Rust's `%` computes it.
pub open spec fn rem_toward_zero(a: int, b: int) -> int {
    if a >= 0 {
        a % b
    } else {
        -((-a) % b)
    }
}

/// The runway number for a heading already divided by ten and rounded: taken modulo 36
/// (Rust remainder), with 0 shown as 36, formatted with at least two digits.
pub open spec fn runway_identifier_spec(tens: int) -> Seq<char> {
    let n = rem_toward_zero(tens, 36);
    let n = if n == 0 {
        36
    } else {
        n
    };
    if n >= 0 {
        zero_padded(decimal(n as nat), 2)
    } else {
        seq!['-'] + decimal((-n) as nat)
    }
}

/// Convert a heading, given in tens of degrees rounded to the nearest (e.g. 23 for 230°),
/// to a runway identifier: 23 -> "23", 5 -> "05", 36 or 0 -> "36".
pub fn heading_to_runway_identifier(heading_tens: i32) -> (r: String)
    ensures
        r@ == runway_identifier_spec(heading_tens as int),
{
    let n: i32 = heading_tens % 36;
    let n: i32 = if n == 0 {
        36
    } else {
        n
    };
    if n >= 0 {
        to_decimal_padded(n as u64, 2)
    } else {
        let mut s = String::from_str("-");
        proof {
            reveal_strlit("-");
        }
        let d = to_decimal((-n) as u64);
        s.append(d.as_str());
        assert(s@ =~= seq!['-'] + decimal((-n) as nat));
        s
    }
}


/// Which end of a runway an aircraft was found near.
#[derive(Clone, Copy, Debug, PartialEq, Eq, Structural)]
pub enum RunwayEnd {
    /// Near the low-numbered end.
    Low,
    /// Near the high-numbered end.
    High,
    /// Anything else the lookup returned; such endpoints are skipped.
    Other,
}

/// A runway endpoint near the aircraft, with the angular difference (0 to 180 degrees)
/// between the aircraft's average course and the heading of each runway end, given as
/// the bit pattern of the non-negative `f64` value, which orders as the value does.
#[derive(Clone, Debug)]
pub struct RunwayEndpoint {
    pub end: RunwayEnd,
    pub le_ident: Option<String>,
    pub he_ident: Option<String>,
    /// Difference to the low end's heading, when that heading is known.
    pub le_diff_bits: Option<u64>,
    /// Difference to the high end's heading, when that heading is known.
    pub he_diff_bits: Option<u64>,
}

/// Bit pattern of the `f64` value 30.0: the largest heading difference (exclusive) at
/// which a runway found without a known airport is accepted.
pub const THIRTY_DEGREES_BITS: u64 = 0x403E_0000_0000_0000;


/// The end an aircraft near this endpoint is taken to use, with its heading difference:
/// of the two ends, the one whose heading is closer to the course, the other end (the one
/// the aircraft is not near) winning ties; skipped (none) unless both headings are known and the endpoint
/// is a low or high end.
pub open spec fn endpoint_choice(e: RunwayEndpoint) -> Option<(Option<Seq<char>>, u64)> {
    match e.le_diff_bits {
        Some(ld) => match e.he_diff_bits {
            Some(hd) => match e.end {
                RunwayEnd::Low => if ld < hd {
                    Some((opt_chars(e.le_ident), ld))
                } else {
                    Some((opt_chars(e.he_ident), hd))
                },
                RunwayEnd::High => if hd < ld {
                    Some((opt_chars(e.he_ident), hd))
                } else {
                    Some((opt_chars(e.le_ident), ld))
                },
                RunwayEnd::Other => None,
            },
            None => None,
        },
        None => None,
    }
}

/// The best runway among the endpoints: of those whose chosen end has an identifier, the
/// first with the smallest heading difference.
pub open spec fn best_runway(es: Seq<RunwayEndpoint>) -> Option<(Seq<char>, u64)>
    decreases es.len(),
{
    if es.len() == 0 {
        None
    } else {
        let prev = best_runway(es.drop_last());
        match endpoint_choice(es.last()) {
            Some((Some(id), d)) => match prev {
                Some((pid, pd)) => if d < pd {
                    Some((id, d))
                } else {
                    prev
                },
                None => Some((id, d)),
            },
            _ => prev,
        }
    }
}

/// The runway identifier and whether it was inferred: the best runway from the lookup
/// when the search was at a known airport or its heading difference is under 30 degrees,
/// otherwise the runway inferred from the course (in tens of degrees, rounded).
pub open spec fn runway_decision(
    es: Seq<RunwayEndpoint>,
    at_known_airport: bool,
    course_tens: int,
) -> (Seq<char>, bool) {
    match best_runway(es) {
        Some((id, d)) => if at_known_airport || d < THIRTY_DEGREES_BITS {
            (id, false)
        } else {
            (runway_identifier_spec(course_tens), true)
        },
        None => (runway_identifier_spec(course_tens), true),
    }
}

fn endpoint_choice_exec(e: &RunwayEndpoint) -> (r: Option<(Option<String>, u64)>)
    ensures
        match r {
            Some((id, d)) => endpoint_choice(*e) == Some((opt_chars(id), d)),
            None => endpoint_choice(*e) is None,
        },
{
    match (e.le_diff_bits, e.he_diff_bits) {
        (Some(ld), Some(hd)) => match e.end {
            RunwayEnd::Low => if ld < hd {
                Some((e.le_ident.clone(), ld))
            } else {
                Some((e.he_ident.clone(), hd))
            },
            RunwayEnd::High => if hd < ld {
                Some((e.he_ident.clone(), hd))
            } else {
                Some((e.le_ident.clone(), ld))
            },
            RunwayEnd::Other => None,
        },
        _ => None,
    }
}

/// Choose the runway used at a takeoff or landing from the runway endpoints found near
/// it: the best match from the lookup, accepted when searching at a known airport or
/// when its heading difference is under 30 degrees; otherwise the runway inferred from
/// the average course (given in tens of degrees, rounded). Returns the identifier and
/// whether it was inferred.
pub fn choose_runway(
    endpoints: &Vec<RunwayEndpoint>,
    at_known_airport: bool,
    course_tens: i32,
) -> (r: (String, bool))
    ensures
        (r.0@, r.1) == runway_decision(endpoints@, at_known_airport, course_tens as int),
{
    let mut best: Option<(String, u64)> = None;
    let mut i: usize = 0;
    while i < endpoints.len()
        invariant
            i <= endpoints@.len(),
            match best {
                Some((id, d)) => best_runway(endpoints@.subrange(0, i as int)) == Some((id@, d)),
                None => best_runway(endpoints@.subrange(0, i as int)) is None,
            },
        decreases endpoints@.len() - i,
    {
        let ghost sub = endpoints@.subrange(0, i as int + 1);
        proof {
            assert(sub.drop_last() =~= endpoints@.subrange(0, i as int));
            assert(sub.last() == endpoints@[i as int]);
        }
        match endpoint_choice_exec(&endpoints[i]) {
            Some((Some(id), d)) => {
                let better = match &best {
                    Some((_, pd)) => d < *pd,
                    None => true,
                };
                if better {
                    best = Some((id, d));
                }
            },
            _ => {},
        }
        i = i + 1;
    }
    assert(endpoints@.subrange(0, endpoints@.len() as int) =~= endpoints@);
    match best {
        Some((id, d)) => {
            if at_known_airport || d < THIRTY_DEGREES_BITS {
                return (id, false);
            }
        },
        None => {},
    }
    (heading_to_runway_identifier(course_tens), true)
}

} // verus!

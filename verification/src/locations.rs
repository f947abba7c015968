//! Locations: postal addresses with optional coordinates.

use vstd::prelude::*;

use crate::geocoding::ReverseGeocodeResult;
use crate::ids::new_random_id;
use crate::text::{clone_opt_string, normalized, opt_chars, str_eq, trim};
use crate::time::now_us;

verus! {

/// A WGS84 point, in micro-degrees.
#[derive(Clone, Copy, Debug, PartialEq, Eq, Structural)]
pub struct Point {
    pub latitude_udeg: i64,
    pub longitude_udeg: i64,
}

impl Point {
    pub fn new(latitude_udeg: i64, longitude_udeg: i64) -> (r: Self)
        ensures
            r == (Point { latitude_udeg, longitude_udeg }),
    {
        Point { latitude_udeg, longitude_udeg }
    }
}

/// A location.
pub struct Location {
    pub id: u128,
    pub street1: Option<String>,
    pub street2: Option<String>,
    pub city: Option<String>,
    pub state: Option<String>,
    pub zip_code: Option<String>,
    pub region_code: Option<String>,
    pub county_mail_code: Option<String>,
    pub country_mail_code: Option<String>,
    pub geolocation: Option<Point>,
    pub created_at_us: i64,
    pub updated_at_us: i64,
}

/// The part for one address field: its trimmed text, when not blank.
pub open spec fn part(o: Option<String>) -> Seq<Seq<char>> {
    match normalized(opt_chars(o)) {
        Some(p) => seq![p],
        None => Seq::empty(),
    }
}

/// The country part: the trimmed code, unless blank or exactly "US".
pub open spec fn country_part(o: Option<String>) -> Seq<Seq<char>> {
    match o {
        Some(c) => if c@ == "US"@ {
            Seq::empty()
        } else {
            part(o)
        },
        None => Seq::empty(),
    }
}

/// The address parts in order: street, second street line, city, state, zip, country.
pub open spec fn address_parts(l: Location) -> Seq<Seq<char>> {
    part(l.street1) + part(l.street2) + part(l.city) + part(l.state) + part(l.zip_code)
        + country_part(l.country_mail_code)
}

/// The parts joined with ", ".
pub open spec fn join_parts(parts: Seq<Seq<char>>) -> Seq<char>
    decreases parts.len(),
{
    if parts.len() == 0 {
        Seq::empty()
    } else if parts.len() == 1 {
        parts[0]
    } else {
        join_parts(parts.drop_last()) + ", "@ + parts.last()
    }
}

impl Location {
    /// Create a new Location with a new random identifier and the current time.
    pub fn new(
        street1: Option<String>,
        street2: Option<String>,
        city: Option<String>,
        state: Option<String>,
        zip_code: Option<String>,
        region_code: Option<String>,
        county_mail_code: Option<String>,
        country_mail_code: Option<String>,
        geolocation: Option<Point>,
    ) -> (r: Self)
        ensures
            r.street1 == street1,
            r.street2 == street2,
            r.city == city,
            r.state == state,
            r.zip_code == zip_code,
            r.region_code == region_code,
            r.county_mail_code == county_mail_code,
            r.country_mail_code == country_mail_code,
            r.geolocation == geolocation,
            r.created_at_us == r.updated_at_us,
    {
        let now = now_us();
        Location {
            id: new_random_id(),
            street1,
            street2,
            city,
            state,
            zip_code,
            region_code,
            county_mail_code,
            country_mail_code,
            geolocation,
            created_at_us: now,
            updated_at_us: now,
        }
    }

    /// Get a complete address string for display or geocoding: the non-blank parts,
    /// trimmed and joined with ", " (the country only when not "US"); none when all are blank.
    pub fn address_string(&self) -> (r: Option<String>)
        ensures
            address_parts(*self).len() == 0 ==> r is None,
            address_parts(*self).len() > 0 ==> (r matches Some(s) && s@ == join_parts(
                address_parts(*self),
            )),
    {
        let mut parts: Vec<String> = Vec::new();
        add_part(&mut parts, &self.street1);
        add_part(&mut parts, &self.street2);
        add_part(&mut parts, &self.city);
        add_part(&mut parts, &self.state);
        add_part(&mut parts, &self.zip_code);
        let is_us = match &self.country_mail_code {
            Some(c) => {
                proof {
                    reveal_strlit("US");
                }
                str_eq(c.as_str(), "US")
            },
            None => false,
        };
        if !is_us {
            add_part(&mut parts, &self.country_mail_code);
        }
        assert(views(parts@) =~= address_parts(*self));
        if parts.len() == 0 {
            None
        } else {
            Some(join(&parts))
        }
    }

    /// Check if this location has geolocation data
    pub fn has_coordinates(&self) -> (r: bool)
        ensures
            r == self.geolocation is Some,
    {
        self.geolocation.is_some()
    }
}

/// The characters of each string.
pub open spec fn views(v: Seq<String>) -> Seq<Seq<char>> {
    v.map_values(|s: String| s@)
}

fn add_part(parts: &mut Vec<String>, field: &Option<String>)
    ensures
        views(final(parts)@) == views(old(parts)@) + part(*field),
{
    if let Some(s) = field {
        let t = trim(s.as_str());
        if t.unicode_len() > 0 {
            parts.push(String::from_str(t));
            assert(views(parts@) =~= views(old(parts)@) + part(*field));
            return;
        }
    }
    assert(views(parts@) =~= views(old(parts)@) + part(*field));
}

pub(crate) fn join(parts: &Vec<String>) -> (r: String)
    requires
        parts@.len() > 0,
    ensures
        r@ == join_parts(views(parts@)),
{
    let mut r = parts[0].clone();
    let mut i: usize = 1;
    assert(views(parts@).subrange(0, 1) =~= seq![parts@[0]@]);
    while i < parts.len()
        invariant
            1 <= i <= parts@.len(),
            r@ == join_parts(views(parts@).subrange(0, i as int)),
        decreases parts@.len() - i,
    {
        r.append(", ");
        r.append(parts[i].as_str());
        let ghost s = views(parts@).subrange(0, i as int + 1);
        assert(s.drop_last() =~= views(parts@).subrange(0, i as int));
        i = i + 1;
    }
    assert(views(parts@).subrange(0, parts@.len() as int) =~= views(parts@));
    r
}


/// The fields of a location to find or create.
#[derive(Clone, Debug)]
pub struct LocationParams {
    pub street1: Option<String>,
    pub street2: Option<String>,
    pub city: Option<String>,
    pub state: Option<String>,
    pub zip_code: Option<String>,
    pub country_code: Option<String>,
    pub geolocation: Option<Point>,
}

/// The country code kept from a country name: its first two characters.
pub open spec fn country_code_of(country: Option<String>) -> Option<Seq<char>> {
    match country {
        Some(c) => Some(c@.take(if c@.len() < 2 { c@.len() as int } else { 2 })),
        None => None,
    }
}


/// Whether a reverse geocoding answer has structured data: a city, a state or a country.
pub fn has_structured_data(result: &ReverseGeocodeResult) -> (r: bool)
    ensures
        r == (result.city is Some || result.state is Some || result.country is Some),
{
    result.city.is_some() || result.state.is_some() || result.country.is_some()
}

/// The location to record for a reverse geocoded point: city, state and zip code as
/// answered, the first two characters of the country as country code, no second street
/// line, and the street line only when asked for (flight start and end locations leave
/// it out).
pub fn location_params_from_reverse(
    result: &ReverseGeocodeResult,
    point: Point,
    with_street: bool,
) -> (r: LocationParams)
    ensures
        r.street1 == (if with_street {
            result.street1
        } else {
            None::<String>
        }),
        r.street2 is None,
        r.city == result.city,
        r.state == result.state,
        r.zip_code == result.zip_code,
        opt_chars(r.country_code) == country_code_of(result.country),
        r.geolocation == Some(point),
{
    let country_code = match &result.country {
        Some(c) => {
            let n = c.as_str().unicode_len();
            let k = if n < 2 {
                n
            } else {
                2
            };
            let code = c.as_str().substring_char(0, k);
            assert(code@ =~= c@.take(k as int));
            Some(String::from_str(code))
        },
        None => None,
    };
    LocationParams {
        street1: if with_street {
            clone_opt_string(&result.street1)
        } else {
            None
        },
        street2: None,
        city: clone_opt_string(&result.city),
        state: clone_opt_string(&result.state),
        zip_code: clone_opt_string(&result.zip_code),
        country_code,
        geolocation: Some(point),
    }
}

} // verus!

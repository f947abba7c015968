//! Decisions of the data loader: how a stored location is turned into geocoding
//! requests, and which nearby airport becomes a club's home base.

use vstd::prelude::*;
use vstd::string::StringSliceAdditionalSpecFns;

use crate::locations::Location;
use crate::text::{clone_opt_string, opt_chars, str_eq};

verus! {

/// The characters match ignoring ASCII case: equal, or `c` is the lowercase form of the
/// uppercase ASCII letter `p`.
pub open spec fn ci_eq(c: char, p: char) -> bool {
    c == p || ('A' <= p <= 'Z' && c as u32 == p as u32 + 32)
}

/// The pattern occurs at position `i` of `s`, ignoring ASCII case.
pub open spec fn matches_at(s: Seq<char>, p: Seq<char>, i: int) -> bool {
    &&& 0 <= i
    &&& i + p.len() <= s.len()
    &&& forall|k: int| 0 <= k < p.len() ==> ci_eq(#[trigger] s[i + k], p[k])
}

/// The pattern occurs somewhere in `s`, ignoring ASCII case.
pub open spec fn contains_ci(s: Seq<char>, p: Seq<char>) -> bool {
    exists|i: int| matches_at(s, p, i)
}

/// A street line that is a post office box: it contains "PO BOX" or "P.O. BOX", or it
/// starts with "BOX ", in any ASCII letter case.
pub open spec fn po_box_spec(s: Seq<char>) -> bool {
    contains_ci(s, "PO BOX"@) || contains_ci(s, "P.O. BOX"@) || matches_at(s, "BOX "@, 0)
}

fn ci_eq_exec(c: char, p: char) -> (r: bool)
    ensures
        r == ci_eq(c, p),
{
    c == p || ('A' <= p && p <= 'Z' && c as u32 == p as u32 + 32)
}

fn matches_at_exec(s: &str, p: &str, i: usize) -> (r: bool)
    requires
        i <= s@.len(),
    ensures
        r == matches_at(s@, p@, i as int),
{
    let n = s.unicode_len();
    let m = p.unicode_len();
    if m > n - i {
        return false;
    }
    let mut k: usize = 0;
    while k < m
        invariant
            n == s@.len(),
            m == p@.len(),
            i + m <= n,
            k <= m,
            forall|j: int| 0 <= j < k ==> ci_eq(#[trigger] s@[i + j], p@[j]),
        decreases m - k,
    {
        if !ci_eq_exec(s.get_char(i + k), p.get_char(k)) {
            assert(!ci_eq(s@[i + k as int], p@[k as int]));
            return false;
        }
        k = k + 1;
    }
    true
}

fn contains_ci_exec(s: &str, p: &str) -> (r: bool)
    ensures
        r == contains_ci(s@, p@),
{
    let n = s.unicode_len();
    let mut i: usize = 0;
    while i < n
        invariant
            n == s@.len(),
            i <= n,
            forall|j: int| 0 <= j < i ==> !matches_at(s@, p@, j),
        decreases n - i,
    {
        if matches_at_exec(s, p, i) {
            return true;
        }
        i = i + 1;
    }
    if matches_at_exec(s, p, n) {
        return true;
    }
    assert forall|j: int| !matches_at(s@, p@, j) by {
        if 0 <= j && j + p@.len() <= s@.len() {
            assert(j <= n);
        }
    }
    false
}

/// Whether a street line is a post office box (see `po_box_spec`).
pub fn is_po_box(street: &str) -> (r: bool)
    ensures
        r == po_box_spec(street@),
{
    proof {
        reveal_strlit("PO BOX");
        reveal_strlit("P.O. BOX");
        reveal_strlit("BOX ");
    }
    contains_ci_exec(street, "PO BOX") || contains_ci_exec(street, "P.O. BOX") || matches_at_exec(
        street,
        "BOX ",
        0,
    )
}

/// The country name used to geocode a location with this country code: no code or "US"
/// is the United States; "CA", "MX" and "GB" are named; any other code is used as is.
pub open spec fn country_name_spec(code: Option<Seq<char>>) -> Seq<char> {
    match code {
        None => "United States"@,
        Some(c) => if c == "US"@ {
            "United States"@
        } else if c == "CA"@ {
            "Canada"@
        } else if c == "MX"@ {
            "Mexico"@
        } else if c == "GB"@ {
            "United Kingdom"@
        } else {
            c
        },
    }
}

/// The country name for a country code (see `country_name_spec`).
pub fn country_name_for(code: Option<&str>) -> (r: String)
    ensures
        r@ == country_name_spec(match code {
            Some(c) => Some(c@),
            None => None,
        }),
{
    proof {
        reveal_strlit("US");
        reveal_strlit("CA");
        reveal_strlit("MX");
        reveal_strlit("GB");
        reveal_strlit("United States");
        reveal_strlit("Canada");
        reveal_strlit("Mexico");
        reveal_strlit("United Kingdom");
    }
    match code {
        None => String::from_str("United States"),
        Some(c) => {
            if str_eq(c, "US") {
                String::from_str("United States")
            } else if str_eq(c, "CA") {
                String::from_str("Canada")
            } else if str_eq(c, "MX") {
                String::from_str("Mexico")
            } else if str_eq(c, "GB") {
                String::from_str("United Kingdom")
            } else {
                String::from_str(c)
            }
        },
    }
}

/// A zip code cut to its first five bytes when it has at least five (the cut must fall
/// on a character boundary).
pub fn zip_five(zip: &str) -> (r: &str)
    requires
        vstd::utf8::encode_utf8(zip@).len() >= 5 ==> vstd::utf8::is_char_boundary(vstd::utf8::encode_utf8(zip@), 5),
    ensures
        vstd::utf8::encode_utf8(zip@).len() >= 5 ==> vstd::utf8::encode_utf8(r@) == vstd::utf8::encode_utf8(zip@).subrange(0, 5),
        vstd::utf8::encode_utf8(zip@).len() < 5 ==> r == zip,
{
    if zip.as_bytes().len() >= 5 {
        let (head, _) = zip.split_at(5);
        assert(head.spec_bytes() =~= zip.spec_bytes().subrange(0, 5));
        head
    } else {
        zip
    }
}

/// The address components of one geocoding request for a stored location.
#[derive(Clone, Debug)]
pub struct GeocodeAttempt {
    pub street1: Option<String>,
    pub street2: Option<String>,
    pub city: Option<String>,
    pub state: Option<String>,
    pub zip_code: Option<String>,
    pub country: Option<String>,
}

/// The zip code part of a request: the first five bytes of the stored zip code.
pub open spec fn zip_part(zip: Option<String>, r: Option<String>) -> bool {
    match zip {
        Some(z) => r matches Some(x) && (vstd::utf8::encode_utf8(z@).len() >= 5 ==> vstd::utf8::encode_utf8(x@)
            == vstd::utf8::encode_utf8(z@).subrange(0, 5)) && (vstd::utf8::encode_utf8(z@).len() < 5 ==> x@ == z@),
        None => r is None,
    }
}

/// The two requests made to geocode a stored location: first the full address (a post
/// office box street line left out), then, should that fail, city, state, zip and
/// country only. The zip code is cut to five bytes and the country code named.
pub fn location_geocode_attempts(location: &Location) -> (r: (GeocodeAttempt, GeocodeAttempt))
    requires
        location.zip_code matches Some(z) ==> (vstd::utf8::encode_utf8(z@).len() >= 5
            ==> vstd::utf8::is_char_boundary(vstd::utf8::encode_utf8(z@), 5)),
    ensures
        r.0.street1 == (match location.street1 {
            Some(s) => if po_box_spec(s@) {
                None
            } else {
                Some(s)
            },
            None => None::<String>,
        }),
        r.0.street2 == location.street2,
        r.1.street1 is None,
        r.1.street2 is None,
        r.0.city == location.city && r.1.city == location.city,
        r.0.state == location.state && r.1.state == location.state,
        zip_part(location.zip_code, r.0.zip_code),
        r.1.zip_code == r.0.zip_code,
        r.0.country matches Some(c) && c@ == country_name_spec(opt_chars(location.country_mail_code)),
        r.1.country == r.0.country,
{
    let street1 = match &location.street1 {
        Some(s) => {
            if is_po_box(s.as_str()) {
                None
            } else {
                Some(s.clone())
            }
        },
        None => None,
    };
    let zip = match &location.zip_code {
        Some(z) => Some(String::from_str(zip_five(z.as_str()))),
        None => None,
    };
    let code = match &location.country_mail_code {
        Some(c) => Some(c.as_str()),
        None => None,
    };
    let country = Some(country_name_for(code));
    let first = GeocodeAttempt {
        street1,
        street2: clone_opt_string(&location.street2),
        city: clone_opt_string(&location.city),
        state: clone_opt_string(&location.state),
        zip_code: zip.clone(),
        country: country.clone(),
    };
    let fallback = GeocodeAttempt {
        street1: None,
        street2: None,
        city: clone_opt_string(&location.city),
        state: clone_opt_string(&location.state),
        zip_code: zip,
        country,
    };
    (first, fallback)
}

/// Airport kinds that can be a club's home base.
pub open spec fn home_base_kind(t: Seq<char>) -> bool {
    t == "large_airport"@ || t == "medium_airport"@ || t == "small_airport"@
}

/// The first of the nearby airports (nearest first, given by kind) that can be a home
/// base.
pub open spec fn first_home_base(kinds: Seq<Seq<char>>, i: int) -> Option<int>
    decreases kinds.len() - i,
{
    if i < 0 || i >= kinds.len() {
        None
    } else if home_base_kind(kinds[i]) {
        Some(i)
    } else {
        first_home_base(kinds, i + 1)
    }
}

/// The position of the airport to link as home base among the nearby airports (nearest
/// first): the first large, medium or small airport.
pub fn home_base_choice(airport_kinds: &Vec<String>) -> (r: Option<usize>)
    ensures
        match r {
            Some(i) => first_home_base(airport_kinds@.map_values(|s: String| s@), 0) == Some(
                i as int,
            ),
            None => first_home_base(airport_kinds@.map_values(|s: String| s@), 0) is None,
        },
{
    let ghost kinds = airport_kinds@.map_values(|s: String| s@);
    proof {
        reveal_strlit("large_airport");
        reveal_strlit("medium_airport");
        reveal_strlit("small_airport");
    }
    let mut i: usize = 0;
    while i < airport_kinds.len()
        invariant
            i <= airport_kinds@.len(),
            kinds == airport_kinds@.map_values(|s: String| s@),
            first_home_base(kinds, 0) == first_home_base(kinds, i as int),
        decreases airport_kinds@.len() - i,
    {
        let k = airport_kinds[i].as_str();
        assert(kinds[i as int] == airport_kinds@[i as int]@);
        if str_eq(k, "large_airport") || str_eq(k, "medium_airport") || str_eq(k, "small_airport") {
            return Some(i);
        }
        i = i + 1;
    }
    None
}

} // verus!

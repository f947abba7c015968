//! Geocoding: the services, their results, how an address is assembled from its
//! components, the order in which services are tried, and how a Google Maps reply is
//! read into address fields.
//!
//! The network clients live outside the library; here are the decisions around them.

use vstd::prelude::*;

use crate::locations::{join, join_parts, views, Point};
use crate::text::{clone_opt_string, normalized, opt_chars, opt_chars_str, trim, trim_spec};

verus! {

/// Geocoding service that was used to successfully geocode an address
#[derive(Debug, Clone, Copy, PartialEq, Eq, Structural)]
pub enum GeocodingService {
    Photon,
    Pelias,
    Nominatim,
    GoogleMaps,
}

/// Result from geocoding that includes both the coordinates and which service was used
#[derive(Debug, Clone, Copy, PartialEq, Eq, Structural)]
pub struct GeocodeResult {
    pub point: Point,
    pub service: GeocodingService,
}

impl GeocodeResult {
    pub fn new(point: Point, service: GeocodingService) -> (r: Self)
        ensures
            r.point == point,
            r.service == service,
    {
        GeocodeResult { point, service }
    }
}

/// Reverse geocoding result
#[derive(Debug, Clone)]
pub struct ReverseGeocodeResult {
    pub street1: Option<String>,
    pub city: Option<String>,
    pub state: Option<String>,
    pub zip_code: Option<String>,
    pub country: Option<String>,
    pub display_name: String,
}

/// A Google Maps geocoding client, holding the connection it was made with.
pub struct GoogleMapsGeocoderClient<C> {
    client: C,
}

impl<C> GoogleMapsGeocoderClient<C> {
    /// The connection this client uses.
    pub closed spec fn connection(&self) -> C {
        self.client
    }

    pub fn new(client: C) -> (r: Self)
        ensures
            r.connection() == client,
    {
        GoogleMapsGeocoderClient { client }
    }

    /// The connection this client uses.
    pub fn client(&self) -> (r: &C)
        ensures
            *r == self.connection(),
    {
        &self.client
    }
}

/// Why a geocoding request was refused before any service was asked.
#[derive(Debug, Clone, Copy, PartialEq, Eq, Structural)]
pub enum GeocodingError {
    /// No address component was given, or all were blank.
    NoAddressComponents,
    /// The address to geocode is blank.
    EmptyAddress,
    /// No forward geocoding service is configured.
    NoForwardServices,
    /// The latitude is outside -90..=90 degrees.
    InvalidLatitude,
    /// The longitude is outside -180..=180 degrees.
    InvalidLongitude,
    /// No reverse geocoding service is configured.
    NoReverseServices,
}

impl GeocodingError {
    /// The message shown for this error.
    pub fn message(&self) -> (r: &'static str)
        ensures
            r@ == match self {
                GeocodingError::NoAddressComponents => "No address components provided"@,
                GeocodingError::EmptyAddress => "Address cannot be empty"@,
                GeocodingError::NoForwardServices => "No geocoding services available"@,
                GeocodingError::InvalidLatitude => "Invalid latitude"@,
                GeocodingError::InvalidLongitude => "Invalid longitude"@,
                GeocodingError::NoReverseServices => "No reverse geocoding services available"@,
            },
    {
        match self {
            GeocodingError::NoAddressComponents => "No address components provided",
            GeocodingError::EmptyAddress => "Address cannot be empty",
            GeocodingError::NoForwardServices => "No geocoding services available",
            GeocodingError::InvalidLatitude => "Invalid latitude",
            GeocodingError::InvalidLongitude => "Invalid longitude",
            GeocodingError::NoReverseServices => "No reverse geocoding services available",
        }
    }
}

/// The part an optional address component contributes: its trimmed text, unless blank.
pub open spec fn component_part(o: Option<&str>) -> Seq<Seq<char>> {
    match normalized(opt_chars_str(o)) {
        Some(p) => seq![p],
        None => Seq::empty(),
    }
}

/// The parts of an address in order: street lines, city, state, zip, then the country;
/// when no country is given at all and some other part is present, "United States".
pub open spec fn component_parts(
    street1: Option<&str>,
    street2: Option<&str>,
    city: Option<&str>,
    state: Option<&str>,
    zip_code: Option<&str>,
    country: Option<&str>,
) -> Seq<Seq<char>> {
    let base = component_part(street1) + component_part(street2) + component_part(city)
        + component_part(state) + component_part(zip_code);
    match country {
        Some(_) => base + component_part(country),
        None => if base.len() > 0 {
            base.push("United States"@)
        } else {
            base
        },
    }
}

fn push_component(parts: &mut Vec<String>, field: Option<&str>)
    ensures
        views(final(parts)@) == views(old(parts)@) + component_part(field),
{
    if let Some(s) = field {
        let t = trim(s);
        if t.unicode_len() > 0 {
            parts.push(String::from_str(t));
            assert(views(parts@) =~= views(old(parts)@) + component_part(field));
            return;
        }
    }
    assert(views(parts@) =~= views(old(parts)@) + component_part(field));
}

/// The single address string that the components make: the non-blank components,
/// trimmed, joined with ", "; the country defaults to "United States" only when it is
/// not given and some other component is present. Fails when nothing is left.
pub fn address_from_components(
    street1: Option<&str>,
    street2: Option<&str>,
    city: Option<&str>,
    state: Option<&str>,
    zip_code: Option<&str>,
    country: Option<&str>,
) -> (r: Result<String, GeocodingError>)
    ensures
        ({
            let parts = component_parts(street1, street2, city, state, zip_code, country);
            &&& parts.len() == 0 <==> r is Err
            &&& r matches Err(e) ==> e == GeocodingError::NoAddressComponents
            &&& r matches Ok(s) ==> s@ == join_parts(parts)
        }),
{
    let mut parts: Vec<String> = Vec::new();
    push_component(&mut parts, street1);
    push_component(&mut parts, street2);
    push_component(&mut parts, city);
    push_component(&mut parts, state);
    push_component(&mut parts, zip_code);
    match country {
        Some(_) => push_component(&mut parts, country),
        None => {
            if parts.len() > 0 {
                let ghost before = views(parts@);
                proof {
                    reveal_strlit("United States");
                }
                parts.push(String::from_str("United States"));
                assert(views(parts@) =~= before.push("United States"@));
            }
        },
    }
    assert(views(parts@) =~= component_parts(street1, street2, city, state, zip_code, country));
    if parts.len() == 0 {
        Err(GeocodingError::NoAddressComponents)
    } else {
        Ok(join(&parts))
    }
}

/// Check a forward geocoding request before any service is asked: the address must not
/// be blank, and some service must be configured.
pub fn check_address_query(address: &str, service_count: usize) -> (r: Result<(), GeocodingError>)
    ensures
        trim_spec(address@).len() == 0 ==> r == Err::<(), GeocodingError>(
            GeocodingError::EmptyAddress,
        ),
        trim_spec(address@).len() > 0 && service_count == 0 ==> r == Err::<(), GeocodingError>(
            GeocodingError::NoForwardServices,
        ),
        trim_spec(address@).len() > 0 && service_count > 0 ==> r is Ok,
{
    if trim(address).unicode_len() == 0 {
        Err(GeocodingError::EmptyAddress)
    } else if service_count == 0 {
        Err(GeocodingError::NoForwardServices)
    } else {
        Ok(())
    }
}

/// Check a reverse geocoding request (coordinates in micro-degrees) before any service is
/// asked: the latitude must lie in -90..=90 degrees, the longitude in -180..=180 degrees,
/// and some service must be configured; checked in that order.
pub fn check_reverse_query(
    latitude_udeg: i64,
    longitude_udeg: i64,
    service_count: usize,
) -> (r: Result<(), GeocodingError>)
    ensures
        !(-90_000_000 <= latitude_udeg <= 90_000_000) ==> r == Err::<(), GeocodingError>(
            GeocodingError::InvalidLatitude,
        ),
        -90_000_000 <= latitude_udeg <= 90_000_000 && !(-180_000_000 <= longitude_udeg
            <= 180_000_000) ==> r == Err::<(), GeocodingError>(GeocodingError::InvalidLongitude),
        -90_000_000 <= latitude_udeg <= 90_000_000 && -180_000_000 <= longitude_udeg
            <= 180_000_000 && service_count == 0 ==> r == Err::<(), GeocodingError>(
            GeocodingError::NoReverseServices,
        ),
        -90_000_000 <= latitude_udeg <= 90_000_000 && -180_000_000 <= longitude_udeg
            <= 180_000_000 && service_count > 0 ==> r is Ok,
{
    if !(-90_000_000 <= latitude_udeg && latitude_udeg <= 90_000_000) {
        Err(GeocodingError::InvalidLatitude)
    } else if !(-180_000_000 <= longitude_udeg && longitude_udeg <= 180_000_000) {
        Err(GeocodingError::InvalidLongitude)
    } else if service_count == 0 {
        Err(GeocodingError::NoReverseServices)
    } else {
        Ok(())
    }
}


/// What a Google Maps address component says it is (the kinds the library reads).
#[derive(Debug, Clone, Copy, PartialEq, Eq, Structural)]
pub enum PlaceKind {
    StreetNumber,
    Route,
    Locality,
    AdministrativeAreaLevel1,
    PostalCode,
    Country,
    /// Any other kind.
    Other,
}

/// One address component of a Google Maps reply.
#[derive(Debug, Clone)]
pub struct AddressComponent {
    pub long_name: String,
    pub short_name: String,
    pub kinds: Vec<PlaceKind>,
}

/// The address field a component fills.
#[derive(Debug, Clone, Copy, PartialEq, Eq, Structural)]
pub enum AddressField {
    StreetNumber,
    Route,
    City,
    State,
    ZipCode,
    Country,
}

/// The field a component with these kinds fills: the first of street number, route,
/// locality, first-level administrative area, postal code and country that it has.
pub open spec fn field_of(kinds: Seq<PlaceKind>) -> Option<AddressField> {
    if kinds.contains(PlaceKind::StreetNumber) {
        Some(AddressField::StreetNumber)
    } else if kinds.contains(PlaceKind::Route) {
        Some(AddressField::Route)
    } else if kinds.contains(PlaceKind::Locality) {
        Some(AddressField::City)
    } else if kinds.contains(PlaceKind::AdministrativeAreaLevel1) {
        Some(AddressField::State)
    } else if kinds.contains(PlaceKind::PostalCode) {
        Some(AddressField::ZipCode)
    } else if kinds.contains(PlaceKind::Country) {
        Some(AddressField::Country)
    } else {
        None
    }
}

/// The text a component gives its field: the short name for the state, the long name
/// otherwise.
pub open spec fn component_text(c: AddressComponent, field: AddressField) -> Seq<char> {
    if field == AddressField::State {
        c.short_name@
    } else {
        c.long_name@
    }
}

/// The value of a field: the text of the last component that fills it.
pub open spec fn field_value(comps: Seq<AddressComponent>, field: AddressField) -> Option<
    Seq<char>,
>
    decreases comps.len(),
{
    if comps.len() == 0 {
        None
    } else if field_of(comps.last().kinds@) == Some(field) {
        Some(component_text(comps.last(), field))
    } else {
        field_value(comps.drop_last(), field)
    }
}

/// The street line: number and route separated by a space, or whichever one is known.
pub open spec fn street_line(number: Option<Seq<char>>, route: Option<Seq<char>>) -> Option<
    Seq<char>,
> {
    match number {
        Some(n) => match route {
            Some(r) => Some(n + " "@ + r),
            None => Some(n),
        },
        None => route,
    }
}

fn has_kind(kinds: &Vec<PlaceKind>, k: PlaceKind) -> (r: bool)
    ensures
        r == kinds@.contains(k),
{
    let mut i: usize = 0;
    while i < kinds.len()
        invariant
            i <= kinds@.len(),
            forall|j: int| 0 <= j < i ==> kinds@[j] != k,
        decreases kinds@.len() - i,
    {
        if kinds[i] == k {
            assert(kinds@[i as int] == k);
            return true;
        }
        i = i + 1;
    }
    false
}

fn field_of_exec(kinds: &Vec<PlaceKind>) -> (r: Option<AddressField>)
    ensures
        r == field_of(kinds@),
{
    if has_kind(kinds, PlaceKind::StreetNumber) {
        Some(AddressField::StreetNumber)
    } else if has_kind(kinds, PlaceKind::Route) {
        Some(AddressField::Route)
    } else if has_kind(kinds, PlaceKind::Locality) {
        Some(AddressField::City)
    } else if has_kind(kinds, PlaceKind::AdministrativeAreaLevel1) {
        Some(AddressField::State)
    } else if has_kind(kinds, PlaceKind::PostalCode) {
        Some(AddressField::ZipCode)
    } else if has_kind(kinds, PlaceKind::Country) {
        Some(AddressField::Country)
    } else {
        None
    }
}


/// The address fields of the first Google Maps result: each field takes the text of the
/// last component that fills it; the street line joins number and route; the display
/// name is the formatted address.
pub fn reverse_result_from_components(
    formatted_address: String,
    components: &Vec<AddressComponent>,
) -> (r: ReverseGeocodeResult)
    ensures
        r.display_name@ == formatted_address@,
        opt_chars(r.street1) == street_line(
            field_value(components@, AddressField::StreetNumber),
            field_value(components@, AddressField::Route),
        ),
        opt_chars(r.city) == field_value(components@, AddressField::City),
        opt_chars(r.state) == field_value(components@, AddressField::State),
        opt_chars(r.zip_code) == field_value(components@, AddressField::ZipCode),
        opt_chars(r.country) == field_value(components@, AddressField::Country),
{
    let mut number: Option<String> = None;
    let mut route: Option<String> = None;
    let mut city: Option<String> = None;
    let mut state: Option<String> = None;
    let mut zip_code: Option<String> = None;
    let mut country: Option<String> = None;
    let mut i: usize = 0;
    while i < components.len()
        invariant
            i <= components@.len(),
            opt_chars(number) == field_value(
                components@.subrange(0, i as int),
                AddressField::StreetNumber,
            ),
            opt_chars(route) == field_value(components@.subrange(0, i as int), AddressField::Route),
            opt_chars(city) == field_value(components@.subrange(0, i as int), AddressField::City),
            opt_chars(state) == field_value(components@.subrange(0, i as int), AddressField::State),
            opt_chars(zip_code) == field_value(
                components@.subrange(0, i as int),
                AddressField::ZipCode,
            ),
            opt_chars(country) == field_value(
                components@.subrange(0, i as int),
                AddressField::Country,
            ),
        decreases components@.len() - i,
    {
        let c = &components[i];
        let ghost prefix = components@.subrange(0, i as int + 1);
        assert(prefix.drop_last() =~= components@.subrange(0, i as int));
        assert(prefix.last() == components@[i as int]);
        match field_of_exec(&c.kinds) {
            Some(AddressField::StreetNumber) => {
                number = Some(c.long_name.clone());
            },
            Some(AddressField::Route) => {
                route = Some(c.long_name.clone());
            },
            Some(AddressField::City) => {
                city = Some(c.long_name.clone());
            },
            Some(AddressField::State) => {
                state = Some(c.short_name.clone());
            },
            Some(AddressField::ZipCode) => {
                zip_code = Some(c.long_name.clone());
            },
            Some(AddressField::Country) => {
                country = Some(c.long_name.clone());
            },
            None => {},
        }
        i = i + 1;
    }
    assert(components@.subrange(0, components@.len() as int) =~= components@);
    let street1 = match number {
        Some(n) => match route {
            Some(rd) => {
                let mut s = n;
                s.append(" ");
                s.append(rd.as_str());
                Some(s)
            },
            None => Some(n),
        },
        None => route,
    };
    proof {
        reveal_strlit(" ");
    }
    ReverseGeocodeResult {
        street1,
        city,
        state,
        zip_code,
        country,
        display_name: formatted_address,
    }
}

/// What to do next while working down the list of services in priority order.
#[derive(Debug, Clone, Copy, PartialEq, Eq, Structural)]
pub enum FallbackAction {
    /// Ask the service at this position.
    Try(usize),
    /// The service at this position answered; use its answer.
    Answered(usize),
    /// Every service failed.
    Exhausted,
}

/// Progress through a list of services tried in priority order until one answers.
#[derive(Debug, Clone, Copy, PartialEq, Eq, Structural)]
pub struct FallbackChain {
    /// How many services there are.
    pub service_count: usize,
    /// The position of the service being asked (or, when all failed, the count).
    pub current: usize,
}

impl FallbackChain {
    /// The chain before any service has been asked.
    pub open spec fn new_spec(service_count: usize) -> Self {
        FallbackChain { service_count, current: 0 }
    }

    /// The chain before any service has been asked.
    pub fn new(service_count: usize) -> (r: Self)
        ensures
            r == Self::new_spec(service_count),
    {
        FallbackChain { service_count, current: 0 }
    }

    /// The first action: ask the first service, or give up when there is none.
    pub fn first_action(&self) -> (a: FallbackAction)
        ensures
            self.current < self.service_count ==> a == FallbackAction::Try(self.current),
            self.current >= self.service_count ==> a == FallbackAction::Exhausted,
    {
        if self.current < self.service_count {
            FallbackAction::Try(self.current)
        } else {
            FallbackAction::Exhausted
        }
    }

    /// Record whether the service being asked answered, and say what to do next: use the
    /// answer, ask the next service, or give up after the last one failed.
    pub fn record(&mut self, answered: bool) -> (a: FallbackAction)
        requires
            old(self).current < old(self).service_count,
        ensures
            (*final(self), a) == record_spec(*old(self), answered),
    {
        if answered {
            FallbackAction::Answered(self.current)
        } else {
            self.current = self.current + 1;
            if self.current < self.service_count {
                FallbackAction::Try(self.current)
            } else {
                FallbackAction::Exhausted
            }
        }
    }
}

/// What recording an answer does to the chain: an answer ends it at the service asked; a
/// failure moves on to the next service, or gives up after the last one.
pub open spec fn record_spec(c: FallbackChain, answered: bool) -> (FallbackChain, FallbackAction) {
    if answered {
        (c, FallbackAction::Answered(c.current))
    } else {
        let next = FallbackChain { current: (c.current + 1) as usize, ..c };
        (next, if c.current + 1 < c.service_count {
            FallbackAction::Try((c.current + 1) as usize)
        } else {
            FallbackAction::Exhausted
        })
    }
}

/// Running the chain from its current service, given whether each service would answer:
/// how it ends, and the positions of the services asked, in the order asked.
pub open spec fn chain_run(c: FallbackChain, answers: Seq<bool>) -> (FallbackAction, Seq<int>)
    decreases c.service_count - c.current,
{
    if c.current >= c.service_count {
        (FallbackAction::Exhausted, Seq::empty())
    } else if answers[c.current as int] {
        (FallbackAction::Answered(c.current), seq![c.current as int])
    } else if c.current + 1 < c.service_count {
        let rest = chain_run(FallbackChain { current: (c.current + 1) as usize, ..c }, answers);
        (rest.0, seq![c.current as int] + rest.1)
    } else {
        (FallbackAction::Exhausted, seq![c.current as int])
    }
}

/// Running the chain agrees with recording one answer after another.
pub proof fn lemma_chain_run_steps(c: FallbackChain, answers: Seq<bool>)
    requires
        c.current < c.service_count,
    ensures
        ({
            let (next, a) = record_spec(c, answers[c.current as int]);
            match a {
                FallbackAction::Try(_) => chain_run(c, answers) == (
                    chain_run(next, answers).0,
                    seq![c.current as int] + chain_run(next, answers).1,
                ),
                _ => chain_run(c, answers) == (a, seq![c.current as int]),
            }
        }),
{
}

proof fn lemma_chain_run_from<R, E>(outcomes: Seq<Result<R, E>>, answers: Seq<bool>, k: usize)
    requires
        0 < outcomes.len() <= usize::MAX,
        answers.len() == outcomes.len(),
        forall|j: int| 0 <= j < answers.len() ==> answers[j] == (outcomes[j] is Ok),
        k < outcomes.len(),
    ensures
        ({
            let c = FallbackChain { service_count: outcomes.len() as usize, current: k };
            let run = chain_run(c, answers);
            &&& run.1 == Seq::new(run.1.len(), |j: int| j + k)
            &&& run.0 is Answered || run.0 is Exhausted
            &&& run.0 matches FallbackAction::Answered(i) ==> (k <= i < outcomes.len()
                && run.1.len() == i - k + 1 && outcomes[i as int] is Ok && forall|j: int|
                k <= j < i ==> outcomes[j] is Err)
            &&& run.0 is Exhausted ==> (run.1.len() == outcomes.len() - k && forall|j: int|
                k <= j < outcomes.len() ==> outcomes[j] is Err)
        }),
    decreases outcomes.len() - k,
{
    let c = FallbackChain { service_count: outcomes.len() as usize, current: k };
    let run = chain_run(c, answers);
    if answers[k as int] {
        assert(run.1 =~= Seq::new(run.1.len(), |j: int| j + k));
    } else if k + 1 < outcomes.len() {
        let k1 = (k + 1) as usize;
        lemma_chain_run_from(outcomes, answers, k1);
        let c1 = FallbackChain { service_count: outcomes.len() as usize, current: k1 };
        assert(FallbackChain { current: (c.current + 1) as usize, ..c } == c1);
        let rest = chain_run(c1, answers);
        assert(run.1 =~= Seq::new(run.1.len(), |j: int| j + k)) by {
            assert(run.1 == seq![k as int] + rest.1);
            assert forall|j: int| 0 <= j < run.1.len() implies run.1[j] == j + k by {
                if j > 0 {
                    assert(run.1[j] == rest.1[j - 1]);
                }
            }
        }
    } else {
        assert(run.1 =~= Seq::new(run.1.len(), |j: int| j + k));
    }
}

/// Law: the services are asked in priority order, starting with the first, until one
/// answers; that answer is used and no later service is asked. When every service fails,
/// each is asked once and the last one asked is the last service, whose error is the one
/// given back.
pub proof fn lemma_fallback_tries_in_order<R, E>(outcomes: Seq<Result<R, E>>)
    requires
        0 < outcomes.len() <= usize::MAX,
    ensures
        ({
            let answers = Seq::new(outcomes.len(), |j: int| outcomes[j] is Ok);
            let run = chain_run(FallbackChain::new_spec(outcomes.len() as usize), answers);
            &&& run.1 == Seq::new(run.1.len(), |j: int| j)
            &&& run.0 matches FallbackAction::Answered(i) ==> (run.1.len() == i + 1
                && outcomes[i as int] is Ok && forall|j: int| 0 <= j < i ==> outcomes[j] is Err)
            &&& run.0 is Exhausted ==> (run.1.len() == outcomes.len() && run.1.last()
                == outcomes.len() - 1 && forall|j: int| 0 <= j < outcomes.len() ==> outcomes[j] is Err)
            &&& (exists|j: int| 0 <= j < outcomes.len() && outcomes[j] is Ok) ==> run.0 is Answered
            &&& (forall|j: int| 0 <= j < outcomes.len() ==> outcomes[j] is Err) ==> run.0 is Exhausted
        }),
{
    let answers = Seq::new(outcomes.len(), |j: int| outcomes[j] is Ok);
    lemma_chain_run_from(outcomes, answers, 0);
    let run = chain_run(FallbackChain::new_spec(outcomes.len() as usize), answers);
    assert(run.1 =~= Seq::new(run.1.len(), |j: int| j));
    if exists|j: int| 0 <= j < outcomes.len() && outcomes[j] is Ok {
        let j = choose|j: int| 0 <= j < outcomes.len() && outcomes[j] is Ok;
        assert(!(run.0 is Exhausted));
    }
}


/// The street line of services that give a house number and a street: both separated by
/// a space, else the street alone (a house number without street gives none).
pub open spec fn house_and_street(house: Option<Seq<char>>, street: Option<Seq<char>>) -> Option<
    Seq<char>,
> {
    match house {
        Some(h) => match street {
            Some(st) => Some(h + " "@ + st),
            None => None,
        },
        None => street,
    }
}

/// The first of two optional values that is present.
pub open spec fn or_else(a: Option<Seq<char>>, b: Option<Seq<char>>) -> Option<Seq<char>> {
    match a {
        Some(x) => Some(x),
        None => b,
    }
}

/// The present values among three, in order.
pub open spec fn present3(a: Option<Seq<char>>, b: Option<Seq<char>>, c: Option<Seq<char>>) -> Seq<
    Seq<char>,
> {
    (match a {
        Some(x) => seq![x],
        None => Seq::empty(),
    }) + (match b {
        Some(x) => seq![x],
        None => Seq::empty(),
    }) + (match c {
        Some(x) => seq![x],
        None => Seq::empty(),
    })
}


fn house_and_street_exec(house: &Option<String>, street: &Option<String>) -> (r: Option<String>)
    ensures
        opt_chars(r) == house_and_street(opt_chars(*house), opt_chars(*street)),
{
    proof {
        reveal_strlit(" ");
    }
    match house {
        Some(h) => match street {
            Some(st) => {
                let mut s = h.clone();
                s.append(" ");
                s.append(st.as_str());
                Some(s)
            },
            None => None,
        },
        None => clone_opt_string(street),
    }
}

fn or_else_exec(a: &Option<String>, b: &Option<String>) -> (r: Option<String>)
    ensures
        opt_chars(r) == or_else(opt_chars(*a), opt_chars(*b)),
{
    match a {
        Some(x) => Some(x.clone()),
        None => clone_opt_string(b),
    }
}

fn push_present(parts: &mut Vec<String>, o: &Option<String>)
    ensures
        views(final(parts)@) == views(old(parts)@) + (match opt_chars(*o) {
            Some(x) => seq![x],
            None => Seq::<Seq<char>>::empty(),
        }),
{
    match o {
        Some(x) => {
            parts.push(x.clone());
        },
        None => {},
    }
    assert(views(parts@) =~= views(old(parts)@) + (match opt_chars(*o) {
        Some(x) => seq![x],
        None => Seq::<Seq<char>>::empty(),
    }));
}

/// The present values among three joined with ", ", or `fallback` when none is present.
fn join_present3(
    a: &Option<String>,
    b: &Option<String>,
    c: &Option<String>,
    fallback: String,
) -> (r: String)
    ensures
        present3(opt_chars(*a), opt_chars(*b), opt_chars(*c)).len() == 0 ==> r@ == fallback@,
        present3(opt_chars(*a), opt_chars(*b), opt_chars(*c)).len() > 0 ==> r@ == join_parts(
            present3(opt_chars(*a), opt_chars(*b), opt_chars(*c)),
        ),
{
    let mut parts: Vec<String> = Vec::new();
    push_present(&mut parts, a);
    push_present(&mut parts, b);
    push_present(&mut parts, c);
    assert(views(parts@) =~= present3(opt_chars(*a), opt_chars(*b), opt_chars(*c)));
    if parts.len() == 0 {
        fallback
    } else {
        join(&parts)
    }
}

/// The address part of a Nominatim reverse geocoding answer.
#[derive(Debug, Clone)]
pub struct NominatimAddress {
    pub house_number: Option<String>,
    pub road: Option<String>,
    pub suburb: Option<String>,
    pub city: Option<String>,
    pub town: Option<String>,
    pub village: Option<String>,
    pub state: Option<String>,
    pub postcode: Option<String>,
    pub country: Option<String>,
}

/// A Nominatim answer read into address fields: house number and road as the street
/// line, the city, else the town, else the village, else the suburb as city, and state,
/// postcode and country as given.
pub fn nominatim_reverse_result(display_name: String, address: &NominatimAddress) -> (r:
    ReverseGeocodeResult)
    ensures
        r.display_name@ == display_name@,
        opt_chars(r.street1) == house_and_street(
            opt_chars(address.house_number),
            opt_chars(address.road),
        ),
        opt_chars(r.city) == or_else(
            opt_chars(address.city),
            or_else(
                opt_chars(address.town),
                or_else(opt_chars(address.village), opt_chars(address.suburb)),
            ),
        ),
        r.state == address.state,
        r.zip_code == address.postcode,
        r.country == address.country,
{
    let village_or_suburb = or_else_exec(&address.village, &address.suburb);
    let town_or_later = or_else_exec(&address.town, &village_or_suburb);
    ReverseGeocodeResult {
        street1: house_and_street_exec(&address.house_number, &address.road),
        city: or_else_exec(&address.city, &town_or_later),
        state: clone_opt_string(&address.state),
        zip_code: clone_opt_string(&address.postcode),
        country: clone_opt_string(&address.country),
        display_name,
    }
}

/// The properties of the first feature of a Pelias reverse geocoding answer.
#[derive(Debug, Clone)]
pub struct PeliasProperties {
    pub label: Option<String>,
    pub locality: Option<String>,
    pub region: Option<String>,
    pub region_a: Option<String>,
    pub country: Option<String>,
    pub country_a: Option<String>,
}

/// A Pelias answer read into address fields (city level, so no street or zip): the
/// locality as city, the region's abbreviation else its name as state, the country's
/// abbreviation else its name as country; the label as display name, else city, state
/// and country joined with ", ", else `coordinates` (the point as text).
pub fn pelias_reverse_result(props: &PeliasProperties, coordinates: String) -> (r:
    ReverseGeocodeResult)
    ensures
        r.street1 is None,
        r.zip_code is None,
        r.city == props.locality,
        opt_chars(r.state) == or_else(opt_chars(props.region_a), opt_chars(props.region)),
        opt_chars(r.country) == or_else(opt_chars(props.country_a), opt_chars(props.country)),
        match props.label {
            Some(l) => r.display_name@ == l@,
            None => {
                let parts = present3(
                    opt_chars(props.locality),
                    or_else(opt_chars(props.region_a), opt_chars(props.region)),
                    or_else(opt_chars(props.country_a), opt_chars(props.country)),
                );
                &&& parts.len() == 0 ==> r.display_name@ == coordinates@
                &&& parts.len() > 0 ==> r.display_name@ == join_parts(parts)
            },
        },
{
    let state = or_else_exec(&props.region_a, &props.region);
    let country = or_else_exec(&props.country_a, &props.country);
    let display_name = match &props.label {
        Some(l) => l.clone(),
        None => join_present3(&props.locality, &state, &country, coordinates),
    };
    ReverseGeocodeResult {
        street1: None,
        city: clone_opt_string(&props.locality),
        state,
        zip_code: None,
        country,
        display_name,
    }
}

/// The properties of the first feature of a Photon answer.
#[derive(Debug, Clone)]
pub struct PhotonProperties {
    pub name: Option<String>,
    pub street: Option<String>,
    pub housenumber: Option<String>,
    pub postcode: Option<String>,
    pub city: Option<String>,
    pub state: Option<String>,
    pub countrycode: Option<String>,
}

/// A Photon answer read into address fields: house number and street as the street line,
/// city, state, postcode and country code as given; as display name city, state and
/// country code joined with ", ", else the feature's name, else `coordinates`.
pub fn photon_reverse_result(props: &PhotonProperties, coordinates: String) -> (r:
    ReverseGeocodeResult)
    ensures
        opt_chars(r.street1) == house_and_street(opt_chars(props.housenumber), opt_chars(props.street)),
        r.city == props.city,
        r.state == props.state,
        r.zip_code == props.postcode,
        r.country == props.countrycode,
        ({
            let parts = present3(
                opt_chars(props.city),
                opt_chars(props.state),
                opt_chars(props.countrycode),
            );
            &&& parts.len() > 0 ==> r.display_name@ == join_parts(parts)
            &&& parts.len() == 0 ==> r.display_name@ == match props.name {
                Some(n) => n@,
                None => coordinates@,
            }
        }),
{
    let fallback = match &props.name {
        Some(n) => n.clone(),
        None => coordinates,
    };
    let display_name = join_present3(&props.city, &props.state, &props.countrycode, fallback);
    ReverseGeocodeResult {
        street1: house_and_street_exec(&props.housenumber, &props.street),
        city: clone_opt_string(&props.city),
        state: clone_opt_string(&props.state),
        zip_code: clone_opt_string(&props.postcode),
        country: clone_opt_string(&props.countrycode),
        display_name,
    }
}


/// The wait before retrying after failed attempt number `attempt` (from 0) out of
/// `max_retries` retries: 1000 ms doubled for each earlier attempt; none after the last
/// attempt, when the error is given up.
pub fn retry_delay_ms(attempt: u32, max_retries: u32) -> (r: Option<u64>)
    requires
        attempt < max_retries ==> 1000 * vstd::arithmetic::power::pow(2, attempt as nat)
            <= u64::MAX,
    ensures
        attempt < max_retries ==> r == Some(
            (1000 * vstd::arithmetic::power::pow(2, attempt as nat)) as u64,
        ),
        attempt >= max_retries ==> r is None,
{
    if attempt >= max_retries {
        return None;
    }
    let mut delay: u64 = 1000;
    let mut i: u32 = 0;
    proof {
        vstd::arithmetic::power::lemma_pow0(2);
    }
    while i < attempt
        invariant
            i <= attempt,
            1000 * vstd::arithmetic::power::pow(2, attempt as nat) <= u64::MAX,
            delay == 1000 * vstd::arithmetic::power::pow(2, i as nat),
        decreases attempt - i,
    {
        proof {
            vstd::arithmetic::power::lemma_pow_adds(2, i as nat, 1);
            vstd::arithmetic::power::lemma_pow1(2);
            vstd::arithmetic::power::lemma_pow_increases(2, (i + 1) as nat, attempt as nat);
        }
        delay = delay * 2;
        i = i + 1;
    }
    Some(delay)
}

} // verus!

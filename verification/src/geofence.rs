//! Geofences: "upside-down birthday cake" boundaries with stacked altitude layers, each
//! with its own radius around the center.
//!
//! Coordinates are micro-degrees, radii micro-nautical-miles, lengths micrometers;
//! identifiers `u128` and instants microseconds since the epoch.

use vstd::prelude::*;

use crate::text::{decimal, to_decimal};

verus! {

/// Micrometers in a micro-nautical-mile (1 nm = 1852 m).
pub const MICROMETERS_PER_MICRO_NM: i128 = 1852;

/// A single altitude layer with its radius (altitudes in feet MSL).
#[derive(Clone, Copy, Debug, PartialEq, Eq, Structural)]
pub struct GeofenceLayer {
    /// Floor altitude in feet MSL
    pub floor_ft: i32,
    /// Ceiling altitude in feet MSL
    pub ceiling_ft: i32,
    /// Radius from center in micro-nautical-miles
    pub radius_unm: i64,
}

impl GeofenceLayer {
    /// Create a new layer
    pub fn new(floor_ft: i32, ceiling_ft: i32, radius_unm: i64) -> (r: Self)
        ensures
            r == (GeofenceLayer { floor_ft, ceiling_ft, radius_unm }),
    {
        GeofenceLayer { floor_ft, ceiling_ft, radius_unm }
    }

    /// Check if an altitude (MSL feet) is within this layer's altitude range (both ends included)
    pub fn contains_altitude(&self, altitude_ft: i32) -> (r: bool)
        ensures
            r == (self.floor_ft <= altitude_ft <= self.ceiling_ft),
    {
        altitude_ft >= self.floor_ft && altitude_ft <= self.ceiling_ft
    }

    /// The radius in micrometers
    pub fn radius_micrometers(&self) -> (r: i128)
        ensures
            r == self.radius_unm * 1852,
    {
        self.radius_unm as i128 * MICROMETERS_PER_MICRO_NM
    }
}

/// Geofence data
pub struct Geofence {
    pub id: u128,
    pub name: String,
    pub description: Option<String>,
    pub center_latitude_udeg: i64,
    pub center_longitude_udeg: i64,
    /// Largest layer radius, in micrometers.
    pub max_radius_micrometers: i128,
    pub layers: Vec<GeofenceLayer>,
    pub owner_user_id: u128,
    pub club_id: Option<u128>,
    pub created_at_us: i64,
    pub updated_at_us: i64,
}

/// Request to create a new geofence
pub struct CreateGeofenceRequest {
    pub name: String,
    pub description: Option<String>,
    pub center_latitude_udeg: i64,
    pub center_longitude_udeg: i64,
    pub layers: Vec<GeofenceLayer>,
    pub club_id: Option<u128>,
}

/// Request to update a geofence
pub struct UpdateGeofenceRequest {
    pub name: Option<String>,
    pub description: Option<String>,
    pub center_latitude_udeg: Option<i64>,
    pub center_longitude_udeg: Option<i64>,
    pub layers: Option<Vec<GeofenceLayer>>,
}

/// Length of a name in bytes (UTF-8), as `str::len` reports it.
pub open spec fn byte_len(s: Seq<char>) -> usize {
    vstd::utf8::encode_utf8(s).len() as usize
}

/// Message for the first invalid layer at or after index `i` (numbered from 1).
pub open spec fn layer_error(layers: Seq<GeofenceLayer>, i: int) -> Option<Seq<char>>
    decreases layers.len() - i,
{
    if i < 0 || i >= layers.len() {
        None
    } else if layers[i].ceiling_ft <= layers[i].floor_ft {
        Some("Layer "@ + decimal((i + 1) as nat) + ": ceiling must be greater than floor"@)
    } else if layers[i].radius_unm <= 0 {
        Some("Layer "@ + decimal((i + 1) as nat) + ": radius must be positive"@)
    } else {
        layer_error(layers, i + 1)
    }
}

/// The latitude is within -90..=90 degrees.
pub open spec fn latitude_ok(udeg: int) -> bool {
    -90_000_000 <= udeg <= 90_000_000
}

/// The longitude is within -180..=180 degrees.
pub open spec fn longitude_ok(udeg: int) -> bool {
    -180_000_000 <= udeg <= 180_000_000
}

/// Outcome of validating a creation request.
pub open spec fn create_validation(r: CreateGeofenceRequest) -> Result<(), Seq<char>> {
    if r.name@.len() == 0 {
        Err("Name is required"@)
    } else if byte_len(r.name@) > 255 {
        Err("Name must be 255 characters or less"@)
    } else if r.layers@.len() == 0 {
        Err("At least one layer is required"@)
    } else if layer_error(r.layers@, 0) is Some {
        Err(layer_error(r.layers@, 0).unwrap())
    } else if !latitude_ok(r.center_latitude_udeg as int) {
        Err("Latitude must be between -90 and 90"@)
    } else if !longitude_ok(r.center_longitude_udeg as int) {
        Err("Longitude must be between -180 and 180"@)
    } else {
        Ok(())
    }
}

/// Outcome of validating an update request.
pub open spec fn update_validation(r: UpdateGeofenceRequest) -> Result<(), Seq<char>> {
    if r.name matches Some(n) && n@.len() == 0 {
        Err("Name cannot be empty"@)
    } else if r.name matches Some(n) && byte_len(n@) > 255 {
        Err("Name must be 255 characters or less"@)
    } else if r.layers matches Some(l) && l@.len() == 0 {
        Err("At least one layer is required"@)
    } else if r.layers matches Some(l) && layer_error(l@, 0) is Some {
        Err(layer_error(r.layers.unwrap()@, 0).unwrap())
    } else if r.center_latitude_udeg matches Some(lat) && !latitude_ok(lat as int) {
        Err("Latitude must be between -90 and 90"@)
    } else if r.center_longitude_udeg matches Some(lon) && !longitude_ok(lon as int) {
        Err("Longitude must be between -180 and 180"@)
    } else {
        Ok(())
    }
}

/// A layer is well formed: its ceiling is above its floor and its radius is positive.
pub open spec fn layer_ok(l: GeofenceLayer) -> bool {
    l.floor_ft < l.ceiling_ft && l.radius_unm > 0
}

proof fn lemma_layer_error_finds_bad_layers(layers: Seq<GeofenceLayer>, i: int)
    requires
        0 <= i,
    ensures
        layer_error(layers, i) is None <==> forall|k: int| i <= k < layers.len() ==> layer_ok(
            #[trigger] layers[k],
        ),
    decreases layers.len() - i,
{
    if i < layers.len() {
        lemma_layer_error_finds_bad_layers(layers, i + 1);
        if !layer_ok(layers[i]) {
            assert(!(forall|k: int| i <= k < layers.len() ==> layer_ok(#[trigger] layers[k])));
        }
    }
}

/// Law: a geofence request is refused whenever any of its layers has its ceiling at or
/// below its floor or a radius that is not positive; and a request that is accepted has
/// at least one layer (when it carries layers), only well-formed layers, and its center
/// (when given) within -90..=90 degrees of latitude and -180..=180 of longitude.
pub proof fn lemma_geofence_validation(c: CreateGeofenceRequest, u: UpdateGeofenceRequest)
    ensures
        (exists|k: int| 0 <= k < c.layers@.len() && !layer_ok(#[trigger] c.layers@[k]))
            ==> create_validation(c) is Err,
        (u.layers matches Some(l) && exists|k: int| 0 <= k < l@.len() && !layer_ok(
            #[trigger] l@[k],
        )) ==> update_validation(u) is Err,
        create_validation(c) is Ok ==> c.name@.len() > 0 && c.layers@.len() > 0 && (forall|k: int|
            0 <= k < c.layers@.len() ==> layer_ok(#[trigger] c.layers@[k])) && latitude_ok(
            c.center_latitude_udeg as int,
        ) && longitude_ok(c.center_longitude_udeg as int),
        update_validation(u) is Ok ==> (u.layers matches Some(l) ==> (l@.len() > 0 && forall|k: int|
            0 <= k < l@.len() ==> layer_ok(#[trigger] l@[k]))),
        update_validation(u) is Ok ==> (u.center_latitude_udeg matches Some(lat) ==> latitude_ok(
            lat as int,
        )),
        update_validation(u) is Ok ==> (u.center_longitude_udeg matches Some(lon) ==> longitude_ok(
            lon as int,
        )),
        update_validation(u) is Ok ==> (u.name matches Some(n) ==> n@.len() > 0),
{
    lemma_layer_error_finds_bad_layers(c.layers@, 0);
    if let Some(l) = u.layers {
        lemma_layer_error_finds_bad_layers(l@, 0);
    }
}

/// The view of a validation result.
pub open spec fn result_view(r: Result<(), String>) -> Result<(), Seq<char>> {
    match r {
        Ok(()) => Ok(()),
        Err(s) => Err(s@),
    }
}

/// Largest radius of the layers (micrometers), at least zero.
pub open spec fn max_radius_from(layers: Seq<GeofenceLayer>, i: int) -> int
    decreases layers.len() - i,
{
    if i < 0 || i >= layers.len() {
        0
    } else {
        let rest = max_radius_from(layers, i + 1);
        let r = layers[i].radius_unm * 1852;
        if r > rest {
            r
        } else {
            rest
        }
    }
}

fn layer_message(index: usize, what: &str) -> (r: String)
    requires
        index < usize::MAX,
    ensures
        r@ == "Layer "@ + decimal((index + 1) as nat) + what@,
{
    let mut m = String::from_str("Layer ");
    m.append(to_decimal((index + 1) as u64).as_str());
    m.append(what);
    m
}

/// The first invalid layer's message, if any.
fn check_layers(layers: &Vec<GeofenceLayer>) -> (r: Option<String>)
    ensures
        match r {
            Some(m) => layer_error(layers@, 0) == Some(m@),
            None => layer_error(layers@, 0) is None,
        },
{
    let mut i: usize = 0;
    while i < layers.len()
        invariant
            i <= layers@.len(),
            layer_error(layers@, 0) == layer_error(layers@, i as int),
        decreases layers@.len() - i,
    {
        let layer = layers[i];
        if layer.ceiling_ft <= layer.floor_ft {
            return Some(layer_message(i, ": ceiling must be greater than floor"));
        }
        if layer.radius_unm <= 0 {
            return Some(layer_message(i, ": radius must be positive"));
        }
        i = i + 1;
    }
    None
}

fn max_radius(layers: &Vec<GeofenceLayer>) -> (r: i128)
    ensures
        r == max_radius_from(layers@, 0),
{
    let mut best: i128 = 0;
    let mut i: usize = layers.len();
    while i > 0
        invariant
            i <= layers@.len(),
            best == max_radius_from(layers@, i as int),
        decreases i,
    {
        i = i - 1;
        let r = layers[i].radius_micrometers();
        if r > best {
            best = r;
        }
    }
    best
}

impl CreateGeofenceRequest {
    /// Validate the request: a name of 1 to 255 bytes, at least one layer, each with its
    /// ceiling above its floor and a positive radius, and a center within range.
    pub fn validate(&self) -> (r: Result<(), String>)
        ensures
            result_view(r) == create_validation(*self),
    {
        if self.name.as_str().unicode_len() == 0 {
            return Err(String::from_str("Name is required"));
        }
        if self.name.as_str().len() > 255 {
            return Err(String::from_str("Name must be 255 characters or less"));
        }
        if self.layers.len() == 0 {
            return Err(String::from_str("At least one layer is required"));
        }
        if let Some(m) = check_layers(&self.layers) {
            return Err(m);
        }
        if self.center_latitude_udeg < -90_000_000 || self.center_latitude_udeg > 90_000_000 {
            return Err(String::from_str("Latitude must be between -90 and 90"));
        }
        if self.center_longitude_udeg < -180_000_000 || self.center_longitude_udeg > 180_000_000 {
            return Err(String::from_str("Longitude must be between -180 and 180"));
        }
        Ok(())
    }

    /// The maximum radius across all layers (in micrometers), zero without layers
    pub fn max_radius_meters(&self) -> (r: i128)
        ensures
            r == max_radius_from(self.layers@, 0),
    {
        max_radius(&self.layers)
    }
}

impl UpdateGeofenceRequest {
    /// Validate the request: the same rules as for creation, for the fields present.
    pub fn validate(&self) -> (r: Result<(), String>)
        ensures
            result_view(r) == update_validation(*self),
    {
        if let Some(name) = &self.name {
            if name.as_str().unicode_len() == 0 {
                return Err(String::from_str("Name cannot be empty"));
            }
            if name.as_str().len() > 255 {
                return Err(String::from_str("Name must be 255 characters or less"));
            }
        }
        if let Some(layers) = &self.layers {
            if layers.len() == 0 {
                return Err(String::from_str("At least one layer is required"));
            }
            if let Some(m) = check_layers(layers) {
                return Err(m);
            }
        }
        if let Some(lat) = self.center_latitude_udeg {
            if lat < -90_000_000 || lat > 90_000_000 {
                return Err(String::from_str("Latitude must be between -90 and 90"));
            }
        }
        if let Some(lon) = self.center_longitude_udeg {
            if lon < -180_000_000 || lon > 180_000_000 {
                return Err(String::from_str("Longitude must be between -180 and 180"));
            }
        }
        Ok(())
    }

    /// The maximum radius across all layers (in micrometers), when layers are given
    pub fn max_radius_meters(&self) -> (r: Option<i128>)
        ensures
            match self.layers {
                Some(l) => r == Some(max_radius_from(l@, 0) as i128),
                None => r is None,
            },
    {
        match &self.layers {
            Some(l) => Some(max_radius(l)),
            None => None,
        }
    }
}

/// Geofence subscriber entry
pub struct GeofenceSubscriber {
    pub geofence_id: u128,
    pub user_id: u128,
    pub send_email: bool,
    pub created_at_us: i64,
    pub updated_at_us: i64,
}

/// Request to subscribe to a geofence
pub struct SubscribeToGeofenceRequest {
    /// Whether to send e-mails (true when not given).
    pub send_email: bool,
}

/// Default for `send_email` when a subscription request leaves it out.
pub fn default_true() -> (r: bool)
    ensures
        r,
{
    true
}

impl SubscribeToGeofenceRequest {
    /// A request that leaves `send_email` out.
    pub fn with_defaults() -> (r: Self)
        ensures
            r.send_email,
    {
        SubscribeToGeofenceRequest { send_email: default_true() }
    }
}

/// Aircraft-geofence link
pub struct AircraftGeofence {
    pub aircraft_id: u128,
    pub geofence_id: u128,
    pub created_at_us: i64,
}

/// Request to link aircraft to geofence
pub struct LinkAircraftRequest {
    pub aircraft_id: u128,
}

/// Geofence exit event - recorded when an aircraft exits a geofence boundary
pub struct GeofenceExitEvent {
    pub id: u128,
    pub geofence_id: u128,
    pub flight_id: u128,
    pub aircraft_id: u128,
    pub exit_time_us: i64,
    pub exit_latitude_udeg: i64,
    pub exit_longitude_udeg: i64,
    pub exit_altitude_msl_ft: Option<i32>,
    pub exit_layer: GeofenceLayer,
    pub email_notifications_sent: i32,
    pub created_at_us: i64,
}

/// Geofence with linked aircraft count and subscriber count
pub struct GeofenceWithCounts {
    pub geofence: Geofence,
    pub aircraft_count: i64,
    pub subscriber_count: i64,
}

/// List response for geofences
pub struct GeofenceListResponse {
    pub geofences: Vec<GeofenceWithCounts>,
}

/// Detail response for a single geofence
pub struct GeofenceDetailResponse {
    pub geofence: Geofence,
    pub aircraft_count: i64,
    pub subscriber_count: i64,
}

/// Exit events response
pub struct GeofenceExitEventsResponse {
    pub events: Vec<GeofenceExitEvent>,
}

} // verus!

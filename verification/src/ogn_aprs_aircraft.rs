//! Aircraft types as announced in OGN/APRS beacons.

use vstd::prelude::*;

verus! {

/// Aircraft type from an OGN/APRS beacon.
#[derive(Clone, Copy, Debug, PartialEq, Eq, Structural)]
pub enum AircraftType {
    Reserved,
    Glider,
    TowTug,
    HelicopterGyro,
    SkydiverParachute,
    DropPlane,
    HangGlider,
    Paraglider,
    RecipEngine,
    JetTurboprop,
    Unknown,
    Balloon,
    Airship,
    Uav,
    StaticObstacle,
}

} // verus!

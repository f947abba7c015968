//! The aircraft as the flight logic reads it.

use vstd::prelude::*;

verus! {

/// Kind of address an aircraft is known by.
#[derive(Clone, Copy, Debug, PartialEq, Eq, Structural)]
pub enum AddressType {
    Icao,
    Flarm,
    Ogn,
    Unknown,
}

/// Category of aircraft.
#[derive(Clone, Copy, Debug, PartialEq, Eq, Structural)]
pub enum AircraftCategory {
    Glider,
    Landplane,
    TowTug,
    Helicopter,
    Balloon,
    Drone,
    Airship,
    SkydiverParachute,
    StaticObstacle,
    Other,
}

/// An aircraft.
pub struct Aircraft {
    /// Database identifier, when stored.
    pub id: Option<u128>,
    /// Primary address.
    pub address: u32,
    /// Kind of the primary address.
    pub address_type: AddressType,
    /// The address as shown (hexadecimal), when known.
    pub address_hex: Option<String>,
    /// The kind of address the aircraft is primarily known by.
    pub primary_type: AddressType,
    /// Model name.
    pub aircraft_model: String,
    /// Registration.
    pub registration: Option<String>,
    /// Pilot name.
    pub pilot_name: Option<String>,
    /// Owner or operator.
    pub owner_operator: Option<String>,
    /// Club the aircraft belongs to.
    pub club_id: Option<u128>,
    /// Category.
    pub aircraft_category: Option<AircraftCategory>,
}

impl Aircraft {
    /// The address as shown (hexadecimal), when known.
    pub fn aircraft_address_hex(&self) -> (r: Option<String>)
        ensures
            r == self.address_hex,
    {
        match &self.address_hex {
            Some(s) => Some(s.clone()),
            None => None,
        }
    }

    /// The kind of address the aircraft is primarily known by.
    pub fn primary_address_type(&self) -> (r: AddressType)
        ensures
            r == self.primary_type,
    {
        self.primary_type
    }
}

} // verus!

//! In-memory flight tracking: per-aircraft fix history and the decisions taken per fix.

pub mod aircraft_state;
pub mod aircraft_tracker;
pub mod flight_lifecycle;
pub mod geofence_detector;
pub mod runway;
pub mod state_transitions;
pub mod towing;

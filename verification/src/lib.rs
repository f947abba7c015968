//! Flight tracking logic: fix classification, flight state transitions, recent-fix
//! history, towing and runway decisions, geofences, IGC and KML export, geocoding
//! answers, live-fix subscriptions and configuration parsing.

pub mod aircraft;
pub mod environment;
pub mod fixes;
pub mod geocoding;
pub mod geofence;
pub mod ids;
pub mod igc;
pub mod time;
pub mod flight_tracker;
pub mod flights;
pub mod ingest_config;
pub mod live_fixes;
pub mod loader;
pub mod locations;
pub mod notifications;
pub mod log_format;
pub mod ogn_aprs_aircraft;
pub mod text;

pub use environment::{nats_client_name, queue_dir, socket_path};
pub use fixes::Fix;

//! Verified core of the GeoStorm alert service: normalisation of incoming
//! space-weather alerts, the decisions taken while an alert is processed,
//! and how each delivery is settled with the broker.

pub mod broker;
pub mod connection;
pub mod delivery;
pub mod email;
pub mod models;
pub mod processing;
pub mod text;

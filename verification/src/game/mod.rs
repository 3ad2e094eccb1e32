//! The shared game rules: energy cells, sunrays, rockets, resources,
//! planets and the messages they exchange.

pub mod sunray;
pub mod energy_cell;
pub mod rocket;
pub mod resource;
pub mod planet;
pub mod messages;
pub mod planet_core;
pub mod forge;
pub mod logging;
pub mod event_text;
pub mod type_a;

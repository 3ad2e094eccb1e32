//! The planets of this crate: Skycartel (type A, carbon only), Luna4
//! (type D, a lunar cycle) and Crabtorio (type B, water), with the shared
//! pieces they are built from.

pub mod cycle;
pub mod errors;
pub mod resources;
pub mod energy;
pub mod state;
pub mod skycartel;
pub mod luna4;
pub mod crabtorio;

//! Skycartel: the planets, explorers and orchestrator of a small space
//! simulation, with the rules that govern them stated and proved.

pub mod game;
pub mod text;
pub mod planet_ai;

use vstd::prelude::*;

use crate::game::planet::PlanetType;
use crate::game::planet_core::{Planet, PlanetStatus};
use crate::game::resource::{BasicResourceType, ComplexResourceType};
use crate::planet_ai::skycartel::RustyPlanet;
use crate::planet_ai::skycartel::ai::SkycartelPlanetAI;

verus! {

/// The Skycartel planet with id `id`: type A, five empty cells, carbon
/// generation only, stopped. Always succeeds.
pub fn create_planet(id: u32) -> (r: Result<Planet<SkycartelPlanetAI>, String>)
    ensures
        r matches Ok(p) && {
            &&& p.wf()
            &&& p.state_view().id == id
            &&& p.state_view().cells == Seq::new(5, |i: int| false)
            &&& !p.state_view().has_rocket
            &&& p.state_view().can_have_rocket
            &&& p.spec_planet_type() == PlanetType::A
            &&& p.spec_generator() == seq![BasicResourceType::Carbon]
            &&& p.spec_combinator() == Seq::<ComplexResourceType>::empty()
            &&& p.spec_status() == PlanetStatus::Stopped
        },
{
    let planet_impl = match RustyPlanet::new(id) {
        Ok(p) => p,
        Err(e) => {
            return Err(e);
        },
    };
    planet_impl.create_planet()
}

} // verus!
pub mod explorer;
pub mod planet_telemetry;
pub mod telemetry;
pub mod logging;
pub mod broadcast_log;
pub mod orchestrator;

pub mod ai;
pub mod stats;

use vstd::prelude::*;

use crate::game::planet::{PlanetType, spec_constraints};
use crate::game::planet_core::{Planet, PlanetStatus};
use crate::game::resource::{BasicResourceType, ComplexResourceType};
use crate::planet_ai::skycartel::ai::SkycartelPlanetAI;

verus! {

/// The id of a Skycartel planet.
#[derive(Debug, Clone, Copy, PartialEq, Eq, Hash, Structural)]
pub struct RustyPlanetId(pub(crate) u32);

impl View for RustyPlanetId {
    type V = u32;

    closed spec fn view(&self) -> u32 {
        self.0
    }
}

impl RustyPlanetId {
    pub fn new(id: u32) -> (r: RustyPlanetId)
        ensures
            r@ == id,
    {
        RustyPlanetId(id)
    }

    pub fn as_u32(self) -> (id: u32)
        ensures
            id == self@,
    {
        self.0
    }
}

/// A Skycartel planet before it is built: type A, carbon generation only,
/// no combinations.
pub struct RustyPlanet {
    id: RustyPlanetId,
}

impl RustyPlanet {
    pub closed spec fn spec_id(&self) -> u32 {
        self.id@
    }

    /// Always succeeds.
    pub fn new(id: u32) -> (r: Result<RustyPlanet, String>)
        ensures
            r matches Ok(p) && p.spec_id() == id,
    {
        Ok(RustyPlanet { id: RustyPlanetId::new(id) })
    }

    /// The planet: type A, five empty cells, generation of carbon only, no
    /// combination, stopped, with a fresh Skycartel AI. Always succeeds.
    pub fn create_planet(&self) -> (r: Result<Planet<SkycartelPlanetAI>, String>)
        ensures
            r matches Ok(p) && {
                &&& p.wf()
                &&& p.state_view().id == self.spec_id()
                &&& p.state_view().cells == Seq::new(5, |i: int| false)
                &&& !p.state_view().has_rocket
                &&& p.state_view().can_have_rocket
                &&& !p.state_view().has_rocket
                &&& p.spec_planet_type() == PlanetType::A
                &&& p.spec_generator() == seq![BasicResourceType::Carbon]
                &&& p.spec_combinator() == Seq::<ComplexResourceType>::empty()
                &&& p.spec_status() == PlanetStatus::Stopped
                &&& p.spec_explorers() == Set::<u32>::empty()
                &&& p.spec_ai().record().id@ == self.spec_id()
                &&& p.spec_ai().record().stats == crate::planet_ai::state::zero_stats()
            },
    {
        let ai = SkycartelPlanetAI::new(self.id);
        let mut gen_rules = Vec::new();
        gen_rules.push(BasicResourceType::Carbon);
        let comb_rules: Vec<ComplexResourceType> = Vec::new();
        let r = Planet::new(self.id.as_u32(), PlanetType::A, ai, gen_rules, comb_rules);
        proof {
            let g = seq![BasicResourceType::Carbon];
            assert(g.drop_last() =~= Seq::<BasicResourceType>::empty());
            assert(crate::game::planet_core::dedup(g.drop_last()) == Seq::<BasicResourceType>::empty());
            assert(Seq::<BasicResourceType>::empty().push(BasicResourceType::Carbon) =~= g);
            assert(crate::game::planet_core::dedup(g) == g);
            assert(crate::game::planet_core::dedup(Seq::<ComplexResourceType>::empty()) == Seq::<ComplexResourceType>::empty());
        }
        r
    }
}

} // verus!

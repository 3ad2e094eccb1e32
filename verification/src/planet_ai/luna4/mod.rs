pub mod ai;

use vstd::prelude::*;

use crate::game::planet::PlanetType;
use crate::game::planet_core::{Planet, PlanetStatus};
use crate::game::resource::{BasicResourceType, ComplexResourceType};
use crate::planet_ai::energy::EnergyManager;
use crate::planet_ai::errors::SkycartelError;
use crate::planet_ai::luna4::ai::{AvailableResources, Luna4AI, Luna4Phase, phase_name, phase_resources};
use crate::planet_ai::resources::ResourceManager;
use crate::planet_telemetry::{zero_shared_stats, SharedPlanetStats, StatsTrackingAI};

verus! {

/// The id of a Luna4 planet.
#[derive(Debug, Clone, Copy, PartialEq, Eq, Hash, Structural)]
pub struct Luna4Id(u32);

impl View for Luna4Id {
    type V = u32;

    closed spec fn view(&self) -> u32 {
        self.0
    }
}

impl Luna4Id {
    pub fn new(id: u32) -> (r: Luna4Id)
        ensures
            r@ == id,
    {
        Luna4Id(id)
    }

    pub fn as_u32(&self) -> (id: u32)
        ensures
            id == self@,
    {
        self.0
    }

    /// `Luna4#` followed by the id.
    pub fn label(&self) -> (s: String)
        ensures
            s@ == "Luna4#"@ + crate::text::decimal(self@ as nat),
    {
        let mut s = String::from_str("Luna4#");
        crate::text::push_decimal(&mut s, self.0 as u64);
        s
    }
}

/// The four basic resources, in the order Luna4 lists its recipes.
pub open spec fn luna4_recipes() -> Seq<BasicResourceType> {
    seq![BasicResourceType::Hydrogen, BasicResourceType::Oxygen, BasicResourceType::Carbon, BasicResourceType::Silicon]
}

/// A Luna4 planet before it is built: type D, all four basic recipes, no
/// combinations.
pub struct Luna4 {
    id: Luna4Id,
    energy: EnergyManager,
    resources: ResourceManager,
}

impl Luna4 {
    pub closed spec fn spec_id(&self) -> u32 {
        self.id@
    }

    /// Always succeeds.
    pub fn new(id: u32) -> (r: Result<Luna4, SkycartelError>)
        ensures
            r matches Ok(l) && l.spec_id() == id,
    {
        let id = Luna4Id::new(id);
        let energy = match EnergyManager::new(5) {
            Ok(e) => e,
            Err(e) => {
                return Err(e);
            },
        };
        let resources = ResourceManager::new();
        Ok(Luna4 { id, energy, resources })
    }

    /// The planet: type D, five empty cells, all four basic recipes, no
    /// combination, stopped, with a fresh Luna4 AI. Always succeeds.
    pub fn create_planet(self) -> (r: Result<Planet<Luna4AI>, SkycartelError>)
        ensures
            r matches Ok(p) && {
                &&& p.wf()
                &&& p.state_view().id == self.spec_id()
                &&& p.state_view().cells == Seq::new(5, |i: int| false)
                &&& !p.state_view().has_rocket
                &&& !p.state_view().can_have_rocket
                &&& p.spec_planet_type() == PlanetType::D
                &&& p.spec_generator() == luna4_recipes()
                &&& p.spec_combinator() == Seq::<ComplexResourceType>::empty()
                &&& p.spec_status() == PlanetStatus::Stopped
                &&& p.spec_ai().spec_phase() == Luna4Phase::WaxingCrescent
            },
    {
        let ai = Luna4AI::new(self.id.as_u32());
        let mut gen_rules = Vec::new();
        gen_rules.push(BasicResourceType::Hydrogen);
        gen_rules.push(BasicResourceType::Oxygen);
        gen_rules.push(BasicResourceType::Carbon);
        gen_rules.push(BasicResourceType::Silicon);
        let comb_rules: Vec<ComplexResourceType> = Vec::new();
        proof {
            let g = luna4_recipes();
            assert(gen_rules@ =~= g);
            reveal_with_fuel(crate::game::planet_core::dedup, 5);
            assert(g.drop_last().drop_last().drop_last().drop_last() =~= Seq::<BasicResourceType>::empty());
            assert(crate::game::planet_core::dedup(g.drop_last().drop_last().drop_last()) =~= g.drop_last().drop_last().drop_last());
            assert(crate::game::planet_core::dedup(g.drop_last().drop_last()) =~= g.drop_last().drop_last());
            assert(crate::game::planet_core::dedup(g.drop_last()) =~= g.drop_last());
            assert(crate::game::planet_core::dedup(g) =~= g);
            assert(crate::game::planet_core::dedup(Seq::<ComplexResourceType>::empty())
                == Seq::<ComplexResourceType>::empty());
        }
        match Planet::new(self.id.as_u32(), PlanetType::D, ai, gen_rules, comb_rules) {
            Ok(p) => Ok(p),
            Err(e) => Err(SkycartelError::PlanetConstruction(e)),
        }
    }

    /// The same planet as [`Luna4::create_planet`], its behaviour wrapped so
    /// that what it does is counted (see [`StatsTrackingAI`]), all counters
    /// at zero.
    pub fn create_planet_with_stats(self) -> (r: Result<Planet<StatsTrackingAI<Luna4AI>>, SkycartelError>)
        ensures
            r matches Ok(p) && {
                &&& p.wf()
                &&& p.state_view().id == self.spec_id()
                &&& p.state_view().cells == Seq::new(5, |i: int| false)
                &&& !p.state_view().has_rocket
                &&& !p.state_view().can_have_rocket
                &&& p.spec_planet_type() == PlanetType::D
                &&& p.spec_generator() == luna4_recipes()
                &&& p.spec_combinator() == Seq::<ComplexResourceType>::empty()
                &&& p.spec_status() == PlanetStatus::Stopped
                &&& p.spec_ai().inner.spec_phase() == Luna4Phase::WaxingCrescent
                &&& p.spec_ai().stats == zero_shared_stats()
            },
    {
        let ai = StatsTrackingAI { inner: Luna4AI::new(self.id.as_u32()), stats: SharedPlanetStats::default() };
        let mut gen_rules = Vec::new();
        gen_rules.push(BasicResourceType::Hydrogen);
        gen_rules.push(BasicResourceType::Oxygen);
        gen_rules.push(BasicResourceType::Carbon);
        gen_rules.push(BasicResourceType::Silicon);
        let comb_rules: Vec<ComplexResourceType> = Vec::new();
        proof {
            let g = luna4_recipes();
            assert(gen_rules@ =~= g);
            reveal_with_fuel(crate::game::planet_core::dedup, 5);
            assert(g.drop_last().drop_last().drop_last().drop_last() =~= Seq::<BasicResourceType>::empty());
            assert(crate::game::planet_core::dedup(g.drop_last().drop_last().drop_last()) =~= g.drop_last().drop_last().drop_last());
            assert(crate::game::planet_core::dedup(g.drop_last().drop_last()) =~= g.drop_last().drop_last());
            assert(crate::game::planet_core::dedup(g.drop_last()) =~= g.drop_last());
            assert(crate::game::planet_core::dedup(g) =~= g);
            assert(crate::game::planet_core::dedup(Seq::<ComplexResourceType>::empty())
                == Seq::<ComplexResourceType>::empty());
        }
        match Planet::new(self.id.as_u32(), PlanetType::D, ai, gen_rules, comb_rules) {
            Ok(p) => Ok(p),
            Err(e) => Err(SkycartelError::PlanetConstruction(e)),
        }
    }

    /// What this Luna4's planet offers now, as the visualizer sees it. The
    /// planet is built by [`Luna4::create_planet`], which consumes the
    /// Luna4, so a Luna4 that can still be asked has no planet: the answer
    /// is always `None`.
    pub fn get_current_resources(&self) -> (r: Option<AvailableResources>)
        ensures
            r is None,
    {
        None
    }
}

} // verus!

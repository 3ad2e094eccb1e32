use vstd::prelude::*;

use crate::game::messages::{ExplorerToPlanet, PlanetToExplorer};
use crate::game::planet::{
    DummyPlanetState, PlanetState, PlanetStateView, PlanetType, count_charged, has_with, is_first_with, keeps_cells_frame,
};
use crate::game::planet_core::{Planet, PlanetAI, PlanetStatus, keeps_shape};
use crate::game::resource::{
    BasicResourceType, Combinator, ComplexResourceType, Generator, basic_of, request_ingredients,
    to_generic_pair,
};
use crate::game::rocket::Rocket;
use crate::game::sunray::Sunray;

verus! {

/// The message a type A planet refuses combinations with.
pub open spec fn type_a_no_combination_message() -> Seq<char> {
    "This planet type does not support resource combination."@
}

/// A plain type A behaviour: sunrays charge the first empty cell, requests
/// use the first charged cell, an asteroid is met with a rocket built from
/// the first charged cell. It counts the sunrays seen since its start.
pub struct TypeAPlanetAI {
    sunray_seen: u64,
}

impl TypeAPlanetAI {
    pub closed spec fn spec_sunray_seen(&self) -> u64 {
        self.sunray_seen
    }

    pub fn new() -> (ai: TypeAPlanetAI)
        ensures
            ai.spec_sunray_seen() == 0,
    {
        TypeAPlanetAI { sunray_seen: 0 }
    }

    pub fn sunray_seen(&self) -> (n: u64)
        ensures
            n == self.spec_sunray_seen(),
    {
        self.sunray_seen
    }
}

impl PlanetAI for TypeAPlanetAI {
    fn handle_sunray(
        &mut self,
        state: &mut PlanetState,
        _generator: &Generator,
        _combinator: &Combinator,
        sunray: Sunray,
    )
    {
        self.sunray_seen = self.sunray_seen.saturating_add(1);
        let _leftover = state.charge_cell(sunray);
    }

    fn handle_internal_state_req(
        &mut self,
        state: &mut PlanetState,
        _generator: &Generator,
        _combinator: &Combinator,
    ) -> (overview: DummyPlanetState)
    {
        state.to_dummy()
    }

    fn handle_explorer_msg(
        &mut self,
        state: &mut PlanetState,
        generator: &Generator,
        combinator: &Combinator,
        msg: ExplorerToPlanet,
    ) -> (answer: Option<PlanetToExplorer>)
    {
        match msg {
            ExplorerToPlanet::SupportedResourceRequest { .. } => {
                Some(PlanetToExplorer::SupportedResourceResponse { resource_list: generator.all_available_recipes() })
            },
            ExplorerToPlanet::SupportedCombinationRequest { .. } => {
                Some(PlanetToExplorer::SupportedCombinationResponse { combination_list: combinator.all_available_recipes() })
            },
            ExplorerToPlanet::AvailableEnergyCellRequest { .. } => {
                Some(PlanetToExplorer::AvailableEnergyCellResponse { available_cells: state.cells_count() as u32 })
            },
            ExplorerToPlanet::GenerateResourceRequest { explorer_id: _, resource } => {
                if !generator.contains(resource) {
                    return Some(PlanetToExplorer::GenerateResourceResponse { resource: None });
                }
                match state.full_cell() {
                    None => Some(PlanetToExplorer::GenerateResourceResponse { resource: None }),
                    Some((cell, _idx)) => match generator.try_make(resource, cell) {
                        Ok(basic) => Some(PlanetToExplorer::GenerateResourceResponse { resource: Some(basic) }),
                        Err(_) => Some(PlanetToExplorer::GenerateResourceResponse { resource: None }),
                    },
                }
            },
            ExplorerToPlanet::CombineResourceRequest { explorer_id: _, msg } => {
                let err_msg = String::from_str("This planet type does not support resource combination.");
                let (a, b) = to_generic_pair(msg);
                Some(PlanetToExplorer::CombineResourceResponse { complex_response: Err((err_msg, a, b)) })
            },
        }
    }

    fn handle_asteroid(
        &mut self,
        state: &mut PlanetState,
        _generator: &Generator,
        _combinator: &Combinator,
    ) -> (rocket: Option<Rocket>)
    {
        let idx = match state.full_cell() {
            None => {
                return None;
            },
            Some((_cell, idx)) => idx,
        };
        assert(state@ =~= old(state)@);
        if state.build_rocket(idx).is_ok() {
            state.take_rocket()
        } else {
            None
        }
    }

    /// The sunray count restarts.
    fn on_start(&mut self, _state: &PlanetState, _generator: &Generator, _combinator: &Combinator)
    {
        self.sunray_seen = 0;
    }

    fn on_stop(&mut self, _state: &PlanetState, _generator: &Generator, _combinator: &Combinator)
    {
    }

    fn on_explorer_arrival(
        &mut self,
        _state: &mut PlanetState,
        _generator: &Generator,
        _combinator: &Combinator,
        _explorer_id: u32,
    )
    {
    }

    fn on_explorer_departure(
        &mut self,
        _state: &mut PlanetState,
        _generator: &Generator,
        _combinator: &Combinator,
        _explorer_id: u32,
    )
    {
    }

    open spec fn asteroid_effect(
        &self,
        next: Self,
        before: PlanetStateView,
        after: PlanetStateView,
        generator: Generator,
        combinator: Combinator,
        rocket: Option<Rocket>,
    ) -> bool {
        &&& keeps_shape(before, after)
        &&& next == *self
        &&& !has_with(before.cells, true) ==> rocket is None && after == before
        &&& has_with(before.cells, true) && (!before.can_have_rocket || before.has_rocket)
            ==> rocket is None && after == before
        &&& has_with(before.cells, true) && before.can_have_rocket && !before.has_rocket ==> {
            &&& rocket is Some
            &&& !after.has_rocket
            &&& exists|i: int| is_first_with(before.cells, true, i) && after.cells
                == before.cells.update(i, false)
        }
    }

    open spec fn overview_effect(
        &self,
        next: Self,
        before: PlanetStateView,
        after: PlanetStateView,
        generator: Generator,
        combinator: Combinator,
        overview: DummyPlanetState,
    ) -> bool {
        &&& after == before
        &&& next == *self
        &&& overview.energy_cells@ == before.cells
        &&& overview.charged_cells_count == count_charged(before.cells)
        &&& overview.has_rocket == before.has_rocket
    }

    open spec fn explorer_effect(
        &self,
        next: Self,
        before: PlanetStateView,
        after: PlanetStateView,
        generator: Generator,
        combinator: Combinator,
        msg: ExplorerToPlanet,
        answer: Option<PlanetToExplorer>,
    ) -> bool {
        &&& keeps_cells_frame(before, after)
        &&& next == *self
        &&& match msg {
            ExplorerToPlanet::SupportedResourceRequest { .. } => answer matches Some(
                PlanetToExplorer::SupportedResourceResponse { resource_list },
            ) && resource_list@ == generator@ && after == before,
            ExplorerToPlanet::SupportedCombinationRequest { .. } => answer matches Some(
                PlanetToExplorer::SupportedCombinationResponse { combination_list },
            ) && combination_list@ == combinator@ && after == before,
            ExplorerToPlanet::AvailableEnergyCellRequest { .. } => answer == Some(
                PlanetToExplorer::AvailableEnergyCellResponse {
                    available_cells: before.cells.len() as u32,
                },
            ) && after == before,
            ExplorerToPlanet::CombineResourceRequest { msg: req, .. } => answer matches Some(
                PlanetToExplorer::CombineResourceResponse { complex_response: Err(e) },
            ) && e.0@ == type_a_no_combination_message() && (e.1, e.2) == request_ingredients(req)
                && after == before,
            ExplorerToPlanet::GenerateResourceRequest { resource, .. } => if !generator@.contains(resource)
                || !has_with(before.cells, true) {
                answer == Some(PlanetToExplorer::GenerateResourceResponse { resource: None })
                    && after.cells == before.cells
            } else {
                &&& answer == Some(PlanetToExplorer::GenerateResourceResponse { resource: Some(basic_of(resource)) })
                &&& exists|i: int| is_first_with(before.cells, true, i) && after.cells
                    == before.cells.update(i, false)
            },
        }
    }

    open spec fn start_effect(
        &self,
        next: Self,
        state: PlanetStateView,
        generator: Generator,
        combinator: Combinator,
    ) -> bool {
        next.spec_sunray_seen() == 0
    }

    open spec fn stop_effect(
        &self,
        next: Self,
        state: PlanetStateView,
        generator: Generator,
        combinator: Combinator,
    ) -> bool {
        next == *self
    }

    open spec fn sunray_effect(
        &self,
        next: Self,
        before: PlanetStateView,
        after: PlanetStateView,
        generator: Generator,
        combinator: Combinator,
        sunray: Sunray,
    ) -> bool {
        &&& keeps_cells_frame(before, after)
        &&& !has_with(before.cells, false) ==> after.cells == before.cells
        &&& has_with(before.cells, false) ==> exists|i: int|
            is_first_with(before.cells, false, i) && after.cells == before.cells.update(i, true)
        &&& next.spec_sunray_seen() == (if self.spec_sunray_seen() < u64::MAX {
            self.spec_sunray_seen() + 1
        } else {
            self.spec_sunray_seen() as int
        })
    }

    open spec fn arrival_effect(
        &self,
        next: Self,
        before: PlanetStateView,
        after: PlanetStateView,
        generator: Generator,
        combinator: Combinator,
        explorer_id: u32,
    ) -> bool {
        &&& after == before
        &&& next == *self
    }

    open spec fn departure_effect(
        &self,
        next: Self,
        before: PlanetStateView,
        after: PlanetStateView,
        generator: Generator,
        combinator: Combinator,
        explorer_id: u32,
    ) -> bool {
        &&& after == before
        &&& next == *self
    }
}

/// A type A planet with oxygen as its only recipe, stopped, with a fresh
/// type A behaviour. Always succeeds.
pub fn create_planet(id: u32) -> (r: Result<Planet<TypeAPlanetAI>, String>)
    ensures
        r matches Ok(p) && {
            &&& p.wf()
            &&& p.state_view().id == id
            &&& p.state_view().cells == Seq::new(5, |i: int| false)
            &&& !p.state_view().has_rocket
            &&& p.state_view().can_have_rocket
            &&& p.spec_planet_type() == PlanetType::A
            &&& p.spec_generator() == seq![BasicResourceType::Oxygen]
            &&& p.spec_combinator() == Seq::<ComplexResourceType>::empty()
            &&& p.spec_status() == PlanetStatus::Stopped
        },
{
    let ai = TypeAPlanetAI::new();
    let mut gen_rules = Vec::new();
    gen_rules.push(BasicResourceType::Oxygen);
    let comb_rules: Vec<ComplexResourceType> = Vec::new();
    let r = Planet::new(id, PlanetType::A, ai, gen_rules, comb_rules);
    proof {
        let g = seq![BasicResourceType::Oxygen];
        assert(crate::game::planet_core::dedup(g.drop_last()) == Seq::<BasicResourceType>::empty());
        assert(Seq::<BasicResourceType>::empty().push(BasicResourceType::Oxygen) =~= g);
        assert(crate::game::planet_core::dedup(g) == g);
        assert(crate::game::planet_core::dedup(Seq::<ComplexResourceType>::empty())
            == Seq::<ComplexResourceType>::empty());
    }
    r
}

} // verus!

use vstd::prelude::*;

use crate::game::messages::{ExplorerToPlanet, PlanetToExplorer};
use crate::game::planet::{
    DummyPlanetState, PlanetState, PlanetStateView, PlanetType, count_charged, has_with, is_first_with, keeps_cells_frame,
};
use crate::game::planet_core::{Planet, PlanetAI, new_planet_error};
use crate::game::resource::{
    BasicResourceType, Combinator, ComplexResource, ComplexResourceRequest, ComplexResourceType,
    Generator, basic_of, complex_of, request_ingredients, request_kind, to_generic_pair,
};
use crate::game::rocket::Rocket;
use crate::game::sunray::Sunray;

verus! {

/// The message Crabtorio refuses a recipe other than water with.
pub open spec fn unavailable_recipe_message(r: ComplexResourceRequest) -> Seq<char> {
    match r {
        ComplexResourceRequest::Water => "Water recipe not available on this planet"@,
        ComplexResourceRequest::Diamond => "Diamond recipe not available on this planet"@,
        ComplexResourceRequest::Life => "Life recipe not available on this planet"@,
        ComplexResourceRequest::Robot => "Robot recipe not available on this planet"@,
        ComplexResourceRequest::Dolphin => "Dolphin recipe not available on this planet"@,
        ComplexResourceRequest::AIPartner => "AIPartner recipe not available on this planet"@,
    }
}

/// Crabtorio's behaviour: it charges the first empty cell, builds no
/// rocket, generates with the first charged cell, and combines water only,
/// with the charge of its first cell.
pub struct AI;

impl AI {
    /// The answer to an explorer's request.
    fn answer_explorer(
        &mut self,
        state: &mut PlanetState,
        generator: &Generator,
        combinator: &Combinator,
        msg: ExplorerToPlanet,
    ) -> (answer: Option<PlanetToExplorer>)
        ensures
            keeps_cells_frame(old(state)@, final(state)@),
            ({
                let cells = old(state)@.cells;
                match msg {
                    ExplorerToPlanet::AvailableEnergyCellRequest { .. } => answer == Some(
                        PlanetToExplorer::AvailableEnergyCellResponse { available_cells: cells.len() as u32 },
                    ) && final(state)@ == old(state)@,
                    ExplorerToPlanet::SupportedCombinationRequest { .. } => answer matches Some(
                        PlanetToExplorer::SupportedCombinationResponse { combination_list },
                    ) && combination_list@ == seq![ComplexResourceType::Water] && final(state)@ == old(state)@,
                    ExplorerToPlanet::SupportedResourceRequest { .. } => answer matches Some(
                        PlanetToExplorer::SupportedResourceResponse { resource_list },
                    ) && resource_list@ == generator@ && final(state)@ == old(state)@,
                    ExplorerToPlanet::GenerateResourceRequest { resource, .. } => if has_with(cells, true)
                        && generator@.contains(resource) {
                        &&& answer == Some(PlanetToExplorer::GenerateResourceResponse { resource: Some(basic_of(resource)) })
                        &&& exists|i: int| is_first_with(cells, true, i) && final(state)@.cells == cells.update(i, false)
                    } else {
                        answer == Some(PlanetToExplorer::GenerateResourceResponse { resource: None })
                            && final(state)@.cells == cells
                    },
                    ExplorerToPlanet::CombineResourceRequest { msg: req, .. } => if req == ComplexResourceRequest::Water
                        && cells.len() > 0 && cells[0] && combinator@.contains(ComplexResourceType::Water) {
                        &&& answer == Some(PlanetToExplorer::CombineResourceResponse { complex_response: Ok(ComplexResource::Water) })
                        &&& final(state)@.cells == cells.update(0, false)
                    } else {
                        &&& answer matches Some(PlanetToExplorer::CombineResourceResponse { complex_response: Err(e) })
                            && (e.1, e.2) == request_ingredients(req)
                            && (req != ComplexResourceRequest::Water ==> e.0@ == unavailable_recipe_message(req))
                        &&& final(state)@.cells == cells
                    },
                }
            }),
    {
        match msg {
            ExplorerToPlanet::AvailableEnergyCellRequest { explorer_id: _ } => {
                Some(PlanetToExplorer::AvailableEnergyCellResponse { available_cells: state.cells_count() as u32 })
            },
            ExplorerToPlanet::SupportedCombinationRequest { explorer_id: _ } => {
                let mut v = Vec::new();
                v.push(ComplexResourceType::Water);
                Some(PlanetToExplorer::SupportedCombinationResponse { combination_list: v })
            },
            ExplorerToPlanet::SupportedResourceRequest { explorer_id: _ } => {
                Some(PlanetToExplorer::SupportedResourceResponse { resource_list: generator.all_available_recipes() })
            },
            ExplorerToPlanet::GenerateResourceRequest { explorer_id: _, resource } => {
                if let Some((cell, _)) = state.full_cell() {
                    let res = match generator.try_make(resource, cell) {
                        Ok(r) => Some(r),
                        Err(_) => None,
                    };
                    Some(PlanetToExplorer::GenerateResourceResponse { resource: res })
                } else {
                    Some(PlanetToExplorer::GenerateResourceResponse { resource: None })
                }
            },
            ExplorerToPlanet::CombineResourceRequest { explorer_id: _, msg } => {
                match msg {
                    ComplexResourceRequest::Water => {
                        if state.cells_count() == 0 {
                            let (a, b) = to_generic_pair(msg);
                            return Some(PlanetToExplorer::CombineResourceResponse {
                                complex_response: Err((String::from_str("EnergyCell not charged!"), a, b)),
                            });
                        }
                        let r = combinator.try_make(msg, state.cell_mut(0));
                        Some(PlanetToExplorer::CombineResourceResponse { complex_response: r })
                    },
                    _ => {
                        let (a, b) = to_generic_pair(msg);
                        Some(PlanetToExplorer::CombineResourceResponse {
                            complex_response: Err((unavailable_recipe_text(msg), a, b)),
                        })
                    },
                }
            },
        }
    }
}

impl PlanetAI for AI {
    fn handle_internal_state_req(
        &mut self,
        state: &mut PlanetState,
        _generator: &Generator,
        _combinator: &Combinator,
    ) -> (overview: DummyPlanetState)
    {
        state.to_dummy()
    }

    fn handle_sunray(
        &mut self,
        state: &mut PlanetState,
        _generator: &Generator,
        _combinator: &Combinator,
        sunray: Sunray,
    )
    {
        state.charge_cell(sunray);
    }

    fn handle_asteroid(
        &mut self,
        state: &mut PlanetState,
        _generator: &Generator,
        _combinator: &Combinator,
    ) -> (rocket: Option<Rocket>)
    {
        None
    }

    fn handle_explorer_msg(
        &mut self,
        state: &mut PlanetState,
        generator: &Generator,
        combinator: &Combinator,
        msg: ExplorerToPlanet,
    ) -> (answer: Option<PlanetToExplorer>) {
        AI::answer_explorer(self, state, generator, combinator, msg)
    }

    fn on_explorer_arrival(
        &mut self,
        _state: &mut PlanetState,
        _generator: &Generator,
        _combinator: &Combinator,
        _explorer_id: u32,
    )
    {
    }

    fn on_explorer_departure(
        &mut self,
        _state: &mut PlanetState,
        _generator: &Generator,
        _combinator: &Combinator,
        _explorer_id: u32,
    )
    {
    }

    fn on_start(&mut self, _state: &PlanetState, _generator: &Generator, _combinator: &Combinator)
    {
    }

    fn on_stop(&mut self, _state: &PlanetState, _generator: &Generator, _combinator: &Combinator)
    {
    }

    open spec fn asteroid_effect(
        &self,
        next: Self,
        before: PlanetStateView,
        after: PlanetStateView,
        generator: Generator,
        combinator: Combinator,
        rocket: Option<Rocket>,
    ) -> bool {
        &&& rocket is None
        &&& after == before
    }

    open spec fn overview_effect(
        &self,
        next: Self,
        before: PlanetStateView,
        after: PlanetStateView,
        generator: Generator,
        combinator: Combinator,
        overview: DummyPlanetState,
    ) -> bool {
        &&& after == before
        &&& overview.energy_cells@ == before.cells
        &&& overview.charged_cells_count == count_charged(before.cells)
        &&& overview.has_rocket == before.has_rocket
    }

    open spec fn explorer_effect(
        &self,
        next: Self,
        before: PlanetStateView,
        after: PlanetStateView,
        generator: Generator,
        combinator: Combinator,
        msg: ExplorerToPlanet,
        answer: Option<PlanetToExplorer>,
    ) -> bool {
        &&& keeps_cells_frame(before, after)
        &&& ({
            let cells = before.cells;
            match msg {
                ExplorerToPlanet::AvailableEnergyCellRequest { .. } => answer == Some(
                    PlanetToExplorer::AvailableEnergyCellResponse { available_cells: cells.len() as u32 },
                ) && after == before,
                ExplorerToPlanet::SupportedCombinationRequest { .. } => answer matches Some(
                    PlanetToExplorer::SupportedCombinationResponse { combination_list },
                ) && combination_list@ == seq![ComplexResourceType::Water] && after == before,
                ExplorerToPlanet::SupportedResourceRequest { .. } => answer matches Some(
                    PlanetToExplorer::SupportedResourceResponse { resource_list },
                ) && resource_list@ == generator@ && after == before,
                ExplorerToPlanet::GenerateResourceRequest { resource, .. } => if has_with(cells, true)
                    && generator@.contains(resource) {
                    &&& answer == Some(PlanetToExplorer::GenerateResourceResponse { resource: Some(basic_of(resource)) })
                    &&& exists|i: int| is_first_with(cells, true, i) && after.cells == cells.update(i, false)
                } else {
                    answer == Some(PlanetToExplorer::GenerateResourceResponse { resource: None })
                        && after.cells == cells
                },
                ExplorerToPlanet::CombineResourceRequest { msg: req, .. } => if req == ComplexResourceRequest::Water
                    && cells.len() > 0 && cells[0] && combinator@.contains(ComplexResourceType::Water) {
                    &&& answer == Some(PlanetToExplorer::CombineResourceResponse { complex_response: Ok(ComplexResource::Water) })
                    &&& after.cells == cells.update(0, false)
                } else {
                    &&& answer matches Some(PlanetToExplorer::CombineResourceResponse { complex_response: Err(e) })
                        && (e.1, e.2) == request_ingredients(req)
                        && (req != ComplexResourceRequest::Water ==> e.0@ == unavailable_recipe_message(req))
                    &&& after.cells == cells
                },
            }
        })
    }

    open spec fn start_effect(
        &self,
        next: Self,
        state: PlanetStateView,
        generator: Generator,
        combinator: Combinator,
    ) -> bool {
        next == *self
    }

    open spec fn stop_effect(
        &self,
        next: Self,
        state: PlanetStateView,
        generator: Generator,
        combinator: Combinator,
    ) -> bool {
        next == *self
    }

    open spec fn sunray_effect(
        &self,
        next: Self,
        before: PlanetStateView,
        after: PlanetStateView,
        generator: Generator,
        combinator: Combinator,
        sunray: Sunray,
    ) -> bool {
        &&& keeps_cells_frame(before, after)
        &&& !has_with(before.cells, false) ==> after.cells == before.cells
        &&& has_with(before.cells, false) ==> exists|i: int|
            is_first_with(before.cells, false, i) && after.cells == before.cells.update(i, true)
    }

    open spec fn arrival_effect(
        &self,
        next: Self,
        before: PlanetStateView,
        after: PlanetStateView,
        generator: Generator,
        combinator: Combinator,
        explorer_id: u32,
    ) -> bool {
        &&& after == before
        &&& next == *self
    }

    open spec fn departure_effect(
        &self,
        next: Self,
        before: PlanetStateView,
        after: PlanetStateView,
        generator: Generator,
        combinator: Combinator,
        explorer_id: u32,
    ) -> bool {
        &&& after == before
        &&& next == *self
    }
}

fn unavailable_recipe_text(r: ComplexResourceRequest) -> (s: String)
    ensures
        s@ == unavailable_recipe_message(r),
{
    match r {
        ComplexResourceRequest::Water => String::from_str("Water recipe not available on this planet"),
        ComplexResourceRequest::Diamond => String::from_str("Diamond recipe not available on this planet"),
        ComplexResourceRequest::Life => String::from_str("Life recipe not available on this planet"),
        ComplexResourceRequest::Robot => String::from_str("Robot recipe not available on this planet"),
        ComplexResourceRequest::Dolphin => String::from_str("Dolphin recipe not available on this planet"),
        ComplexResourceRequest::AIPartner => String::from_str("AIPartner recipe not available on this planet"),
    }
}

/// Crabtorio's planet: type B with hydrogen and all six combination
/// recipes. Type B allows one combination recipe, so it is always refused,
/// with the reason [`Planet::new`] gives.
pub fn create_planet(id: u32) -> (r: Result<Planet<AI>, String>)
    ensures
        r matches Err(e) && Some(e@) == new_planet_error(PlanetType::B, 1, 6),
{
    let mut gen_rules = Vec::new();
    gen_rules.push(BasicResourceType::Hydrogen);
    let mut comb_rules = Vec::new();
    comb_rules.push(ComplexResourceType::AIPartner);
    comb_rules.push(ComplexResourceType::Diamond);
    comb_rules.push(ComplexResourceType::Dolphin);
    comb_rules.push(ComplexResourceType::Life);
    comb_rules.push(ComplexResourceType::Robot);
    comb_rules.push(ComplexResourceType::Water);
    Planet::new(id, PlanetType::B, AI, gen_rules, comb_rules)
}

} // verus!

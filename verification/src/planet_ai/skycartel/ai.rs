use vstd::prelude::*;

use crate::game::messages::{ExplorerToPlanet, PlanetToExplorer};
use crate::game::planet::{DummyPlanetState, PlanetState, PlanetStateView, count_charged, keeps_cells_frame};
use crate::game::planet_core::{PlanetAI, keeps_shape};
use crate::game::resource::{
    BasicResource, BasicResourceType, Combinator, Generator, request_ingredients, to_generic_pair,
};
use crate::game::rocket::Rocket;
use crate::game::sunray::Sunray;
use crate::planet_ai::energy::{first_with_in, is_first_in, none_in};
use crate::planet_ai::skycartel::RustyPlanetId;
use crate::planet_ai::state::{OperationalStats, SkycartelState, bump};

verus! {

/// Cells `0..3` serve generation.
pub const RESOURCE_RANGE_END: usize = 3;

/// Cells from 3 on serve defense.
pub const DEFENSE_RANGE_START: usize = 3;

/// The end of the generation cells on a planet with `n` cells.
pub open spec fn resource_end(n: int) -> int {
    if n < 3 { n } else { 3 }
}

/// The cell a sunray charges: the first empty generation cell, else the
/// first empty defense cell.
pub open spec fn sunray_target(cells: Seq<bool>, i: int) -> bool {
    let e = resource_end(cells.len() as int);
    ||| is_first_in(cells, 0, e, false, i)
    ||| (none_in(cells, 0, e, false) && is_first_in(cells, e, cells.len() as int, false, i))
}

/// Charges the first empty generation cell, else the first empty defense
/// cell; with neither, the sunray is lost.
pub fn charge_prefer_resource_cells(state: &mut PlanetState, sunray: Sunray)
    ensures
        keeps_cells_frame(old(state)@, final(state)@),
        none_in(old(state)@.cells, 0, old(state)@.cells.len() as int, false) ==> final(state)@.cells
            == old(state)@.cells,
        !none_in(old(state)@.cells, 0, old(state)@.cells.len() as int, false) ==> exists|i: int|
            sunray_target(old(state)@.cells, i) && final(state)@.cells == old(state)@.cells.update(i, true),
{
    let total = state.cells_count();
    let resource_end = if RESOURCE_RANGE_END < total { RESOURCE_RANGE_END } else { total };
    if let Some(i) = first_with_in(state, 0, resource_end, false) {
        state.cell_mut(i).charge(sunray);
        assert(sunray_target(old(state)@.cells, i as int));
        assert(state@.cells =~= old(state)@.cells.update(i as int, true));
        return;
    }
    if let Some(i) = first_with_in(state, resource_end, total, false) {
        state.cell_mut(i).charge(sunray);
        assert(sunray_target(old(state)@.cells, i as int));
        assert(state@.cells =~= old(state)@.cells.update(i as int, true));
        return;
    }
    assert(none_in(old(state)@.cells, 0, old(state)@.cells.len() as int, false)) by {
        assert forall|j: int| 0 <= j < old(state)@.cells.len() implies old(state)@.cells[j] != false by {
            if j < resource_end {
            } else {
            }
        }
    }
}

/// The message a combination request is refused with.
pub open spec fn no_combination_message() -> Seq<char> {
    "Skycartel does not support resource combination."@
}

/// Skycartel's behaviour: carbon from the generation cells, rockets from the
/// defense cells, no combinations; it keeps a record of what happens.
pub struct SkycartelPlanetAI {
    _id: RustyPlanetId,
    inner: SkycartelState,
}

impl SkycartelPlanetAI {
    pub closed spec fn record(&self) -> SkycartelState {
        self.inner
    }

    pub fn new(id: RustyPlanetId) -> (ai: SkycartelPlanetAI)
        ensures
            ai.record().id@ == id@,
            ai.record().generation_history@ == Seq::<BasicResourceType>::empty(),
            ai.record().explorers() == Set::<u32>::empty(),
            ai.record().stats == crate::planet_ai::state::zero_stats(),
    {
        SkycartelPlanetAI { _id: id, inner: SkycartelState::new(id.as_u32()) }
    }

    /// The planet's record.
    pub fn state(&self) -> (s: &SkycartelState)
        ensures
            *s == self.record(),
    {
        &self.inner
    }

    fn record_generation(&mut self, r: BasicResourceType)
        ensures
            final(self).record().generation_history@ == old(self).record().generation_history@.push(r),
            final(self).record().stats == (OperationalStats {
                total_resources_generated: bump(old(self).record().stats.total_resources_generated),
                ..old(self).record().stats
            }),
            final(self).record().explorers() == old(self).record().explorers(),
    {
        self.inner.record_generation(r);
    }

    fn record_rocket(&mut self)
        ensures
            final(self).record().stats == (OperationalStats {
                rockets_built: bump(old(self).record().stats.rockets_built),
                ..old(self).record().stats
            }),
            final(self).record().generation_history == old(self).record().generation_history,
            final(self).record().explorers() == old(self).record().explorers(),
    {
        self.inner.record_rocket_built();
    }

    fn record_deflection(&mut self)
        ensures
            final(self).record().stats == (OperationalStats {
                asteroids_deflected: bump(old(self).record().stats.asteroids_deflected),
                ..old(self).record().stats
            }),
            final(self).record().generation_history == old(self).record().generation_history,
            final(self).record().explorers() == old(self).record().explorers(),
    {
        self.inner.record_asteroid_deflected();
    }

    fn record_error(&mut self)
        ensures
            final(self).record().stats == (OperationalStats {
                errors_encountered: bump(old(self).record().stats.errors_encountered),
                ..old(self).record().stats
            }),
            final(self).record().generation_history == old(self).record().generation_history,
            final(self).record().explorers() == old(self).record().explorers(),
    {
        self.inner.record_error();
    }
}

impl PlanetAI for SkycartelPlanetAI {
    fn handle_sunray(
        &mut self,
        state: &mut PlanetState,
        _generator: &Generator,
        _combinator: &Combinator,
        sunray: Sunray,
    )
    {
        charge_prefer_resource_cells(state, sunray);
    }

    fn handle_explorer_msg(
        &mut self,
        state: &mut PlanetState,
        generator: &Generator,
        combinator: &Combinator,
        msg: ExplorerToPlanet,
    ) -> (answer: Option<PlanetToExplorer>)
    {
        match msg {
            ExplorerToPlanet::SupportedResourceRequest { .. } => {
                Some(PlanetToExplorer::SupportedResourceResponse { resource_list: generator.all_available_recipes() })
            },
            ExplorerToPlanet::SupportedCombinationRequest { .. } => {
                Some(PlanetToExplorer::SupportedCombinationResponse { combination_list: combinator.all_available_recipes() })
            },
            ExplorerToPlanet::AvailableEnergyCellRequest { .. } => {
                Some(PlanetToExplorer::AvailableEnergyCellResponse { available_cells: state.cells_count() as u32 })
            },
            ExplorerToPlanet::GenerateResourceRequest { explorer_id: _, resource } => {
                if resource != BasicResourceType::Carbon || !generator.contains(resource) {
                    return Some(PlanetToExplorer::GenerateResourceResponse { resource: None });
                }
                let total = state.cells_count();
                let resource_end = if RESOURCE_RANGE_END < total { RESOURCE_RANGE_END } else { total };
                let charged_idx = first_with_in(state, 0, resource_end, true);
                let i = match charged_idx {
                    None => {
                        return Some(PlanetToExplorer::GenerateResourceResponse { resource: None });
                    },
                    Some(i) => i,
                };
                let cell = state.cell_mut(i);
                match generator.try_make(resource, cell) {
                    Ok(basic) => {
                        self.record_generation(BasicResourceType::Carbon);
                        Some(PlanetToExplorer::GenerateResourceResponse { resource: Some(basic) })
                    },
                    Err(_) => {
                        self.record_error();
                        Some(PlanetToExplorer::GenerateResourceResponse { resource: None })
                    },
                }
            },
            ExplorerToPlanet::CombineResourceRequest { explorer_id: _, msg } => {
                let err_msg = String::from_str("Skycartel does not support resource combination.");
                let (lhs, rhs) = to_generic_pair(msg);
                Some(PlanetToExplorer::CombineResourceResponse { complex_response: Err((err_msg, lhs, rhs)) })
            },
        }
    }

    fn handle_asteroid(
        &mut self,
        state: &mut PlanetState,
        _generator: &Generator,
        _combinator: &Combinator,
    ) -> (rocket: Option<Rocket>)
    {
        self.record_deflection();
        let total = state.cells_count();
        let defense_start = if DEFENSE_RANGE_START < total { DEFENSE_RANGE_START } else { total };
        let charged_idx = first_with_in(state, defense_start, total, true);
        let i = match charged_idx {
            None => {
                return None;
            },
            Some(i) => i,
        };
        if state.build_rocket(i).is_ok() {
            self.record_rocket();
            state.take_rocket()
        } else {
            self.record_error();
            None
        }
    }

    fn handle_internal_state_req(
        &mut self,
        state: &mut PlanetState,
        _generator: &Generator,
        _combinator: &Combinator,
    ) -> (overview: DummyPlanetState)
    {
        state.to_dummy()
    }

    fn on_explorer_arrival(
        &mut self,
        _state: &mut PlanetState,
        _generator: &Generator,
        _combinator: &Combinator,
        explorer_id: u32,
    )
    {
        self.inner.register_explorer_arrival(explorer_id);
    }

    fn on_explorer_departure(
        &mut self,
        _state: &mut PlanetState,
        _generator: &Generator,
        _combinator: &Combinator,
        explorer_id: u32,
    )
    {
        self.inner.register_explorer_departure(explorer_id);
    }

    fn on_start(&mut self, _state: &PlanetState, _generator: &Generator, _combinator: &Combinator)
    {
    }

    fn on_stop(&mut self, _state: &PlanetState, _generator: &Generator, _combinator: &Combinator)
    {
    }

    open spec fn asteroid_effect(
        &self,
        next: Self,
        before: PlanetStateView,
        after: PlanetStateView,
        generator: Generator,
        combinator: Combinator,
        rocket: Option<Rocket>,
    ) -> bool {
        &&& keeps_shape(before, after)
        &&& next.record().stats.asteroids_deflected == bump(self.record().stats.asteroids_deflected)
        &&& next.record().generation_history == self.record().generation_history
        &&& next.record().explorers() == self.record().explorers()
        &&& ({
            let cells = before.cells;
            let d = resource_end(cells.len() as int);
            if none_in(cells, d, cells.len() as int, true) {
                rocket is None && after == before
            } else if before.can_have_rocket && !before.has_rocket {
                &&& rocket is Some
                &&& exists|i: int| is_first_in(cells, d, cells.len() as int, true, i) && after.cells == cells.update(i, false)
                &&& !after.has_rocket
                &&& next.record().stats.rockets_built == bump(self.record().stats.rockets_built)
            } else {
                &&& rocket is None
                &&& after == before
                &&& next.record().stats.errors_encountered == bump(self.record().stats.errors_encountered)
            }
        })
    }

    open spec fn overview_effect(
        &self,
        next: Self,
        before: PlanetStateView,
        after: PlanetStateView,
        generator: Generator,
        combinator: Combinator,
        overview: DummyPlanetState,
    ) -> bool {
        &&& after == before
        &&& next == *self
        &&& overview.energy_cells@ == before.cells
        &&& overview.charged_cells_count == count_charged(before.cells)
        &&& overview.has_rocket == before.has_rocket
    }

    open spec fn explorer_effect(
        &self,
        next: Self,
        before: PlanetStateView,
        after: PlanetStateView,
        generator: Generator,
        combinator: Combinator,
        msg: ExplorerToPlanet,
        answer: Option<PlanetToExplorer>,
    ) -> bool {
        &&& keeps_cells_frame(before, after)
        &&& next.record().explorers() == self.record().explorers()
        &&& match msg {
            ExplorerToPlanet::SupportedResourceRequest { .. } => answer matches Some(
                PlanetToExplorer::SupportedResourceResponse { resource_list },
            ) && resource_list@ == generator@ && after == before && next == *self,
            ExplorerToPlanet::SupportedCombinationRequest { .. } => answer matches Some(
                PlanetToExplorer::SupportedCombinationResponse { combination_list },
            ) && combination_list@ == combinator@ && after == before && next == *self,
            ExplorerToPlanet::AvailableEnergyCellRequest { .. } => answer == Some(
                PlanetToExplorer::AvailableEnergyCellResponse {
                    available_cells: before.cells.len() as u32,
                },
            ) && after == before && next == *self,
            ExplorerToPlanet::CombineResourceRequest { msg: req, .. } => answer matches Some(
                PlanetToExplorer::CombineResourceResponse { complex_response: Err(e) },
            ) && e.0@ == no_combination_message() && (e.1, e.2) == request_ingredients(req)
                && after == before && next == *self,
            ExplorerToPlanet::GenerateResourceRequest { resource, .. } => {
                let cells = before.cells;
                let e = resource_end(cells.len() as int);
                if resource != BasicResourceType::Carbon || !generator@.contains(resource) || none_in(
                    cells,
                    0,
                    e,
                    true,
                ) {
                    answer == Some(PlanetToExplorer::GenerateResourceResponse { resource: None })
                        && after == before && next == *self
                } else {
                    &&& answer == Some(
                        PlanetToExplorer::GenerateResourceResponse { resource: Some(BasicResource::Carbon) },
                    )
                    &&& exists|i: int| is_first_in(cells, 0, e, true, i) && after.cells == cells.update(i, false)
                    &&& next.record().generation_history@ == self.record().generation_history@.push(
                        BasicResourceType::Carbon,
                    )
                    &&& next.record().stats == (OperationalStats {
                        total_resources_generated: bump(self.record().stats.total_resources_generated),
                        ..self.record().stats
                    })
                }
            },
        }
    }

    open spec fn start_effect(
        &self,
        next: Self,
        state: PlanetStateView,
        generator: Generator,
        combinator: Combinator,
    ) -> bool {
        next == *self
    }

    open spec fn stop_effect(
        &self,
        next: Self,
        state: PlanetStateView,
        generator: Generator,
        combinator: Combinator,
    ) -> bool {
        next == *self
    }

    open spec fn sunray_effect(
        &self,
        next: Self,
        before: PlanetStateView,
        after: PlanetStateView,
        generator: Generator,
        combinator: Combinator,
        sunray: Sunray,
    ) -> bool {
        &&& keeps_cells_frame(before, after)
        &&& none_in(before.cells, 0, before.cells.len() as int, false) ==> after.cells
            == before.cells
        &&& !none_in(before.cells, 0, before.cells.len() as int, false) ==> exists|i: int|
            sunray_target(before.cells, i) && after.cells == before.cells.update(i, true)
        &&& next == *self
    }

    open spec fn arrival_effect(
        &self,
        next: Self,
        before: PlanetStateView,
        after: PlanetStateView,
        generator: Generator,
        combinator: Combinator,
        explorer_id: u32,
    ) -> bool {
        &&& after == before
        &&& next.record().explorers() == self.record().explorers().insert(explorer_id)
        &&& next.record().stats.explorer_arrivals == bump(self.record().stats.explorer_arrivals)
    }

    open spec fn departure_effect(
        &self,
        next: Self,
        before: PlanetStateView,
        after: PlanetStateView,
        generator: Generator,
        combinator: Combinator,
        explorer_id: u32,
    ) -> bool {
        &&& after == before
        &&& next.record().explorers() == self.record().explorers().remove(explorer_id)
        &&& next.record().stats.explorer_departures == bump(self.record().stats.explorer_departures)
    }
}

} // verus!

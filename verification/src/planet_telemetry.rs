//! What a planet reports for observation: counters, cells, and what it
//! generated, the same for every planet type.

use vstd::prelude::*;

use crate::game::messages::{ExplorerToPlanet, PlanetToExplorer};
use crate::game::planet::{count_charged, DummyPlanetState, PlanetState, PlanetStateView};
use crate::game::planet_core::PlanetAI;
use crate::game::resource::{BasicResourceType, Combinator, Generator};
use crate::game::rocket::Rocket;
use crate::game::sunray::Sunray;
use crate::planet_ai::state::{bump, OperationalStats, SkycartelState};

verus! {

/// The counters every planet reports.
#[derive(Debug, Clone, Copy, PartialEq, Eq, Structural)]
pub struct CommonPlanetSnapshot {
    pub energy_cells: usize,
    pub charged_cells: usize,
    pub total_resources_generated: usize,
    pub explorer_arrivals: usize,
    pub explorer_departures: usize,
    pub rockets_built: usize,
    pub asteroids_deflected: usize,
    pub combinations_attempted: usize,
    pub combinations_succeeded: usize,
    pub errors_encountered: usize,
}

/// A snapshot with every counter at zero.
pub open spec fn zero_snapshot() -> CommonPlanetSnapshot {
    CommonPlanetSnapshot {
        energy_cells: 0,
        charged_cells: 0,
        total_resources_generated: 0,
        explorer_arrivals: 0,
        explorer_departures: 0,
        rockets_built: 0,
        asteroids_deflected: 0,
        combinations_attempted: 0,
        combinations_succeeded: 0,
        errors_encountered: 0,
    }
}

impl Default for CommonPlanetSnapshot {
    fn default() -> (s: CommonPlanetSnapshot)
        ensures
            s == zero_snapshot(),
    {
        CommonPlanetSnapshot {
            energy_cells: 0,
            charged_cells: 0,
            total_resources_generated: 0,
            explorer_arrivals: 0,
            explorer_departures: 0,
            rockets_built: 0,
            asteroids_deflected: 0,
            combinations_attempted: 0,
            combinations_succeeded: 0,
            errors_encountered: 0,
        }
    }
}

/// One energy cell as reported: its position (kept to a byte) and charge.
#[derive(Debug, Clone, Copy, PartialEq, Eq, Structural)]
pub struct CellState {
    pub index: u8,
    pub charged: bool,
}

/// One generated resource as reported: its name.
pub struct GenerationEntry {
    pub resource: String,
}

/// The name of a basic resource type, as its variant is written.
pub open spec fn basic_type_name(t: BasicResourceType) -> Seq<char> {
    match t {
        BasicResourceType::Oxygen => "Oxygen"@,
        BasicResourceType::Hydrogen => "Hydrogen"@,
        BasicResourceType::Carbon => "Carbon"@,
        BasicResourceType::Silicon => "Silicon"@,
    }
}

/// The name of a basic resource type, as its variant is written.
pub fn basic_type_label(t: BasicResourceType) -> (s: String)
    ensures
        s@ == basic_type_name(t),
{
    match t {
        BasicResourceType::Oxygen => {
            let s = String::from_str("Oxygen");
            proof { reveal_strlit("Oxygen"); }
            s
        },
        BasicResourceType::Hydrogen => {
            let s = String::from_str("Hydrogen");
            proof { reveal_strlit("Hydrogen"); }
            s
        },
        BasicResourceType::Carbon => {
            let s = String::from_str("Carbon");
            proof { reveal_strlit("Carbon"); }
            s
        },
        BasicResourceType::Silicon => {
            let s = String::from_str("Silicon");
            proof { reveal_strlit("Silicon"); }
            s
        },
    }
}

/// `total` cells, the first `charged` of them charged, each with its
/// position cut to a byte.
pub open spec fn cells_report(total: nat, charged: nat) -> Seq<CellState> {
    Seq::new(total, |i: int| CellState { index: i as u8, charged: i < charged })
}

/// The cells as reported: `total` of them, the first `charged` charged.
pub fn cell_states_of(total: usize, charged: usize) -> (v: Vec<CellState>)
    ensures
        v@ == cells_report(total as nat, charged as nat),
{
    let mut v: Vec<CellState> = Vec::new();
    let mut i: usize = 0;
    while i < total
        invariant
            i <= total,
            v@ == cells_report(i as nat, charged as nat),
        decreases total - i,
    {
        v.push(CellState { index: i as u8, charged: i < charged });
        i = i + 1;
        assert(v@ =~= cells_report(i as nat, charged as nat));
    }
    v
}

/// The generation history as reported: each resource by name, in order.
pub fn generation_entries(history: &Vec<BasicResourceType>) -> (v: Vec<GenerationEntry>)
    ensures
        v@.len() == history@.len(),
        forall|i: int| 0 <= i < history@.len() ==> (#[trigger] v@[i]).resource@ == basic_type_name(history@[i]),
{
    let mut v: Vec<GenerationEntry> = Vec::new();
    let mut i: usize = 0;
    while i < history.len()
        invariant
            i <= history@.len(),
            v@.len() == i,
            forall|j: int| 0 <= j < i ==> (#[trigger] v@[j]).resource@ == basic_type_name(history@[j]),
        decreases history@.len() - i,
    {
        v.push(GenerationEntry { resource: basic_type_label(history[i]) });
        i = i + 1;
    }
    v
}

/// What every planet type reports for observation.
pub trait PlanetTelemetry: Send + Sync {
    /// The counters.
    fn snapshot(&self) -> CommonPlanetSnapshot;

    /// The number of explorers present.
    fn explorer_count(&self) -> usize;

    /// The number of energy cells.
    fn energy_cells(&self) -> usize;

    /// The number of charged energy cells.
    fn charged_cells(&self) -> usize;

    /// Each energy cell.
    fn cell_states(&self) -> Vec<CellState>;

    /// What was generated, in order.
    fn generation_history(&self) -> Vec<GenerationEntry>;
}

/// The telemetry of a Skycartel planet, as captured from its state and its
/// cells: the counters, the number of explorers present, what it
/// generated, and each cell's charge.
pub struct SkycartelTelemetry {
    pub stats: OperationalStats,
    pub explorers: usize,
    pub generation_history: Vec<BasicResourceType>,
    pub cells: DummyPlanetState,
}

impl SkycartelTelemetry {
    /// The telemetry of a Skycartel planet whose record is `state` and
    /// whose cells are `cells`.
    pub fn capture(state: &SkycartelState, cells: DummyPlanetState) -> (t: SkycartelTelemetry)
        ensures
            t.stats == state.stats,
            t.explorers == state.explorers().len(),
            t.generation_history@ == state.generation_history@,
            t.cells == cells,
    {
        SkycartelTelemetry {
            stats: state.stats,
            explorers: state.explorer_count(),
            generation_history: state.generation_history.clone(),
            cells,
        }
    }
}

impl PlanetTelemetry for SkycartelTelemetry {
    fn snapshot(&self) -> (s: CommonPlanetSnapshot)
        ensures
            s == (CommonPlanetSnapshot {
                energy_cells: self.cells.energy_cells@.len() as usize,
                charged_cells: self.cells.charged_cells_count,
                total_resources_generated: self.stats.total_resources_generated,
                explorer_arrivals: self.stats.explorer_arrivals,
                explorer_departures: self.stats.explorer_departures,
                rockets_built: self.stats.rockets_built,
                asteroids_deflected: self.stats.asteroids_deflected,
                combinations_attempted: 0,
                combinations_succeeded: 0,
                errors_encountered: self.stats.errors_encountered,
            }),
    {
        CommonPlanetSnapshot {
            energy_cells: self.cells.energy_cells.len(),
            charged_cells: self.cells.charged_cells_count,
            total_resources_generated: self.stats.total_resources_generated,
            explorer_arrivals: self.stats.explorer_arrivals,
            explorer_departures: self.stats.explorer_departures,
            rockets_built: self.stats.rockets_built,
            asteroids_deflected: self.stats.asteroids_deflected,
            combinations_attempted: 0,
            combinations_succeeded: 0,
            errors_encountered: self.stats.errors_encountered,
        }
    }

    fn explorer_count(&self) -> (n: usize)
        ensures
            n == self.explorers,
    {
        self.explorers
    }

    fn energy_cells(&self) -> (n: usize)
        ensures
            n == self.cells.energy_cells@.len(),
    {
        self.cells.energy_cells.len()
    }

    fn charged_cells(&self) -> (n: usize)
        ensures
            n == self.cells.charged_cells_count,
    {
        self.cells.charged_cells_count
    }

    fn cell_states(&self) -> (v: Vec<CellState>)
        ensures
            v@ == cells_report(self.cells.energy_cells@.len(), self.cells.charged_cells_count as nat),
    {
        cell_states_of(self.cells.energy_cells.len(), self.cells.charged_cells_count)
    }

    fn generation_history(&self) -> (v: Vec<GenerationEntry>)
        ensures
            v@.len() == self.generation_history@.len(),
            forall|i: int| 0 <= i < v@.len() ==> (#[trigger] v@[i]).resource@ == basic_type_name(
                self.generation_history@[i],
            ),
    {
        generation_entries(&self.generation_history)
    }
}

/// Counters kept by [`StatsTrackingAI`] for any planet type.
#[derive(Debug, Clone, Copy, PartialEq, Eq, Structural)]
pub struct SharedPlanetStats {
    pub total_cells: usize,
    pub charged_cells: usize,
    pub total_resources_generated: usize,
    pub explorer_arrivals: usize,
    pub explorer_departures: usize,
    pub rockets_built: usize,
    pub asteroids_deflected: usize,
    pub combinations_attempted: usize,
    pub combinations_succeeded: usize,
    pub errors_encountered: usize,
    pub present_explorers: usize,
}

/// Counters all at zero.
pub open spec fn zero_shared_stats() -> SharedPlanetStats {
    SharedPlanetStats {
        total_cells: 0,
        charged_cells: 0,
        total_resources_generated: 0,
        explorer_arrivals: 0,
        explorer_departures: 0,
        rockets_built: 0,
        asteroids_deflected: 0,
        combinations_attempted: 0,
        combinations_succeeded: 0,
        errors_encountered: 0,
        present_explorers: 0,
    }
}

impl Default for SharedPlanetStats {
    fn default() -> (s: SharedPlanetStats)
        ensures
            s == zero_shared_stats(),
    {
        SharedPlanetStats {
            total_cells: 0,
            charged_cells: 0,
            total_resources_generated: 0,
            explorer_arrivals: 0,
            explorer_departures: 0,
            rockets_built: 0,
            asteroids_deflected: 0,
            combinations_attempted: 0,
            combinations_succeeded: 0,
            errors_encountered: 0,
            present_explorers: 0,
        }
    }
}

/// The snapshot made of a set of counters.
pub open spec fn snapshot_of(s: SharedPlanetStats) -> CommonPlanetSnapshot {
    CommonPlanetSnapshot {
        energy_cells: s.total_cells,
        charged_cells: s.charged_cells,
        total_resources_generated: s.total_resources_generated,
        explorer_arrivals: s.explorer_arrivals,
        explorer_departures: s.explorer_departures,
        rockets_built: s.rockets_built,
        asteroids_deflected: s.asteroids_deflected,
        combinations_attempted: s.combinations_attempted,
        combinations_succeeded: s.combinations_succeeded,
        errors_encountered: s.errors_encountered,
    }
}

/// Telemetry read from [`SharedPlanetStats`].
pub struct GenericPlanetTelemetry {
    pub stats: SharedPlanetStats,
}

impl PlanetTelemetry for GenericPlanetTelemetry {
    fn snapshot(&self) -> (s: CommonPlanetSnapshot)
        ensures
            s == snapshot_of(self.stats),
    {
        let s = self.stats;
        CommonPlanetSnapshot {
            energy_cells: s.total_cells,
            charged_cells: s.charged_cells,
            total_resources_generated: s.total_resources_generated,
            explorer_arrivals: s.explorer_arrivals,
            explorer_departures: s.explorer_departures,
            rockets_built: s.rockets_built,
            asteroids_deflected: s.asteroids_deflected,
            combinations_attempted: s.combinations_attempted,
            combinations_succeeded: s.combinations_succeeded,
            errors_encountered: s.errors_encountered,
        }
    }

    fn explorer_count(&self) -> (n: usize)
        ensures
            n == self.stats.present_explorers,
    {
        self.stats.present_explorers
    }

    fn energy_cells(&self) -> (n: usize)
        ensures
            n == self.stats.total_cells,
    {
        self.stats.total_cells
    }

    fn charged_cells(&self) -> (n: usize)
        ensures
            n == self.stats.charged_cells,
    {
        self.stats.charged_cells
    }

    fn cell_states(&self) -> (v: Vec<CellState>)
        ensures
            v@ == cells_report(self.stats.total_cells as nat, self.stats.charged_cells as nat),
    {
        cell_states_of(self.stats.total_cells, self.stats.charged_cells)
    }

    fn generation_history(&self) -> (v: Vec<GenerationEntry>)
        ensures
            v@.len() == 0,
    {
        Vec::new()
    }
}

/// A planet behaviour wrapped so that what it does is counted in
/// [`SharedPlanetStats`]; the wrapped behaviour decides everything.
pub struct StatsTrackingAI<Inner> {
    pub inner: Inner,
    pub stats: SharedPlanetStats,
}

/// `x - 1`, held at zero.
pub open spec fn drop_one(x: usize) -> usize {
    if x > 0 { (x - 1) as usize } else { 0 }
}

impl<Inner: PlanetAI> PlanetAI for StatsTrackingAI<Inner> {
    /// The wrapped handler runs; then the cell counters show the state's
    /// cells.
    fn handle_sunray(
        &mut self,
        state: &mut PlanetState,
        generator: &Generator,
        combinator: &Combinator,
        sunray: Sunray,
    )
    {
        self.inner.handle_sunray(state, generator, combinator, sunray);
        let d = state.to_dummy();
        self.stats.total_cells = d.energy_cells.len();
        self.stats.charged_cells = d.charged_cells_count;
    }

    /// The wrapped handler answers; a rocket returned counts a deflection
    /// and a rocket built.
    fn handle_asteroid(&mut self, state: &mut PlanetState, generator: &Generator, combinator: &Combinator) -> (rocket: Option<Rocket>)
    {
        let rocket = self.inner.handle_asteroid(state, generator, combinator);
        if rocket.is_some() {
            self.stats.asteroids_deflected = self.stats.asteroids_deflected.saturating_add(1);
            self.stats.rockets_built = self.stats.rockets_built.saturating_add(1);
        }
        rocket
    }

    /// The wrapped handler answers; nothing is counted.
    fn handle_internal_state_req(&mut self, state: &mut PlanetState, generator: &Generator, combinator: &Combinator) -> (overview: DummyPlanetState)
    {
        self.inner.handle_internal_state_req(state, generator, combinator)
    }

    /// The wrapped handler answers. A generated unit answered to a
    /// generation request counts one resource generated; any answer to a
    /// combination request counts an attempt, and a success when the answer
    /// is a combined unit.
    fn handle_explorer_msg(
        &mut self,
        state: &mut PlanetState,
        generator: &Generator,
        combinator: &Combinator,
        msg: ExplorerToPlanet,
    ) -> (answer: Option<PlanetToExplorer>)
    {
        let is_generate = match msg {
            ExplorerToPlanet::GenerateResourceRequest { .. } => true,
            _ => false,
        };
        let is_combine = match msg {
            ExplorerToPlanet::CombineResourceRequest { .. } => true,
            _ => false,
        };
        let response = self.inner.handle_explorer_msg(state, generator, combinator, msg);
        match &response {
            Some(resp) => {
                if is_generate {
                    match resp {
                        PlanetToExplorer::GenerateResourceResponse { resource: Some(_) } => {
                            self.stats.total_resources_generated = self.stats.total_resources_generated.saturating_add(1);
                        },
                        _ => {},
                    }
                } else if is_combine {
                    match resp {
                        PlanetToExplorer::CombineResourceResponse { complex_response } => {
                            self.stats.combinations_attempted = self.stats.combinations_attempted.saturating_add(1);
                            if complex_response.is_ok() {
                                self.stats.combinations_succeeded = self.stats.combinations_succeeded.saturating_add(1);
                            }
                        },
                        _ => {},
                    }
                }
            },
            None => {},
        }
        response
    }

    /// An arrival counts an arrival and one more explorer present; then the
    /// wrapped behaviour is told.
    fn on_explorer_arrival(&mut self, state: &mut PlanetState, generator: &Generator, combinator: &Combinator, explorer_id: u32)
    {
        self.stats.explorer_arrivals = self.stats.explorer_arrivals.saturating_add(1);
        self.stats.present_explorers = self.stats.present_explorers.saturating_add(1);
        self.inner.on_explorer_arrival(state, generator, combinator, explorer_id);
    }

    /// A departure counts a departure and one explorer fewer present (never
    /// below zero); then the wrapped behaviour is told.
    fn on_explorer_departure(&mut self, state: &mut PlanetState, generator: &Generator, combinator: &Combinator, explorer_id: u32)
    {
        self.stats.explorer_departures = self.stats.explorer_departures.saturating_add(1);
        self.stats.present_explorers = self.stats.present_explorers.saturating_sub(1);
        self.inner.on_explorer_departure(state, generator, combinator, explorer_id);
    }

    /// The wrapped behaviour starts; nothing is counted.
    fn on_start(&mut self, state: &PlanetState, generator: &Generator, combinator: &Combinator) {
        self.inner.on_start(state, generator, combinator);
    }

    /// The wrapped behaviour stops; nothing is counted.
    fn on_stop(&mut self, state: &PlanetState, generator: &Generator, combinator: &Combinator) {
        self.inner.on_stop(state, generator, combinator);
    }

    open spec fn sunray_effect(
        &self,
        next: Self,
        before: PlanetStateView,
        after: PlanetStateView,
        generator: Generator,
        combinator: Combinator,
        sunray: Sunray,
    ) -> bool {
        &&& self.inner.sunray_effect(next.inner, before, after, generator, combinator, sunray)
        &&& next.stats == (SharedPlanetStats {
            total_cells: after.cells.len() as usize,
            charged_cells: count_charged(after.cells) as usize,
            ..self.stats
        })
    }

    open spec fn arrival_effect(
        &self,
        next: Self,
        before: PlanetStateView,
        after: PlanetStateView,
        generator: Generator,
        combinator: Combinator,
        explorer_id: u32,
    ) -> bool {
        &&& self.inner.arrival_effect(next.inner, before, after, generator, combinator, explorer_id)
        &&& next.stats == (SharedPlanetStats {
            explorer_arrivals: bump(self.stats.explorer_arrivals),
            present_explorers: bump(self.stats.present_explorers),
            ..self.stats
        })
    }

    open spec fn departure_effect(
        &self,
        next: Self,
        before: PlanetStateView,
        after: PlanetStateView,
        generator: Generator,
        combinator: Combinator,
        explorer_id: u32,
    ) -> bool {
        &&& self.inner.departure_effect(next.inner, before, after, generator, combinator, explorer_id)
        &&& next.stats == (SharedPlanetStats {
            explorer_departures: bump(self.stats.explorer_departures),
            present_explorers: drop_one(self.stats.present_explorers),
            ..self.stats
        })
    }

    open spec fn asteroid_effect(
        &self,
        next: Self,
        before: PlanetStateView,
        after: PlanetStateView,
        generator: Generator,
        combinator: Combinator,
        rocket: Option<Rocket>,
    ) -> bool {
        &&& self.inner.asteroid_effect(next.inner, before, after, generator, combinator, rocket)
        &&& next.stats == (if rocket is Some {
            SharedPlanetStats {
                asteroids_deflected: bump(self.stats.asteroids_deflected),
                rockets_built: bump(self.stats.rockets_built),
                ..self.stats
            }
        } else {
            self.stats
        })
    }

    open spec fn overview_effect(
        &self,
        next: Self,
        before: PlanetStateView,
        after: PlanetStateView,
        generator: Generator,
        combinator: Combinator,
        overview: DummyPlanetState,
    ) -> bool {
        &&& self.inner.overview_effect(next.inner, before, after, generator, combinator, overview)
        &&& next.stats == self.stats
    }

    open spec fn explorer_effect(
        &self,
        next: Self,
        before: PlanetStateView,
        after: PlanetStateView,
        generator: Generator,
        combinator: Combinator,
        msg: ExplorerToPlanet,
        answer: Option<PlanetToExplorer>,
    ) -> bool {
        &&& self.inner.explorer_effect(next.inner, before, after, generator, combinator, msg, answer)
        &&& next.stats == (match (msg, answer) {
            (
                ExplorerToPlanet::GenerateResourceRequest { .. },
                Some(PlanetToExplorer::GenerateResourceResponse { resource: Some(_) }),
            ) => SharedPlanetStats {
                total_resources_generated: bump(self.stats.total_resources_generated),
                ..self.stats
            },
            (
                ExplorerToPlanet::CombineResourceRequest { .. },
                Some(PlanetToExplorer::CombineResourceResponse { complex_response }),
            ) => SharedPlanetStats {
                combinations_attempted: bump(self.stats.combinations_attempted),
                combinations_succeeded: if complex_response is Ok {
                    bump(self.stats.combinations_succeeded)
                } else {
                    self.stats.combinations_succeeded
                },
                ..self.stats
            },
            _ => self.stats,
        })
    }

    open spec fn start_effect(
        &self,
        next: Self,
        state: PlanetStateView,
        generator: Generator,
        combinator: Combinator,
    ) -> bool {
        &&& self.inner.start_effect(next.inner, state, generator, combinator)
        &&& next.stats == self.stats
    }

    open spec fn stop_effect(
        &self,
        next: Self,
        state: PlanetStateView,
        generator: Generator,
        combinator: Combinator,
    ) -> bool {
        &&& self.inner.stop_effect(next.inner, state, generator, combinator)
        &&& next.stats == self.stats
    }
}

} // verus!

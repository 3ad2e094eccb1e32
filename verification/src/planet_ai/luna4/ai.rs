use vstd::prelude::*;

use crate::game::messages::{ExplorerToPlanet, PlanetToExplorer};
use crate::game::planet::{
    DummyPlanetState, PlanetState, PlanetStateView, count_charged, has_with, is_first_with, keeps_cells_frame,
};
use crate::game::planet_core::PlanetAI;
use crate::game::resource::{
    BasicResourceType, Combinator, ComplexResourceType, Generator, basic_of, request_ingredients,
    to_generic_pair,
};
use crate::game::rocket::Rocket;
use crate::game::sunray::Sunray;
use crate::planet_ai::state::bump;

verus! {

/// The eight phases of the moon, in order.
#[derive(Debug, Clone, Copy, PartialEq, Eq, Structural)]
pub enum Luna4Phase {
    NewMoon,
    WaxingCrescent,
    FirstQuarter,
    WaxingGibbous,
    FullMoon,
    WaningGibbous,
    LastQuarter,
    WaningCrescent,
}

/// The phase after `p`; after the waning crescent comes the new moon.
pub open spec fn next_phase(p: Luna4Phase) -> Luna4Phase {
    match p {
        Luna4Phase::NewMoon => Luna4Phase::WaxingCrescent,
        Luna4Phase::WaxingCrescent => Luna4Phase::FirstQuarter,
        Luna4Phase::FirstQuarter => Luna4Phase::WaxingGibbous,
        Luna4Phase::WaxingGibbous => Luna4Phase::FullMoon,
        Luna4Phase::FullMoon => Luna4Phase::WaningGibbous,
        Luna4Phase::WaningGibbous => Luna4Phase::LastQuarter,
        Luna4Phase::LastQuarter => Luna4Phase::WaningCrescent,
        Luna4Phase::WaningCrescent => Luna4Phase::NewMoon,
    }
}

/// The phase `n` steps after `p`.
pub open spec fn advance(p: Luna4Phase, n: nat) -> Luna4Phase
    decreases n,
{
    if n == 0 { p } else { advance(next_phase(p), (n - 1) as nat) }
}

/// The basic resources Luna4 generates in phase `p`: none at the new moon,
/// then hydrogen, carbon, oxygen and silicon as the moon waxes, and back.
pub open spec fn phase_resources(p: Luna4Phase) -> Seq<BasicResourceType> {
    match p {
        Luna4Phase::NewMoon => seq![],
        Luna4Phase::WaxingCrescent => seq![BasicResourceType::Hydrogen],
        Luna4Phase::FirstQuarter => seq![BasicResourceType::Hydrogen, BasicResourceType::Carbon],
        Luna4Phase::WaxingGibbous => seq![BasicResourceType::Hydrogen, BasicResourceType::Carbon, BasicResourceType::Oxygen],
        Luna4Phase::FullMoon => seq![
            BasicResourceType::Hydrogen,
            BasicResourceType::Carbon,
            BasicResourceType::Oxygen,
            BasicResourceType::Silicon,
        ],
        Luna4Phase::WaningGibbous => seq![BasicResourceType::Hydrogen, BasicResourceType::Carbon, BasicResourceType::Oxygen],
        Luna4Phase::LastQuarter => seq![BasicResourceType::Hydrogen, BasicResourceType::Carbon],
        Luna4Phase::WaningCrescent => seq![BasicResourceType::Hydrogen],
    }
}

/// The name a phase is shown with.
pub open spec fn phase_name(p: Luna4Phase) -> Seq<char> {
    match p {
        Luna4Phase::NewMoon => "NewMoon"@,
        Luna4Phase::WaxingCrescent => "WaxingCrescent"@,
        Luna4Phase::FirstQuarter => "FirstQuarter"@,
        Luna4Phase::WaxingGibbous => "WaxingGibbous"@,
        Luna4Phase::FullMoon => "FullMoon"@,
        Luna4Phase::WaningGibbous => "WaningGibbous"@,
        Luna4Phase::LastQuarter => "LastQuarter"@,
        Luna4Phase::WaningCrescent => "WaningCrescent"@,
    }
}

/// The moon goes round: eight steps bring any phase back to itself.
pub proof fn lemma_phase_cycle(p: Luna4Phase)
    ensures
        advance(p, 8) == p,
{
    reveal_with_fuel(advance, 9);
}

/// The full moon comes round within eight phases of any phase.
pub proof fn lemma_full_moon_within_a_cycle(p: Luna4Phase) -> (k: nat)
    ensures
        k < 8,
        advance(p, k) == Luna4Phase::FullMoon,
{
    reveal_with_fuel(advance, 9);
    match p {
        Luna4Phase::NewMoon => 4,
        Luna4Phase::WaxingCrescent => 3,
        Luna4Phase::FirstQuarter => 2,
        Luna4Phase::WaxingGibbous => 1,
        Luna4Phase::FullMoon => 0,
        Luna4Phase::WaningGibbous => 7,
        Luna4Phase::LastQuarter => 6,
        Luna4Phase::WaningCrescent => 5,
    }
}

/// Nothing is out of Luna4's reach for long: from any phase, every basic
/// resource is generated in one of the next eight phases.
pub proof fn lemma_every_basic_within_a_cycle(p: Luna4Phase, b: BasicResourceType)
    ensures
        exists|k: nat| k < 8 && #[trigger] phase_resources(advance(p, k)).contains(b),
{
    let k = lemma_full_moon_within_a_cycle(p);
    let full = phase_resources(Luna4Phase::FullMoon);
    match b {
        BasicResourceType::Hydrogen => assert(full[0] == b),
        BasicResourceType::Carbon => assert(full[1] == b),
        BasicResourceType::Oxygen => assert(full[2] == b),
        BasicResourceType::Silicon => assert(full[3] == b),
    }
    assert(phase_resources(advance(p, k)).contains(b));
}

/// The offer follows the light: `k` phases after the new moon Luna4 offers
/// as many resources as the moon is lit quarters, one more each waxing step
/// and one fewer each waning step, the same on the way down as on the way
/// up, each resource at most once.
pub proof fn lemma_offer_follows_the_light(k: nat)
    requires
        k <= 8,
    ensures
        phase_resources(advance(Luna4Phase::NewMoon, k)).len() == (if k <= 4 { k } else { (8 - k) as nat }),
        phase_resources(advance(Luna4Phase::NewMoon, k)) == phase_resources(advance(Luna4Phase::NewMoon, (8 - k) as nat)),
        phase_resources(advance(Luna4Phase::NewMoon, k)).no_duplicates(),
        k < 4 ==> phase_resources(advance(Luna4Phase::NewMoon, k)).is_prefix_of(
            phase_resources(advance(Luna4Phase::NewMoon, k + 1)),
        ),
{
    reveal_with_fuel(advance, 9);
    let s = phase_resources(advance(Luna4Phase::NewMoon, k));
    assert(s.no_duplicates()) by {
        assert forall|i: int, j: int| 0 <= i < j < s.len() implies s[i] != s[j] by {}
    }
    if k < 4 {
        let t = phase_resources(advance(Luna4Phase::NewMoon, k + 1));
        assert(s =~= t.subrange(0, s.len() as int));
    }
}

/// Luna4's counters.
#[derive(Debug, Clone, Copy, PartialEq, Eq, Structural)]
pub struct Luna4Stats {
    pub successful_generations: usize,
    pub failed_generations: usize,
    pub failed_combinations: usize,
    pub sunrays_received: usize,
    pub explorer_messages_processed: usize,
}

/// Luna4's counters, all at zero.
pub open spec fn zero_luna4_stats() -> Luna4Stats {
    Luna4Stats {
        successful_generations: 0,
        failed_generations: 0,
        failed_combinations: 0,
        sunrays_received: 0,
        explorer_messages_processed: 0,
    }
}

impl Luna4Stats {
    /// All counters at zero.
    pub fn new() -> (s: Luna4Stats)
        ensures
            s == zero_luna4_stats(),
    {
        Luna4Stats {
            successful_generations: 0,
            failed_generations: 0,
            failed_combinations: 0,
            sunrays_received: 0,
            explorer_messages_processed: 0,
        }
    }

    pub fn record_successful_generation(&mut self)
        ensures
            *final(self) == (Luna4Stats { successful_generations: bump(old(self).successful_generations), ..*old(self) }),
    {
        self.successful_generations = self.successful_generations.saturating_add(1);
    }

    pub fn record_failed_generation(&mut self)
        ensures
            *final(self) == (Luna4Stats { failed_generations: bump(old(self).failed_generations), ..*old(self) }),
    {
        self.failed_generations = self.failed_generations.saturating_add(1);
    }

    pub fn record_failed_combination(&mut self)
        ensures
            *final(self) == (Luna4Stats { failed_combinations: bump(old(self).failed_combinations), ..*old(self) }),
    {
        self.failed_combinations = self.failed_combinations.saturating_add(1);
    }

    pub fn record_sunray_received(&mut self)
        ensures
            *final(self) == (Luna4Stats { sunrays_received: bump(old(self).sunrays_received), ..*old(self) }),
    {
        self.sunrays_received = self.sunrays_received.saturating_add(1);
    }

    pub fn record_explorer_message_processed(&mut self)
        ensures
            *final(self) == (Luna4Stats {
                explorer_messages_processed: bump(old(self).explorer_messages_processed),
                ..*old(self)
            }),
    {
        self.explorer_messages_processed = self.explorer_messages_processed.saturating_add(1);
    }
}

impl Default for Luna4Stats {
    fn default() -> (s: Luna4Stats)
        ensures
            s == zero_luna4_stats(),
    {
        Luna4Stats::new()
    }
}

/// What Luna4 offers now: its phase by name and the resources of it.
pub struct AvailableResources {
    pub current_phase: String,
    pub basic_resources: Vec<BasicResourceType>,
    pub complex_resources: Vec<ComplexResourceType>,
}

/// `x`, held at `u32::MAX`.
pub open spec fn clamp_u32(x: nat) -> u32 {
    if x < u32::MAX { x as u32 } else { u32::MAX }
}

/// The message Luna4 refuses combinations with.
pub open spec fn luna4_no_combination_message() -> Seq<char> {
    "Luna4 (Type D) does not support resource combination"@
}

/// Luna4's behaviour: every event moves the moon one phase on, and the
/// phase decides which basic resources can be generated. It builds no
/// rockets and combines nothing.
pub struct Luna4AI {
    id: u32,
    phase: Luna4Phase,
    stats: Luna4Stats,
}

impl Luna4AI {
    pub closed spec fn spec_id(&self) -> u32 {
        self.id
    }

    pub closed spec fn spec_phase(&self) -> Luna4Phase {
        self.phase
    }

    pub closed spec fn spec_stats(&self) -> Luna4Stats {
        self.stats
    }

    /// A new moon cycle starts at the waxing crescent.
    pub fn new(id: u32) -> (ai: Luna4AI)
        ensures
            ai.spec_id() == id,
            ai.spec_phase() == Luna4Phase::WaxingCrescent,
            ai.spec_stats() == zero_luna4_stats(),
    {
        Luna4AI { id, phase: Luna4Phase::WaxingCrescent, stats: Luna4Stats::new() }
    }

    pub fn phase(&self) -> (p: Luna4Phase)
        ensures
            p == self.spec_phase(),
    {
        self.phase
    }

    pub fn stats(&self) -> (s: Luna4Stats)
        ensures
            s == self.spec_stats(),
    {
        self.stats
    }

    /// The phase and the basic resources it allows.
    pub fn get_current_resources(&self) -> (r: AvailableResources)
        ensures
            r.current_phase@ == phase_name(self.spec_phase()),
            r.basic_resources@ == phase_resources(self.spec_phase()),
            r.complex_resources@ == Seq::<ComplexResourceType>::empty(),
    {
        AvailableResources {
            current_phase: phase_label(self.phase),
            basic_resources: self.get_available_basic(),
            complex_resources: Vec::new(),
        }
    }

    /// The basic resources of the current phase.
    pub fn get_available_basic(&self) -> (v: Vec<BasicResourceType>)
        ensures
            v@ == phase_resources(self.spec_phase()),
    {
        let mut v = Vec::new();
        match self.phase {
            Luna4Phase::NewMoon => {},
            Luna4Phase::WaxingCrescent | Luna4Phase::WaningCrescent => {
                v.push(BasicResourceType::Hydrogen);
            },
            Luna4Phase::FirstQuarter | Luna4Phase::LastQuarter => {
                v.push(BasicResourceType::Hydrogen);
                v.push(BasicResourceType::Carbon);
            },
            Luna4Phase::WaxingGibbous | Luna4Phase::WaningGibbous => {
                v.push(BasicResourceType::Hydrogen);
                v.push(BasicResourceType::Carbon);
                v.push(BasicResourceType::Oxygen);
            },
            Luna4Phase::FullMoon => {
                v.push(BasicResourceType::Hydrogen);
                v.push(BasicResourceType::Carbon);
                v.push(BasicResourceType::Oxygen);
                v.push(BasicResourceType::Silicon);
            },
        }
        assert(v@ =~= phase_resources(self.phase));
        v
    }

    /// Moves the moon one phase on.
    pub fn update_phase(&mut self)
        ensures
            final(self).spec_phase() == next_phase(old(self).spec_phase()),
            final(self).spec_id() == old(self).spec_id(),
            final(self).spec_stats() == old(self).spec_stats(),
    {
        self.phase = match self.phase {
            Luna4Phase::NewMoon => Luna4Phase::WaxingCrescent,
            Luna4Phase::WaxingCrescent => Luna4Phase::FirstQuarter,
            Luna4Phase::FirstQuarter => Luna4Phase::WaxingGibbous,
            Luna4Phase::WaxingGibbous => Luna4Phase::FullMoon,
            Luna4Phase::FullMoon => Luna4Phase::WaningGibbous,
            Luna4Phase::WaningGibbous => Luna4Phase::LastQuarter,
            Luna4Phase::LastQuarter => Luna4Phase::WaningCrescent,
            Luna4Phase::WaningCrescent => Luna4Phase::NewMoon,
        };
    }

    fn contains_resource(v: &Vec<BasicResourceType>, r: BasicResourceType) -> (b: bool)
        ensures
            b == v@.contains(r),
    {
        let mut i: usize = 0;
        while i < v.len()
            invariant
                i <= v@.len(),
                forall|j: int| 0 <= j < i ==> v@[j] != r,
            decreases v@.len() - i,
        {
            if v[i] == r {
                return true;
            }
            i = i + 1;
        }
        false
    }

    fn count_charged_cells(state: &PlanetState) -> (n: u32)
        ensures
            n == clamp_u32(count_charged(state@.cells)),
    {
        let mut n: u32 = 0;
        let mut i: usize = 0;
        while i < state.cells_count()
            invariant
                i <= state@.cells.len(),
                n == clamp_u32(count_charged(state@.cells.take(i as int))),
            decreases state@.cells.len() - i,
        {
            assert(state@.cells.take(i as int + 1).drop_last() =~= state@.cells.take(i as int));
            if state.cell(i).is_charged() {
                n = n.saturating_add(1);
            }
            i = i + 1;
        }
        assert(state@.cells.take(i as int) =~= state@.cells);
        n
    }
}

fn phase_label(p: Luna4Phase) -> (s: String)
    ensures
        s@ == phase_name(p),
{
    match p {
        Luna4Phase::NewMoon => String::from_str("NewMoon"),
        Luna4Phase::WaxingCrescent => String::from_str("WaxingCrescent"),
        Luna4Phase::FirstQuarter => String::from_str("FirstQuarter"),
        Luna4Phase::WaxingGibbous => String::from_str("WaxingGibbous"),
        Luna4Phase::FullMoon => String::from_str("FullMoon"),
        Luna4Phase::WaningGibbous => String::from_str("WaningGibbous"),
        Luna4Phase::LastQuarter => String::from_str("LastQuarter"),
        Luna4Phase::WaningCrescent => String::from_str("WaningCrescent"),
    }
}

impl Luna4AI {
    /// The answer to an explorer's request; every request advances the
    /// phase and is counted.
    fn answer_explorer(
        &mut self,
        state: &mut PlanetState,
        generator: &Generator,
        _combinator: &Combinator,
        msg: ExplorerToPlanet,
    ) -> (answer: Option<PlanetToExplorer>)
        ensures
            keeps_cells_frame(old(state)@, final(state)@),
            final(self).spec_phase() == next_phase(old(self).spec_phase()),
            final(self).spec_id() == old(self).spec_id(),
            final(self).spec_stats().explorer_messages_processed == bump(old(self).spec_stats().explorer_messages_processed),
            final(self).spec_stats().sunrays_received == old(self).spec_stats().sunrays_received,
            ({
                let s0 = old(self).spec_stats();
                let s1 = final(self).spec_stats();
                let phase = next_phase(old(self).spec_phase());
                let cells = old(state)@.cells;
                match msg {
                    ExplorerToPlanet::SupportedResourceRequest { .. } => answer matches Some(
                        PlanetToExplorer::SupportedResourceResponse { resource_list },
                    ) && resource_list@ == generator@ && final(state)@ == old(state)@
                        && s1.successful_generations == s0.successful_generations
                        && s1.failed_generations == s0.failed_generations
                        && s1.failed_combinations == s0.failed_combinations,
                    ExplorerToPlanet::SupportedCombinationRequest { .. } => answer matches Some(
                        PlanetToExplorer::SupportedCombinationResponse { combination_list },
                    ) && combination_list@ == Seq::<ComplexResourceType>::empty() && final(state)@ == old(state)@
                        && s1.successful_generations == s0.successful_generations
                        && s1.failed_generations == s0.failed_generations
                        && s1.failed_combinations == s0.failed_combinations,
                    ExplorerToPlanet::AvailableEnergyCellRequest { .. } => answer == Some(
                        PlanetToExplorer::AvailableEnergyCellResponse { available_cells: clamp_u32(count_charged(cells)) },
                    ) && final(state)@ == old(state)@
                        && s1.successful_generations == s0.successful_generations
                        && s1.failed_generations == s0.failed_generations
                        && s1.failed_combinations == s0.failed_combinations,
                    ExplorerToPlanet::CombineResourceRequest { msg: req, .. } => answer matches Some(
                        PlanetToExplorer::CombineResourceResponse { complex_response: Err(e) },
                    ) && e.0@ == luna4_no_combination_message() && (e.1, e.2) == request_ingredients(req)
                        && final(state)@ == old(state)@
                        && s1.successful_generations == s0.successful_generations
                        && s1.failed_generations == s0.failed_generations
                        && s1.failed_combinations == bump(s0.failed_combinations),
                    ExplorerToPlanet::GenerateResourceRequest { resource, .. } => {
                        &&& s1.failed_combinations == s0.failed_combinations
                        &&& if !phase_resources(phase).contains(resource) || !has_with(cells, true)
                            || !generator@.contains(resource) {
                            &&& answer == Some(PlanetToExplorer::GenerateResourceResponse { resource: None })
                            &&& final(state)@.cells == cells
                            &&& s1.failed_generations == bump(s0.failed_generations)
                            &&& s1.successful_generations == s0.successful_generations
                        } else {
                            &&& answer == Some(PlanetToExplorer::GenerateResourceResponse { resource: Some(basic_of(resource)) })
                            &&& exists|i: int| is_first_with(cells, true, i) && final(state)@.cells == cells.update(i, false)
                            &&& s1.successful_generations == bump(s0.successful_generations)
                            &&& s1.failed_generations == s0.failed_generations
                        }
                    },
                }
            }),
    {
        self.stats.record_explorer_message_processed();
        self.update_phase();
        match msg {
            ExplorerToPlanet::SupportedResourceRequest { explorer_id: _ } => {
                Some(PlanetToExplorer::SupportedResourceResponse { resource_list: generator.all_available_recipes() })
            },
            ExplorerToPlanet::SupportedCombinationRequest { explorer_id: _ } => {
                Some(PlanetToExplorer::SupportedCombinationResponse { combination_list: Vec::new() })
            },
            ExplorerToPlanet::GenerateResourceRequest { explorer_id: _, resource } => {
                let available = self.get_available_basic();
                if !Self::contains_resource(&available, resource) {
                    self.stats.record_failed_generation();
                    return Some(PlanetToExplorer::GenerateResourceResponse { resource: None });
                }
                match state.full_cell() {
                    Some((cell, _)) => match generator.try_make(resource, cell) {
                        Ok(generated) => {
                            self.stats.record_successful_generation();
                            Some(PlanetToExplorer::GenerateResourceResponse { resource: Some(generated) })
                        },
                        Err(_) => {
                            self.stats.record_failed_generation();
                            Some(PlanetToExplorer::GenerateResourceResponse { resource: None })
                        },
                    },
                    None => {
                        self.stats.record_failed_generation();
                        Some(PlanetToExplorer::GenerateResourceResponse { resource: None })
                    },
                }
            },
            ExplorerToPlanet::CombineResourceRequest { explorer_id: _, msg } => {
                self.stats.record_failed_combination();
                let (res1, res2) = to_generic_pair(msg);
                Some(PlanetToExplorer::CombineResourceResponse {
                    complex_response: Err((
                        String::from_str("Luna4 (Type D) does not support resource combination"),
                        res1,
                        res2,
                    )),
                })
            },
            ExplorerToPlanet::AvailableEnergyCellRequest { explorer_id: _ } => {
                Some(PlanetToExplorer::AvailableEnergyCellResponse { available_cells: Self::count_charged_cells(state) })
            },
        }
    }
}

impl PlanetAI for Luna4AI {
    /// Counts the sunray, moves the moon on, and charges the first empty
    /// cell.
    fn handle_sunray(
        &mut self,
        state: &mut PlanetState,
        _generator: &Generator,
        _combinator: &Combinator,
        sunray: Sunray,
    )
    {
        self.stats.record_sunray_received();
        self.update_phase();
        state.charge_cell(sunray);
    }

    /// Moves the moon on; a type D planet has no rocket.
    fn handle_asteroid(
        &mut self,
        state: &mut PlanetState,
        _generator: &Generator,
        _combinator: &Combinator,
    ) -> (rocket: Option<Rocket>)
    {
        self.update_phase();
        None
    }

    /// Moves the moon on and reports the state.
    fn handle_internal_state_req(
        &mut self,
        state: &mut PlanetState,
        _generator: &Generator,
        _combinator: &Combinator,
    ) -> (overview: DummyPlanetState)
    {
        self.update_phase();
        state.to_dummy()
    }

    /// Counts the request, moves the moon on, then answers it in the new
    /// phase.
    fn handle_explorer_msg(
        &mut self,
        state: &mut PlanetState,
        generator: &Generator,
        combinator: &Combinator,
        msg: ExplorerToPlanet,
    ) -> (answer: Option<PlanetToExplorer>) {
        Luna4AI::answer_explorer(self, state, generator, combinator, msg)
    }

    /// Counts the arrival as a processed message.
    fn on_explorer_arrival(
        &mut self,
        state: &mut PlanetState,
        _generator: &Generator,
        _combinator: &Combinator,
        _explorer_id: u32,
    )
    {
        self.stats.record_explorer_message_processed();
    }

    fn on_explorer_departure(
        &mut self,
        _state: &mut PlanetState,
        _generator: &Generator,
        _combinator: &Combinator,
        _explorer_id: u32,
    )
    {
    }

    fn on_start(&mut self, _state: &PlanetState, _generator: &Generator, _combinator: &Combinator)
    {
    }

    fn on_stop(&mut self, _state: &PlanetState, _generator: &Generator, _combinator: &Combinator)
    {
    }

    open spec fn asteroid_effect(
        &self,
        next: Self,
        before: PlanetStateView,
        after: PlanetStateView,
        generator: Generator,
        combinator: Combinator,
        rocket: Option<Rocket>,
    ) -> bool {
        &&& rocket is None
        &&& after == before
        &&& next.spec_phase() == next_phase(self.spec_phase())
        &&& next.spec_stats() == self.spec_stats()
        &&& next.spec_id() == self.spec_id()
    }

    open spec fn overview_effect(
        &self,
        next: Self,
        before: PlanetStateView,
        after: PlanetStateView,
        generator: Generator,
        combinator: Combinator,
        overview: DummyPlanetState,
    ) -> bool {
        &&& after == before
        &&& overview.energy_cells@ == before.cells
        &&& overview.charged_cells_count == count_charged(before.cells)
        &&& overview.has_rocket == before.has_rocket
        &&& next.spec_phase() == next_phase(self.spec_phase())
        &&& next.spec_stats() == self.spec_stats()
        &&& next.spec_id() == self.spec_id()
    }

    open spec fn explorer_effect(
        &self,
        next: Self,
        before: PlanetStateView,
        after: PlanetStateView,
        generator: Generator,
        combinator: Combinator,
        msg: ExplorerToPlanet,
        answer: Option<PlanetToExplorer>,
    ) -> bool {
        &&& keeps_cells_frame(before, after)
        &&& next.spec_phase() == next_phase(self.spec_phase())
        &&& next.spec_id() == self.spec_id()
        &&& next.spec_stats().explorer_messages_processed == bump(self.spec_stats().explorer_messages_processed)
        &&& next.spec_stats().sunrays_received == self.spec_stats().sunrays_received
        &&& ({
            let s0 = self.spec_stats();
            let s1 = next.spec_stats();
            let phase = next_phase(self.spec_phase());
            let cells = before.cells;
            match msg {
                ExplorerToPlanet::SupportedResourceRequest { .. } => answer matches Some(
                    PlanetToExplorer::SupportedResourceResponse { resource_list },
                ) && resource_list@ == generator@ && after == before
                    && s1.successful_generations == s0.successful_generations
                    && s1.failed_generations == s0.failed_generations
                    && s1.failed_combinations == s0.failed_combinations,
                ExplorerToPlanet::SupportedCombinationRequest { .. } => answer matches Some(
                    PlanetToExplorer::SupportedCombinationResponse { combination_list },
                ) && combination_list@ == Seq::<ComplexResourceType>::empty() && after == before
                    && s1.successful_generations == s0.successful_generations
                    && s1.failed_generations == s0.failed_generations
                    && s1.failed_combinations == s0.failed_combinations,
                ExplorerToPlanet::AvailableEnergyCellRequest { .. } => answer == Some(
                    PlanetToExplorer::AvailableEnergyCellResponse { available_cells: clamp_u32(count_charged(cells)) },
                ) && after == before
                    && s1.successful_generations == s0.successful_generations
                    && s1.failed_generations == s0.failed_generations
                    && s1.failed_combinations == s0.failed_combinations,
                ExplorerToPlanet::CombineResourceRequest { msg: req, .. } => answer matches Some(
                    PlanetToExplorer::CombineResourceResponse { complex_response: Err(e) },
                ) && e.0@ == luna4_no_combination_message() && (e.1, e.2) == request_ingredients(req)
                    && after == before
                    && s1.successful_generations == s0.successful_generations
                    && s1.failed_generations == s0.failed_generations
                    && s1.failed_combinations == bump(s0.failed_combinations),
                ExplorerToPlanet::GenerateResourceRequest { resource, .. } => {
                    &&& s1.failed_combinations == s0.failed_combinations
                    &&& if !phase_resources(phase).contains(resource) || !has_with(cells, true)
                        || !generator@.contains(resource) {
                        &&& answer == Some(PlanetToExplorer::GenerateResourceResponse { resource: None })
                        &&& after.cells == cells
                        &&& s1.failed_generations == bump(s0.failed_generations)
                        &&& s1.successful_generations == s0.successful_generations
                    } else {
                        &&& answer == Some(PlanetToExplorer::GenerateResourceResponse { resource: Some(basic_of(resource)) })
                        &&& exists|i: int| is_first_with(cells, true, i) && after.cells == cells.update(i, false)
                        &&& s1.successful_generations == bump(s0.successful_generations)
                        &&& s1.failed_generations == s0.failed_generations
                    }
                },
            }
        })
    }

    open spec fn start_effect(
        &self,
        next: Self,
        state: PlanetStateView,
        generator: Generator,
        combinator: Combinator,
    ) -> bool {
        next == *self
    }

    open spec fn stop_effect(
        &self,
        next: Self,
        state: PlanetStateView,
        generator: Generator,
        combinator: Combinator,
    ) -> bool {
        next == *self
    }

    open spec fn sunray_effect(
        &self,
        next: Self,
        before: PlanetStateView,
        after: PlanetStateView,
        generator: Generator,
        combinator: Combinator,
        sunray: Sunray,
    ) -> bool {
        &&& keeps_cells_frame(before, after)
        &&& !has_with(before.cells, false) ==> after.cells == before.cells
        &&& has_with(before.cells, false) ==> exists|i: int|
            is_first_with(before.cells, false, i) && after.cells == before.cells.update(i, true)
        &&& next.spec_phase() == next_phase(self.spec_phase())
        &&& next.spec_stats() == (Luna4Stats {
            sunrays_received: bump(self.spec_stats().sunrays_received),
            ..self.spec_stats()
        })
        &&& next.spec_id() == self.spec_id()
    }

    open spec fn arrival_effect(
        &self,
        next: Self,
        before: PlanetStateView,
        after: PlanetStateView,
        generator: Generator,
        combinator: Combinator,
        explorer_id: u32,
    ) -> bool {
        &&& after == before
        &&& next.spec_phase() == self.spec_phase()
        &&& next.spec_id() == self.spec_id()
        &&& next.spec_stats() == (Luna4Stats {
            explorer_messages_processed: bump(self.spec_stats().explorer_messages_processed),
            ..self.spec_stats()
        })
    }

    open spec fn departure_effect(
        &self,
        next: Self,
        before: PlanetStateView,
        after: PlanetStateView,
        generator: Generator,
        combinator: Combinator,
        explorer_id: u32,
    ) -> bool {
        &&& after == before
        &&& next == *self
    }
}

} // verus!

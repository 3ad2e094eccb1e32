use vstd::prelude::*;

use crate::game::resource::BasicResourceType;
use crate::planet_ai::cycle::SkycartelPhase;
use crate::planet_ai::skycartel::RustyPlanetId;
use crate::text::{decimal, push_decimal};

verus! {

broadcast use vstd::std_specs::hash::group_hash_axioms;

#[verifier::external_type_specification]
#[verifier::external_body]
pub struct ExInstant(std::time::Instant);

/// The current instant of the monotonic clock. Nothing is stated of it: it
/// is whatever the clock reads.
#[verifier::external_body]
fn instant_now() -> std::time::Instant {
    std::time::Instant::now()
}

/// The time since `start` by the monotonic clock. Nothing is stated of it:
/// it is whatever the clock reads.
#[verifier::external_body]
fn elapsed_since(start: &std::time::Instant) -> std::time::Duration {
    start.elapsed()
}

/// `x + 1`, held at `usize::MAX`.
pub open spec fn bump(x: usize) -> usize {
    if x < usize::MAX { (x + 1) as usize } else { x }
}

/// Operational counters of a planet.
#[derive(Debug, Clone, Copy, PartialEq, Eq, Structural)]
pub struct OperationalStats {
    pub total_resources_generated: usize,
    pub explorer_arrivals: usize,
    pub explorer_departures: usize,
    pub rockets_built: usize,
    pub asteroids_deflected: usize,
    pub errors_encountered: usize,
}

/// Counters all at zero.
pub open spec fn zero_stats() -> OperationalStats {
    OperationalStats {
        total_resources_generated: 0,
        explorer_arrivals: 0,
        explorer_departures: 0,
        rockets_built: 0,
        asteroids_deflected: 0,
        errors_encountered: 0,
    }
}

impl OperationalStats {
    /// All counters at zero.
    pub fn new() -> (s: OperationalStats)
        ensures
            s == zero_stats(),
    {
        OperationalStats {
            total_resources_generated: 0,
            explorer_arrivals: 0,
            explorer_departures: 0,
            rockets_built: 0,
            asteroids_deflected: 0,
            errors_encountered: 0,
        }
    }
}

impl Default for OperationalStats {
    fn default() -> (s: OperationalStats)
        ensures
            s == zero_stats(),
    {
        OperationalStats::new()
    }
}

/// Skycartel's running record: its phase, what it generated, which
/// explorers are present (since when), and its counters.
pub struct SkycartelState {
    pub id: RustyPlanetId,
    pub phase: SkycartelPhase,
    pub phase_start_time: std::time::Instant,
    pub generation_history: Vec<BasicResourceType>,
    pub present_explorers: std::collections::HashMap<u32, std::time::Instant>,
    pub stats: OperationalStats,
}

/// The one-line summary of a Skycartel state.
pub open spec fn summary_text(id: u32, explorers: nat, stats: OperationalStats) -> Seq<char> {
    "Skycartel #"@ + decimal(id as nat) + " | Phase: Stable | Explorers: "@ + decimal(explorers)
        + " | Generated: "@ + decimal(stats.total_resources_generated as nat) + " | Rockets: "@
        + decimal(stats.rockets_built as nat) + " | Deflections: "@ + decimal(
        stats.asteroids_deflected as nat,
    ) + " | Errors: "@ + decimal(stats.errors_encountered as nat)
}

impl SkycartelState {
    /// The explorers present.
    pub open spec fn explorers(&self) -> Set<u32> {
        self.present_explorers@.dom()
    }

    /// A fresh state: stable phase, nothing generated, no explorer, all
    /// counters at zero.
    pub fn new(id: u32) -> (s: SkycartelState)
        ensures
            s.id@ == id,
            s.phase == SkycartelPhase::Stable,
            s.generation_history@ == Seq::<BasicResourceType>::empty(),
            s.explorers() == Set::<u32>::empty(),
            s.stats == zero_stats(),
    {
        let s = SkycartelState {
            id: RustyPlanetId::new(id),
            phase: SkycartelPhase::Stable,
            phase_start_time: instant_now(),
            generation_history: Vec::new(),
            present_explorers: std::collections::HashMap::new(),
            stats: OperationalStats::new(),
        };
        assert(s.explorers() =~= Set::<u32>::empty());
        s
    }

    /// The phase never changes: always `None`.
    pub fn update_phase(&mut self) -> (r: Option<SkycartelPhase>)
        ensures
            r is None,
            *final(self) == *old(self),
    {
        None
    }

    /// Records a generated resource.
    pub fn record_generation(&mut self, resource: BasicResourceType)
        ensures
            final(self).generation_history@ == old(self).generation_history@.push(resource),
            final(self).stats == (OperationalStats {
                total_resources_generated: bump(old(self).stats.total_resources_generated),
                ..old(self).stats
            }),
            final(self).explorers() == old(self).explorers(),
            final(self).id == old(self).id,
            final(self).phase == old(self).phase,
    {
        self.generation_history.push(resource);
        self.stats.total_resources_generated = self.stats.total_resources_generated.saturating_add(1);
    }

    /// Records an explorer's arrival.
    pub fn register_explorer_arrival(&mut self, explorer_id: u32)
        ensures
            final(self).explorers() == old(self).explorers().insert(explorer_id),
            final(self).stats == (OperationalStats {
                explorer_arrivals: bump(old(self).stats.explorer_arrivals),
                ..old(self).stats
            }),
            final(self).generation_history == old(self).generation_history,
            final(self).id == old(self).id,
            final(self).phase == old(self).phase,
    {
        self.present_explorers.insert(explorer_id, instant_now());
        self.stats.explorer_arrivals = self.stats.explorer_arrivals.saturating_add(1);
    }

    /// Records an explorer's departure.
    pub fn register_explorer_departure(&mut self, explorer_id: u32)
        ensures
            final(self).explorers() == old(self).explorers().remove(explorer_id),
            final(self).stats == (OperationalStats {
                explorer_departures: bump(old(self).stats.explorer_departures),
                ..old(self).stats
            }),
            final(self).generation_history == old(self).generation_history,
            final(self).id == old(self).id,
            final(self).phase == old(self).phase,
    {
        self.present_explorers.remove(&explorer_id);
        self.stats.explorer_departures = self.stats.explorer_departures.saturating_add(1);
    }

    pub fn record_rocket_built(&mut self)
        ensures
            final(self).stats == (OperationalStats { rockets_built: bump(old(self).stats.rockets_built), ..old(self).stats }),
            final(self).explorers() == old(self).explorers(),
            final(self).generation_history == old(self).generation_history,
            final(self).id == old(self).id,
            final(self).phase == old(self).phase,
    {
        self.stats.rockets_built = self.stats.rockets_built.saturating_add(1);
    }

    pub fn record_asteroid_deflected(&mut self)
        ensures
            final(self).stats == (OperationalStats {
                asteroids_deflected: bump(old(self).stats.asteroids_deflected),
                ..old(self).stats
            }),
            final(self).explorers() == old(self).explorers(),
            final(self).generation_history == old(self).generation_history,
            final(self).id == old(self).id,
            final(self).phase == old(self).phase,
    {
        self.stats.asteroids_deflected = self.stats.asteroids_deflected.saturating_add(1);
    }

    pub fn record_error(&mut self)
        ensures
            final(self).stats == (OperationalStats {
                errors_encountered: bump(old(self).stats.errors_encountered),
                ..old(self).stats
            }),
            final(self).explorers() == old(self).explorers(),
            final(self).generation_history == old(self).generation_history,
            final(self).id == old(self).id,
            final(self).phase == old(self).phase,
    {
        self.stats.errors_encountered = self.stats.errors_encountered.saturating_add(1);
    }

    /// The number of explorers present.
    pub fn explorer_count(&self) -> (n: usize)
        ensures
            n == self.explorers().len(),
    {
        self.present_explorers.len()
    }

    /// The time spent in the current phase, by the monotonic clock.
    pub fn elapsed_in_phase(&self) -> (d: std::time::Duration) {
        elapsed_since(&self.phase_start_time)
    }

    /// A one-line summary: id, phase, explorers present and counters.
    pub fn display_summary(&self) -> (s: String)
        ensures
            s@ == summary_text(self.id@, self.explorers().len(), self.stats),
    {
        let mut s = String::from_str("Skycartel #");
        push_decimal(&mut s, self.id.as_u32() as u64);
        s.append(" | Phase: Stable | Explorers: ");
        push_decimal(&mut s, self.explorer_count() as u64);
        s.append(" | Generated: ");
        push_decimal(&mut s, self.stats.total_resources_generated as u64);
        s.append(" | Rockets: ");
        push_decimal(&mut s, self.stats.rockets_built as u64);
        s.append(" | Deflections: ");
        push_decimal(&mut s, self.stats.asteroids_deflected as u64);
        s.append(" | Errors: ");
        push_decimal(&mut s, self.stats.errors_encountered as u64);
        s
    }
}

} // verus!

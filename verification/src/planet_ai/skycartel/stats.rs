use vstd::prelude::*;

use crate::planet_ai::state::OperationalStats;

verus! {

/// A copy of a planet's counters, for reporting.
#[derive(Debug, Clone, Copy, PartialEq, Eq, Structural)]
pub struct SkycartelStats {
    pub total_resources_generated: usize,
    pub explorer_arrivals: usize,
    pub explorer_departures: usize,
    pub rockets_built: usize,
    pub asteroids_deflected: usize,
    pub errors_encountered: usize,
}

/// The six counters of `stats`, copied.
pub open spec fn copy_of(stats: OperationalStats) -> SkycartelStats {
    SkycartelStats {
        total_resources_generated: stats.total_resources_generated,
        explorer_arrivals: stats.explorer_arrivals,
        explorer_departures: stats.explorer_departures,
        rockets_built: stats.rockets_built,
        asteroids_deflected: stats.asteroids_deflected,
        errors_encountered: stats.errors_encountered,
    }
}

impl<'a> From<&'a OperationalStats> for SkycartelStats {
    /// The counters of `s`, copied.
    fn from(s: &'a OperationalStats) -> (r: SkycartelStats) {
        SkycartelStats {
            total_resources_generated: s.total_resources_generated,
            explorer_arrivals: s.explorer_arrivals,
            explorer_departures: s.explorer_departures,
            rockets_built: s.rockets_built,
            asteroids_deflected: s.asteroids_deflected,
            errors_encountered: s.errors_encountered,
        }
    }
}

impl<'a> vstd::std_specs::convert::FromSpecImpl<&'a OperationalStats> for SkycartelStats {
    open spec fn obeys_from_spec() -> bool {
        true
    }

    open spec fn from_spec(v: &'a OperationalStats) -> SkycartelStats {
        copy_of(*v)
    }
}

/// All counters at zero.
impl Default for SkycartelStats {
    fn default() -> (s: SkycartelStats)
        ensures
            s == copy_of(crate::planet_ai::state::zero_stats()),
    {
        SkycartelStats {
            total_resources_generated: 0,
            explorer_arrivals: 0,
            explorer_departures: 0,
            rockets_built: 0,
            asteroids_deflected: 0,
            errors_encountered: 0,
        }
    }
}

impl SkycartelStats {
    /// The counters of `stats`, copied.
    pub fn snapshot(stats: &OperationalStats) -> (s: SkycartelStats)
        ensures
            s == copy_of(*stats),
    {
        SkycartelStats {
            total_resources_generated: stats.total_resources_generated,
            explorer_arrivals: stats.explorer_arrivals,
            explorer_departures: stats.explorer_departures,
            rockets_built: stats.rockets_built,
            asteroids_deflected: stats.asteroids_deflected,
            errors_encountered: stats.errors_encountered,
        }
    }
}

} // verus!

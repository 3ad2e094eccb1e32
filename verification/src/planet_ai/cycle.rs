use vstd::prelude::*;

verus! {

/// Skycartel's phase: it has a single, stable one.
#[derive(Debug, Clone, Copy, PartialEq, Eq, Structural)]
pub enum SkycartelPhase {
    Stable,
}

impl Default for SkycartelPhase {
    fn default() -> (p: SkycartelPhase)
        ensures
            p == SkycartelPhase::Stable,
    {
        SkycartelPhase::Stable
    }
}

} // verus!

use vstd::prelude::*;

use crate::game::resource::{BasicResourceType, ComplexResourceType};
use crate::planet_ai::cycle::SkycartelPhase;

verus! {

/// The resources a planet offers in a phase.
pub struct AvailableResources {
    pub basic: Vec<BasicResourceType>,
    pub complex: Vec<ComplexResourceType>,
}

impl AvailableResources {
    /// Carbon and nothing else.
    pub fn carbon_only() -> (r: AvailableResources)
        ensures
            r.basic@ == seq![BasicResourceType::Carbon],
            r.complex@ == Seq::<ComplexResourceType>::empty(),
    {
        let mut basic = Vec::new();
        basic.push(BasicResourceType::Carbon);
        AvailableResources { basic, complex: Vec::new() }
    }
}

/// The resources Skycartel offers: carbon only, in its single phase.
pub struct ResourceManager {
    stable: AvailableResources,
}

impl ResourceManager {
    pub closed spec fn spec_basic(&self) -> Seq<BasicResourceType> {
        self.stable.basic@
    }

    pub closed spec fn spec_complex(&self) -> Seq<ComplexResourceType> {
        self.stable.complex@
    }

    pub fn new() -> (m: ResourceManager)
        ensures
            m.spec_basic() == seq![BasicResourceType::Carbon],
            m.spec_complex() == Seq::<ComplexResourceType>::empty(),
    {
        ResourceManager { stable: AvailableResources::carbon_only() }
    }

    /// The resources of `phase` (the same in every phase).
    pub fn get_available_resources(&self, _phase: SkycartelPhase) -> (r: &AvailableResources)
        ensures
            r.basic@ == self.spec_basic(),
            r.complex@ == self.spec_complex(),
    {
        &self.stable
    }

    pub fn supported_basic(&self) -> (v: Vec<BasicResourceType>)
        ensures
            v@ == self.spec_basic(),
    {
        self.stable.basic.clone()
    }

    pub fn supported_complex(&self) -> (v: Vec<ComplexResourceType>)
        ensures
            v@ == self.spec_complex(),
    {
        self.stable.complex.clone()
    }
}

} // verus!

use vstd::prelude::*;

use crate::game::planet::DummyPlanetState;
use crate::game::resource::{
    BasicResource, BasicResourceType, ComplexResource, ComplexResourceRequest, ComplexResourceType,
    GenericResource,
};
use crate::game::rocket::Rocket;
use crate::game::sunray::Sunray;

verus! {

/// What the orchestrator tells a planet. The channel that an arriving
/// explorer is answered on travels beside the message, with the caller.
pub enum OrchestratorToPlanet {
    Sunray(Sunray),
    /// An asteroid is about to hit; its physics stay with the caller.
    Asteroid,
    StartPlanetAI,
    StopPlanetAI,
    KillPlanet,
    InternalStateRequest,
    IncomingExplorerRequest { explorer_id: u32 },
    OutgoingExplorerRequest { explorer_id: u32 },
}

/// What a planet answers the orchestrator.
pub enum PlanetToOrchestrator {
    SunrayAck { planet_id: u32 },
    AsteroidAck { planet_id: u32, rocket: Option<Rocket> },
    StartPlanetAIResult { planet_id: u32 },
    StopPlanetAIResult { planet_id: u32 },
    KillPlanetResult { planet_id: u32 },
    InternalStateResponse { planet_id: u32, planet_state: DummyPlanetState },
    IncomingExplorerResponse { planet_id: u32, explorer_id: u32, res: Result<(), String> },
    OutgoingExplorerResponse { planet_id: u32, explorer_id: u32, res: Result<(), String> },
    Stopped { planet_id: u32 },
}

pub open spec fn spec_planet_id(m: PlanetToOrchestrator) -> u32 {
    match m {
        PlanetToOrchestrator::SunrayAck { planet_id } => planet_id,
        PlanetToOrchestrator::AsteroidAck { planet_id, .. } => planet_id,
        PlanetToOrchestrator::StartPlanetAIResult { planet_id } => planet_id,
        PlanetToOrchestrator::StopPlanetAIResult { planet_id } => planet_id,
        PlanetToOrchestrator::KillPlanetResult { planet_id } => planet_id,
        PlanetToOrchestrator::InternalStateResponse { planet_id, .. } => planet_id,
        PlanetToOrchestrator::IncomingExplorerResponse { planet_id, .. } => planet_id,
        PlanetToOrchestrator::OutgoingExplorerResponse { planet_id, .. } => planet_id,
        PlanetToOrchestrator::Stopped { planet_id } => planet_id,
    }
}

impl PlanetToOrchestrator {
    /// The planet that sent the message.
    pub fn planet_id(&self) -> (id: u32)
        ensures
            id == spec_planet_id(*self),
    {
        match self {
            PlanetToOrchestrator::SunrayAck { planet_id } => *planet_id,
            PlanetToOrchestrator::AsteroidAck { planet_id, .. } => *planet_id,
            PlanetToOrchestrator::StartPlanetAIResult { planet_id } => *planet_id,
            PlanetToOrchestrator::StopPlanetAIResult { planet_id } => *planet_id,
            PlanetToOrchestrator::KillPlanetResult { planet_id } => *planet_id,
            PlanetToOrchestrator::InternalStateResponse { planet_id, .. } => *planet_id,
            PlanetToOrchestrator::IncomingExplorerResponse { planet_id, .. } => *planet_id,
            PlanetToOrchestrator::OutgoingExplorerResponse { planet_id, .. } => *planet_id,
            PlanetToOrchestrator::Stopped { planet_id } => *planet_id,
        }
    }
}

/// What the orchestrator tells an explorer. A move carries, beside the
/// message and with the caller, the channel to the new planet when the move
/// is approved.
pub enum OrchestratorToExplorer {
    StartExplorerAI,
    StopExplorerAI,
    ResetExplorerAI,
    KillExplorer,
    MoveToPlanet { approved: bool, planet_id: u32 },
    CurrentPlanetRequest,
    SupportedResourceRequest,
    SupportedCombinationRequest,
    GenerateResourceRequest { to_generate: BasicResourceType },
    CombineResourceRequest { to_generate: ComplexResourceType },
    BagContentRequest,
    NeighborsResponse { neighbors: Vec<u32> },
}

/// What an explorer tells the orchestrator; `T` is the bag content it
/// reports.
pub enum ExplorerToOrchestrator<T> {
    StartExplorerAIResult { explorer_id: u32 },
    KillExplorerResult { explorer_id: u32 },
    ResetExplorerAIResult { explorer_id: u32 },
    StopExplorerAIResult { explorer_id: u32 },
    MovedToPlanetResult { explorer_id: u32, planet_id: u32 },
    CurrentPlanetResult { explorer_id: u32, planet_id: u32 },
    SupportedResourceResult { explorer_id: u32, supported_resources: Vec<BasicResourceType> },
    SupportedCombinationResult { explorer_id: u32, combination_list: Vec<ComplexResourceType> },
    GenerateResourceResponse { explorer_id: u32, generated: Result<(), String> },
    CombineResourceResponse { explorer_id: u32, generated: Result<(), String> },
    BagContentResponse { explorer_id: u32, bag_content: T },
    NeighborsRequest { explorer_id: u32, current_planet_id: u32 },
    TravelToPlanetRequest { explorer_id: u32, current_planet_id: u32, dst_planet_id: u32 },
}

pub open spec fn spec_explorer_id_of<T>(m: ExplorerToOrchestrator<T>) -> u32 {
    match m {
        ExplorerToOrchestrator::StartExplorerAIResult { explorer_id } => explorer_id,
        ExplorerToOrchestrator::KillExplorerResult { explorer_id } => explorer_id,
        ExplorerToOrchestrator::ResetExplorerAIResult { explorer_id } => explorer_id,
        ExplorerToOrchestrator::StopExplorerAIResult { explorer_id } => explorer_id,
        ExplorerToOrchestrator::MovedToPlanetResult { explorer_id, .. } => explorer_id,
        ExplorerToOrchestrator::CurrentPlanetResult { explorer_id, .. } => explorer_id,
        ExplorerToOrchestrator::SupportedResourceResult { explorer_id, .. } => explorer_id,
        ExplorerToOrchestrator::SupportedCombinationResult { explorer_id, .. } => explorer_id,
        ExplorerToOrchestrator::GenerateResourceResponse { explorer_id, .. } => explorer_id,
        ExplorerToOrchestrator::CombineResourceResponse { explorer_id, .. } => explorer_id,
        ExplorerToOrchestrator::BagContentResponse { explorer_id, .. } => explorer_id,
        ExplorerToOrchestrator::NeighborsRequest { explorer_id, .. } => explorer_id,
        ExplorerToOrchestrator::TravelToPlanetRequest { explorer_id, .. } => explorer_id,
    }
}

impl<T> ExplorerToOrchestrator<T> {
    /// The explorer that sent the message.
    pub fn explorer_id(&self) -> (id: u32)
        ensures
            id == spec_explorer_id_of(*self),
    {
        match self {
            ExplorerToOrchestrator::StartExplorerAIResult { explorer_id } => *explorer_id,
            ExplorerToOrchestrator::KillExplorerResult { explorer_id } => *explorer_id,
            ExplorerToOrchestrator::ResetExplorerAIResult { explorer_id } => *explorer_id,
            ExplorerToOrchestrator::StopExplorerAIResult { explorer_id } => *explorer_id,
            ExplorerToOrchestrator::MovedToPlanetResult { explorer_id, .. } => *explorer_id,
            ExplorerToOrchestrator::CurrentPlanetResult { explorer_id, .. } => *explorer_id,
            ExplorerToOrchestrator::SupportedResourceResult { explorer_id, .. } => *explorer_id,
            ExplorerToOrchestrator::SupportedCombinationResult { explorer_id, .. } => *explorer_id,
            ExplorerToOrchestrator::GenerateResourceResponse { explorer_id, .. } => *explorer_id,
            ExplorerToOrchestrator::CombineResourceResponse { explorer_id, .. } => *explorer_id,
            ExplorerToOrchestrator::BagContentResponse { explorer_id, .. } => *explorer_id,
            ExplorerToOrchestrator::NeighborsRequest { explorer_id, .. } => *explorer_id,
            ExplorerToOrchestrator::TravelToPlanetRequest { explorer_id, .. } => *explorer_id,
        }
    }
}

/// What an explorer asks the planet it is on.
pub enum ExplorerToPlanet {
    SupportedResourceRequest { explorer_id: u32 },
    SupportedCombinationRequest { explorer_id: u32 },
    GenerateResourceRequest { explorer_id: u32, resource: BasicResourceType },
    CombineResourceRequest { explorer_id: u32, msg: ComplexResourceRequest },
    AvailableEnergyCellRequest { explorer_id: u32 },
}

pub open spec fn spec_explorer_id(m: ExplorerToPlanet) -> u32 {
    match m {
        ExplorerToPlanet::SupportedResourceRequest { explorer_id } => explorer_id,
        ExplorerToPlanet::SupportedCombinationRequest { explorer_id } => explorer_id,
        ExplorerToPlanet::GenerateResourceRequest { explorer_id, .. } => explorer_id,
        ExplorerToPlanet::CombineResourceRequest { explorer_id, .. } => explorer_id,
        ExplorerToPlanet::AvailableEnergyCellRequest { explorer_id } => explorer_id,
    }
}

impl ExplorerToPlanet {
    /// The explorer that sent the request.
    pub fn explorer_id(&self) -> (id: u32)
        ensures
            id == spec_explorer_id(*self),
    {
        match self {
            ExplorerToPlanet::SupportedResourceRequest { explorer_id } => *explorer_id,
            ExplorerToPlanet::SupportedCombinationRequest { explorer_id } => *explorer_id,
            ExplorerToPlanet::GenerateResourceRequest { explorer_id, .. } => *explorer_id,
            ExplorerToPlanet::CombineResourceRequest { explorer_id, .. } => *explorer_id,
            ExplorerToPlanet::AvailableEnergyCellRequest { explorer_id } => *explorer_id,
        }
    }
}

/// What a planet answers an explorer.
pub enum PlanetToExplorer {
    SupportedResourceResponse { resource_list: Vec<BasicResourceType> },
    SupportedCombinationResponse { combination_list: Vec<ComplexResourceType> },
    GenerateResourceResponse { resource: Option<BasicResource> },
    CombineResourceResponse {
        complex_response: Result<ComplexResource, (String, GenericResource, GenericResource)>,
    },
    AvailableEnergyCellResponse { available_cells: u32 },
    Stopped,
}

} // verus!

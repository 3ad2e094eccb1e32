use skycartel::game::messages::{ExplorerToPlanet, OrchestratorToPlanet, PlanetToExplorer, PlanetToOrchestrator};
use skycartel::game::planet::PlanetType;
use skycartel::game::planet_core::{Planet, PlanetStatus};
use skycartel::game::resource::{BasicResource, BasicResourceType};
use skycartel::game::sunray::Sunray;
use skycartel::game::type_a::{create_planet, TypeAPlanetAI};

#[test]
fn type_a_planet_smoke_test_start_sunray_asteroid_and_explorer_flow() {
    let mut planet = create_planet(42).expect("Failed to create Type A planet");

    match planet.handle_orchestrator_msg(OrchestratorToPlanet::StartPlanetAI) {
        Some(PlanetToOrchestrator::StartPlanetAIResult { planet_id }) => assert_eq!(planet_id, 42),
        _ => panic!("Expected StartPlanetAIResult from planet"),
    }

    match planet.handle_orchestrator_msg(OrchestratorToPlanet::Sunray(Sunray::new())) {
        Some(PlanetToOrchestrator::SunrayAck { planet_id }) => assert_eq!(planet_id, 42),
        _ => panic!("Expected SunrayAck from planet"),
    }

    match planet.handle_orchestrator_msg(OrchestratorToPlanet::Asteroid) {
        Some(PlanetToOrchestrator::AsteroidAck { planet_id, rocket }) => {
            assert_eq!(planet_id, 42);
            assert!(rocket.is_some(), "Type A planet should survive with Some(Rocket)");
        },
        _ => panic!("Expected AsteroidAck from planet"),
    }

    let explorer_id: u32 = 777;
    match planet.handle_orchestrator_msg(OrchestratorToPlanet::IncomingExplorerRequest { explorer_id }) {
        Some(PlanetToOrchestrator::IncomingExplorerResponse { planet_id, res, .. }) => {
            assert_eq!(planet_id, 42);
            assert!(res.is_ok(), "IncomingExplorerResponse should be Ok(())");
        },
        _ => panic!("Expected IncomingExplorerResponse"),
    }

    match planet.handle_explorer_msg(ExplorerToPlanet::SupportedResourceRequest { explorer_id }) {
        Some(PlanetToExplorer::SupportedResourceResponse { resource_list }) => {
            assert!(
                resource_list.contains(&BasicResourceType::Oxygen),
                "Type A planet should expose Oxygen in supported resources"
            );
        },
        _ => panic!("Expected SupportedResourceResponse on local explorer channel"),
    }

    match planet.handle_orchestrator_msg(OrchestratorToPlanet::Sunray(Sunray::new())) {
        Some(PlanetToOrchestrator::SunrayAck { planet_id }) => assert_eq!(planet_id, 42),
        _ => panic!("Expected SunrayAck after charging cell"),
    }

    match planet.handle_explorer_msg(ExplorerToPlanet::GenerateResourceRequest {
        explorer_id,
        resource: BasicResourceType::Oxygen,
    }) {
        Some(PlanetToExplorer::GenerateResourceResponse { resource }) => match resource {
            Some(BasicResource::Oxygen) => {},
            Some(_) => panic!("Expected Oxygen resource, got a different BasicResource"),
            None => panic!("Planet replied with None for GenerateResourceResponse"),
        },
        _ => panic!("Expected GenerateResourceResponse on local explorer channel"),
    }

    match planet.handle_orchestrator_msg(OrchestratorToPlanet::StopPlanetAI) {
        Some(PlanetToOrchestrator::StopPlanetAIResult { planet_id }) => assert_eq!(planet_id, 42),
        _ => panic!("Expected StopPlanetAIResult"),
    }

    match planet.handle_orchestrator_msg(OrchestratorToPlanet::InternalStateRequest) {
        Some(PlanetToOrchestrator::Stopped { planet_id }) => assert_eq!(planet_id, 42),
        _ => panic!("Expected Stopped when asking InternalStateRequest while stopped"),
    }

    match planet.handle_orchestrator_msg(OrchestratorToPlanet::KillPlanet) {
        Some(PlanetToOrchestrator::KillPlanetResult { planet_id }) => assert_eq!(planet_id, 42),
        _ => panic!("Expected KillPlanetResult"),
    }
    assert_eq!(planet.status(), PlanetStatus::Killed);
}

#[test]
fn test_planet_run_loop_survival() {
    let mut planet = Planet::new(100, PlanetType::A, TypeAPlanetAI::new(), vec![BasicResourceType::Oxygen], vec![])
        .expect("Failed to create planet");

    match planet.handle_orchestrator_msg(OrchestratorToPlanet::StartPlanetAI) {
        Some(PlanetToOrchestrator::StartPlanetAIResult { .. }) => {},
        _ => panic!("Planet sent incorrect response"),
    }
    match planet.handle_orchestrator_msg(OrchestratorToPlanet::Sunray(Sunray::new())) {
        Some(PlanetToOrchestrator::SunrayAck { planet_id }) => assert_eq!(planet_id, 100),
        _ => panic!("Did not receive SunrayAck"),
    }
    match planet.handle_orchestrator_msg(OrchestratorToPlanet::Asteroid) {
        Some(PlanetToOrchestrator::AsteroidAck { planet_id, rocket }) => {
            assert_eq!(planet_id, 100);
            assert!(rocket.is_some(), "Planet failed to build rocket!");
        },
        _ => panic!("Wrong message type"),
    }
    match planet.handle_orchestrator_msg(OrchestratorToPlanet::StopPlanetAI) {
        Some(PlanetToOrchestrator::StopPlanetAIResult { .. }) => {},
        _ => panic!("Planet sent incorrect response"),
    }
    match planet.handle_orchestrator_msg(OrchestratorToPlanet::InternalStateRequest) {
        Some(PlanetToOrchestrator::Stopped { .. }) => {},
        _ => panic!("Planet sent incorrect response"),
    }
    match planet.handle_orchestrator_msg(OrchestratorToPlanet::KillPlanet) {
        Some(PlanetToOrchestrator::KillPlanetResult { .. }) => {},
        _ => panic!("Planet sent incorrect response"),
    }
    assert_eq!(planet.status(), PlanetStatus::Killed);
}

#[test]
fn test_explorer_comms() {
    let mut planet = Planet::new(1, PlanetType::A, TypeAPlanetAI::new(), vec![BasicResourceType::Oxygen], vec![])
        .expect("Failed to create planet");

    match planet.handle_orchestrator_msg(OrchestratorToPlanet::StartPlanetAI) {
        Some(PlanetToOrchestrator::StartPlanetAIResult { .. }) => {},
        _ => panic!("Planet sent incorrect response"),
    }

    let explorer_id = 101;
    match planet.handle_orchestrator_msg(OrchestratorToPlanet::IncomingExplorerRequest { explorer_id }) {
        Some(PlanetToOrchestrator::IncomingExplorerResponse { planet_id, res, .. }) => {
            assert_eq!(planet_id, 1);
            assert!(res.is_ok());
        },
        _ => panic!("Expected IncomingExplorerResponse"),
    }

    match planet.handle_explorer_msg(ExplorerToPlanet::AvailableEnergyCellRequest { explorer_id }) {
        Some(PlanetToExplorer::AvailableEnergyCellResponse { available_cells }) => assert_eq!(available_cells, 5),
        _ => panic!("Expected AvailableEnergyCellResponse"),
    }

    match planet.handle_orchestrator_msg(OrchestratorToPlanet::StopPlanetAI) {
        Some(PlanetToOrchestrator::StopPlanetAIResult { .. }) => {},
        _ => panic!("Planet sent incorrect response"),
    }

    match planet.handle_explorer_msg(ExplorerToPlanet::AvailableEnergyCellRequest { explorer_id }) {
        Some(PlanetToExplorer::Stopped) => {},
        _ => panic!("Planet sent incorrect response"),
    }

    match planet.handle_orchestrator_msg(OrchestratorToPlanet::StartPlanetAI) {
        Some(PlanetToOrchestrator::StartPlanetAIResult { .. }) => {},
        _ => panic!("Planet sent incorrect response"),
    }

    match planet.handle_orchestrator_msg(OrchestratorToPlanet::OutgoingExplorerRequest { explorer_id }) {
        Some(PlanetToOrchestrator::OutgoingExplorerResponse { planet_id, res, .. }) => {
            assert_eq!(planet_id, 1);
            assert!(res.is_ok());
        },
        _ => panic!("Expected OutgoingExplorerResponse"),
    }

    let result = planet.handle_explorer_msg(ExplorerToPlanet::AvailableEnergyCellRequest { explorer_id });
    assert!(result.is_none(), "Planet responded to explorer after it left!");
}

#[test]
fn new_planet_is_stopped_with_empty_cells() {
    let planet = create_planet(5).unwrap();
    assert_eq!(planet.id(), 5);
    assert_eq!(planet.planet_type(), PlanetType::A);
    assert_eq!(planet.status(), PlanetStatus::Stopped);
    assert_eq!(planet.state().cells_count(), 5);
    assert!(!planet.state().has_rocket());
    assert!(!planet.answers_explorer(1));
}

#[test]
fn stopped_planet_answers_stopped_and_ignores_orders() {
    let mut planet = create_planet(8).unwrap();
    match planet.handle_orchestrator_msg(OrchestratorToPlanet::Sunray(Sunray::new())) {
        Some(PlanetToOrchestrator::Stopped { planet_id }) => assert_eq!(planet_id, 8),
        _ => panic!("a stopped planet took a sunray"),
    }
    assert!(!planet.state().cell(0).is_charged());
    match planet.handle_explorer_msg(ExplorerToPlanet::SupportedResourceRequest { explorer_id: 3 }) {
        Some(PlanetToExplorer::Stopped) => {},
        None => {},
        _ => panic!("a stopped planet served an explorer"),
    }
}

#[test]
fn rocket_permission_follows_the_planet_type() {
    for (t, allowed) in [(PlanetType::A, true), (PlanetType::B, false), (PlanetType::C, true), (PlanetType::D, false)] {
        let p = Planet::new(7, t, TypeAPlanetAI::new(), vec![BasicResourceType::Oxygen], vec![]).unwrap();
        assert_eq!(p.state().can_have_rocket(), allowed);
        assert!(!p.state().has_rocket());
    }
}

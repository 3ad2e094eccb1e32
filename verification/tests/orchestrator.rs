use std::collections::HashMap;

use skycartel::game::forge::{Forge, ForgeRegistry};
use skycartel::game::messages::{ExplorerToOrchestrator, OrchestratorToExplorer, OrchestratorToPlanet, PlanetToOrchestrator};
use skycartel::orchestrator::{Dispatch, ExplorerLifecycle, GuiCommand, OrchestratorState, PlanetLifecycle};

fn three_planets_two_explorers() -> OrchestratorState {
    OrchestratorState::new(vec![1, 2, 3], vec![1, 2, 3], vec![10, 11]).with_explorer_reply_senders(vec![10, 11])
}

fn planet_target(d: &Dispatch) -> Option<u32> {
    match d {
        Dispatch::ToPlanet { planet_id, .. } => Some(*planet_id),
        _ => None,
    }
}

#[test]
fn initialize_starts_charges_and_welcomes() {
    let mut registry = ForgeRegistry::new();
    let forge = Forge::new(&mut registry).unwrap();
    let mut o = three_planets_two_explorers();
    let out = o.initialize(&forge);
    // three starts, fifteen sunrays, two explorers told to planet 1
    assert_eq!(out.len(), 3 + 15 + 2);
    let mut started: Vec<u32> = out[..3]
        .iter()
        .map(|d| match d {
            Dispatch::ToPlanet { planet_id, msg: OrchestratorToPlanet::StartPlanetAI } => *planet_id,
            _ => panic!("expected a start"),
        })
        .collect();
    started.sort();
    assert_eq!(started, vec![1, 2, 3]);
    for d in &out[3..18] {
        assert!(matches!(d, Dispatch::ToPlanet { msg: OrchestratorToPlanet::Sunray(_), .. }));
    }
    for d in &out[18..] {
        assert!(matches!(d, Dispatch::ToPlanet { planet_id: 1, msg: OrchestratorToPlanet::IncomingExplorerRequest { .. } }));
    }
    assert_eq!(o.planet_state(2), PlanetLifecycle::Starting);
    assert_eq!(o.planet_alive(2), Some(true));
    assert_eq!(o.explorer_state(10), ExplorerLifecycle::Idle);
    assert_eq!(o.explorer_alive(11), Some(true));
    assert_eq!(o.explorer_planet(10), Some(1));
}

#[test]
fn planet_phase_transitions_follow_the_table() {
    let mut o = three_planets_two_explorers();
    assert!(o.validate_planet_state_transition(1, PlanetLifecycle::Running));
    assert!(!o.validate_planet_state_transition(1, PlanetLifecycle::Running));
    assert!(!o.validate_planet_state_transition(1, PlanetLifecycle::Idle));
    assert_eq!(o.planet_state(1), PlanetLifecycle::Running);
    assert!(o.validate_planet_state_transition(1, PlanetLifecycle::Stopping));
    assert!(o.validate_planet_state_transition(1, PlanetLifecycle::Idle));
    assert!(!o.validate_planet_state_transition(2, PlanetLifecycle::Stopping));
    assert_eq!(o.planet_state(2), PlanetLifecycle::Idle);
}

#[test]
fn explorer_phase_transitions_follow_the_table() {
    let mut o = three_planets_two_explorers();
    assert!(o.validate_explorer_state_transition(10, ExplorerLifecycle::Starting));
    assert!(o.validate_explorer_state_transition(10, ExplorerLifecycle::Running));
    assert!(!o.validate_explorer_state_transition(10, ExplorerLifecycle::Starting));
    assert!(o.validate_explorer_state_transition(10, ExplorerLifecycle::Stopping));
    assert!(!o.validate_explorer_state_transition(10, ExplorerLifecycle::Running));
    assert!(o.validate_explorer_state_transition(10, ExplorerLifecycle::Idle));
}

#[test]
fn unreachable_planets_are_refused() {
    let mut registry = ForgeRegistry::new();
    let forge = Forge::new(&mut registry).unwrap();
    let mut o = three_planets_two_explorers();
    match o.send_sunray(&forge, 9) {
        Err(e) => assert_eq!(e, "No sender found for planet 9"),
        Ok(_) => panic!("sunray to an unknown planet"),
    }
    assert!(o.send_asteroid(9).is_err());
    assert!(o.start_planet(9).is_err());
    assert!(o.stop_planet(9).is_err());
    assert!(o.kill_planet(9).is_err());
    match o.kill_explorer(99) {
        Err(e) => assert_eq!(e, "No sender found for explorer 99"),
        Ok(_) => panic!("killed an unknown explorer"),
    }
    assert!(matches!(o.send_asteroid(2), Ok(Dispatch::ToPlanet { planet_id: 2, msg: OrchestratorToPlanet::Asteroid })));
}

#[test]
fn asteroid_without_rocket_kills_the_planet() {
    let mut o = three_planets_two_explorers();
    let out = o.handle_planet_message(&PlanetToOrchestrator::AsteroidAck { planet_id: 2, rocket: None });
    assert_eq!(out.len(), 1);
    assert!(matches!(out[0], Dispatch::ToPlanet { planet_id: 2, msg: OrchestratorToPlanet::KillPlanet }));
    assert_eq!(o.planet_alive(2), Some(false));
    assert_eq!(o.planet_state(2), PlanetLifecycle::Stopping);
}

#[test]
fn destroyed_planet_takes_its_explorers_with_it() {
    let mut registry = ForgeRegistry::new();
    let forge = Forge::new(&mut registry).unwrap();
    let mut o = OrchestratorState::new(vec![1, 2], vec![1, 2], vec![10, 11, 12]);
    o.initialize(&forge);
    o.handle_explorer_moved(12, 2);
    let out = o.handle_planet_message(&PlanetToOrchestrator::KillPlanetResult { planet_id: 1 });
    let mut killed: Vec<u32> = out
        .iter()
        .map(|d| match d {
            Dispatch::ToExplorer { explorer_id, msg: OrchestratorToExplorer::KillExplorer } => *explorer_id,
            _ => panic!("expected an order to end an explorer"),
        })
        .collect();
    killed.sort();
    assert_eq!(killed, vec![10, 11]);
    assert_eq!(o.explorer_planet(10), None);
    assert_eq!(o.explorer_planet(12), Some(2));
    assert_eq!(o.explorer_alive(10), Some(false));
    assert_eq!(o.explorer_state(11), ExplorerLifecycle::Stopping);
    assert_eq!(o.explorer_alive(12), Some(true));
    assert_eq!(o.planet_alive(1), Some(false));
    assert_eq!(o.planet_state(1), PlanetLifecycle::Idle);
    assert!(o.start_planet(1).is_err());
}

#[test]
fn travel_is_answered_by_the_rules() {
    let mut registry = ForgeRegistry::new();
    let forge = Forge::new(&mut registry).unwrap();
    let mut o = three_planets_two_explorers();
    // not alive yet: no answer
    assert!(o.handle_travel_request(10, 1, 2).is_empty());
    o.initialize(&forge);
    let out = o.handle_travel_request(10, 1, 2);
    assert_eq!(out.len(), 3);
    assert!(matches!(out[0], Dispatch::ToPlanet { planet_id: 1, msg: OrchestratorToPlanet::OutgoingExplorerRequest { explorer_id: 10 } }));
    assert!(matches!(out[1], Dispatch::ToPlanet { planet_id: 2, msg: OrchestratorToPlanet::IncomingExplorerRequest { explorer_id: 10 } }));
    assert!(matches!(out[2], Dispatch::ToExplorer {
        explorer_id: 10,
        msg: OrchestratorToExplorer::MoveToPlanet { approved: true, planet_id: 2 },
    }));
    let refused = o.handle_travel_request(10, 1, 9);
    assert_eq!(refused.len(), 1);
    assert!(matches!(refused[0], Dispatch::ToExplorer {
        explorer_id: 10,
        msg: OrchestratorToExplorer::MoveToPlanet { approved: false, planet_id: 9 },
    }));
}

#[test]
fn neighbours_follow_the_map_or_fall_back_to_all_others() {
    let mut topology: HashMap<u32, Vec<u32>> = HashMap::new();
    topology.insert(1, vec![2, 7, 3]);
    let o = three_planets_two_explorers().with_topology(topology);
    assert_eq!(o.neighbors_of(1), vec![2, 3]);
    let mut others = o.neighbors_of(2);
    others.sort();
    assert_eq!(others, vec![1, 3]);
    match o.handle_neighbors_request(10, 1) {
        Dispatch::ToExplorer { explorer_id, msg: OrchestratorToExplorer::NeighborsResponse { neighbors } } => {
            assert_eq!(explorer_id, 10);
            assert_eq!(neighbors, vec![2, 3]);
        },
        _ => panic!("expected a neighbours answer"),
    }
}

#[test]
fn explorer_messages_update_the_books() {
    let mut o = three_planets_two_explorers();
    o.handle_explorer_message(&ExplorerToOrchestrator::<()>::StartExplorerAIResult { explorer_id: 10 });
    assert_eq!(o.explorer_state(10), ExplorerLifecycle::Running);
    o.handle_explorer_message(&ExplorerToOrchestrator::<()>::MovedToPlanetResult { explorer_id: 10, planet_id: 3 });
    assert_eq!(o.explorer_planet(10), Some(3));
    o.handle_explorer_message(&ExplorerToOrchestrator::<()>::StopExplorerAIResult { explorer_id: 10 });
    assert_eq!(o.explorer_state(10), ExplorerLifecycle::Idle);
    o.handle_explorer_message(&ExplorerToOrchestrator::<()>::KillExplorerResult { explorer_id: 10 });
    assert_eq!(o.explorer_alive(10), Some(false));
    assert_eq!(o.explorer_planet(10), None);
    let out = o.handle_explorer_message(&ExplorerToOrchestrator::<()>::NeighborsRequest { explorer_id: 11, current_planet_id: 1 });
    assert_eq!(out.len(), 1);
}

#[test]
fn gui_commands_are_routed() {
    let mut registry = ForgeRegistry::new();
    let forge = Forge::new(&mut registry).unwrap();
    let mut o = three_planets_two_explorers();
    let out = o.handle_gui_command(&forge, GuiCommand::SendSunray { planet_id: 3 }).unwrap();
    assert_eq!(out.len(), 1);
    assert_eq!(planet_target(&out[0]), Some(3));
    assert!(o.handle_gui_command(&forge, GuiCommand::StartPlanet { planet_id: 4 }).is_err());
    let out = o.handle_gui_command(&forge, GuiCommand::StopPlanet { planet_id: 1 }).unwrap();
    assert!(matches!(out[0], Dispatch::ToPlanet { planet_id: 1, msg: OrchestratorToPlanet::StopPlanetAI }));
    // an explorer recorded nowhere travels from planet 0; not alive: no answer
    let out = o.handle_gui_command(&forge, GuiCommand::MoveExplorer { explorer_id: 10, dst_planet_id: 2 }).unwrap();
    assert!(out.is_empty());
}

#[test]
fn each_tick_charges_the_living_planets() {
    let mut registry = ForgeRegistry::new();
    let forge = Forge::new(&mut registry).unwrap();
    let mut o = three_planets_two_explorers();
    assert!(o.tick_sunrays(&forge).is_empty());
    o.initialize(&forge);
    o.kill_planet(3).unwrap();
    let mut targets: Vec<u32> = o.tick_sunrays(&forge).iter().filter_map(planet_target).collect();
    targets.sort();
    assert_eq!(targets, vec![1, 2]);
    assert_eq!(o.tick(), 0);
    assert_eq!(o.advance_tick(), 1);
    assert_eq!(o.tick(), 1);
}

#[test]
fn messages_reach_explorers_through_their_planet() {
    let mut o = three_planets_two_explorers();
    match o.send_to_explorer_via_planet(10, skycartel::game::messages::ExplorerToPlanet::SupportedResourceRequest { explorer_id: 10 }) {
        Err(e) => assert_eq!(e, "Explorer 10 not mapped to any planet"),
        Ok(_) => panic!("explorer recorded nowhere was reached"),
    }
    o.handle_explorer_moved(10, 8);
    match o.send_to_explorer_via_planet(10, skycartel::game::messages::ExplorerToPlanet::SupportedResourceRequest { explorer_id: 10 }) {
        Err(e) => assert_eq!(e, "No explorer sender found for planet 8"),
        Ok(_) => panic!("planet without a channel was used"),
    }
    o.handle_explorer_moved(10, 2);
    match o.send_to_explorer_via_planet(10, skycartel::game::messages::ExplorerToPlanet::SupportedResourceRequest { explorer_id: 10 }) {
        Ok((p, _)) => assert_eq!(p, 2),
        Err(_) => panic!("expected the planet's channel"),
    }
}

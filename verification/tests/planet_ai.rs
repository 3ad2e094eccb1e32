use skycartel::create_planet;
use skycartel::game::messages::{ExplorerToPlanet, OrchestratorToPlanet, PlanetToExplorer, PlanetToOrchestrator};
use skycartel::game::planet::{PlanetState, PlanetType};
use skycartel::game::planet_core::PlanetStatus;
use skycartel::game::resource::{BasicResource, BasicResourceType, ComplexResourceRequest};
use skycartel::game::sunray::Sunray;
use skycartel::planet_ai::crabtorio::ai::create_planet as create_crabtorio;
use skycartel::planet_ai::cycle::SkycartelPhase;
use skycartel::planet_ai::energy::EnergyManager;
use skycartel::planet_ai::errors::SkycartelError;
use skycartel::planet_ai::luna4::ai::{Luna4AI, Luna4Phase};
use skycartel::planet_ai::luna4::{Luna4, Luna4Id};
use skycartel::planet_ai::resources::ResourceManager;
use skycartel::planet_ai::skycartel::stats::SkycartelStats;
use skycartel::planet_ai::skycartel::RustyPlanetId;
use skycartel::planet_ai::state::SkycartelState;

#[test]
fn display_messages_are_stable() {
    let e = SkycartelError::Energy("bad cells".to_string());
    assert_eq!(e.message(), "Energy configuration error: bad cells");

    let e = SkycartelError::PlanetConstruction("wrap failed".to_string());
    assert_eq!(e.message(), "Planet construction failed: wrap failed");
}

#[test]
fn debug_formatting_does_not_panic() {
    let e = SkycartelError::Resource("x".to_string());
    let _ = format!("{e:?}");
}

#[test]
fn every_error_kind_has_its_prefix() {
    assert_eq!(SkycartelError::Resource("r".to_string()).message(), "Resource error: r");
    assert_eq!(SkycartelError::Operational("o".to_string()).message(), "Operational error: o");
}

#[test]
fn carbon_is_the_only_basic_resource() {
    let rm = ResourceManager::new();
    let available = rm.get_available_resources(SkycartelPhase::Stable);

    assert_eq!(available.basic.len(), 1);
    assert!(available.basic.contains(&BasicResourceType::Carbon));
    assert!(available.complex.is_empty());
}

#[test]
fn state_initialization() {
    let s = SkycartelState::new(7);
    assert_eq!(s.id.as_u32(), 7);
    assert_eq!(s.phase, SkycartelPhase::Stable);
    assert_eq!(s.explorer_count(), 0);
    assert_eq!(s.stats.total_resources_generated, 0);
}

#[test]
fn explorer_tracking() {
    let mut s = SkycartelState::new(1);

    s.register_explorer_arrival(10);
    assert_eq!(s.explorer_count(), 1);
    assert_eq!(s.stats.explorer_arrivals, 1);

    s.register_explorer_arrival(20);
    assert_eq!(s.explorer_count(), 2);

    s.register_explorer_departure(10);
    assert_eq!(s.explorer_count(), 1);
    assert_eq!(s.stats.explorer_departures, 1);
}

#[test]
fn counters_increment() {
    let mut s = SkycartelState::new(1);

    s.record_generation(BasicResourceType::Carbon);
    s.record_rocket_built();
    s.record_asteroid_deflected();
    s.record_error();

    assert_eq!(s.stats.total_resources_generated, 1);
    assert_eq!(s.stats.rockets_built, 1);
    assert_eq!(s.stats.asteroids_deflected, 1);
    assert_eq!(s.stats.errors_encountered, 1);
}

#[test]
fn summary_contains_id() {
    let s = SkycartelState::new(99);
    let line = s.display_summary();
    assert!(line.contains("Skycartel #99"));
}

#[test]
fn summary_is_exact() {
    let mut s = SkycartelState::new(12);
    s.register_explorer_arrival(4);
    s.record_generation(BasicResourceType::Carbon);
    s.record_generation(BasicResourceType::Carbon);
    s.record_error();
    assert_eq!(
        s.display_summary(),
        "Skycartel #12 | Phase: Stable | Explorers: 1 | Generated: 2 | Rockets: 0 | Deflections: 0 | Errors: 1"
    );
    assert_eq!(s.update_phase(), None);
    assert_eq!(s.generation_history, vec![BasicResourceType::Carbon, BasicResourceType::Carbon]);
}

#[test]
fn stats_snapshot_copies_counters() {
    let mut s = SkycartelState::new(1);
    s.record_rocket_built();
    s.record_asteroid_deflected();
    let snap = SkycartelStats::snapshot(&s.stats);
    assert_eq!(snap.rockets_built, 1);
    assert_eq!(snap.asteroids_deflected, 1);
    assert_eq!(snap.total_resources_generated, 0);
}

#[test]
fn skycartel_create_planet_smoke() {
    let planet = create_planet(42);
    assert!(planet.is_ok());
}

#[test]
fn skycartel_planet_generates_carbon_from_resource_cells() {
    let mut planet = create_planet(3).unwrap();
    assert_eq!(planet.planet_type(), PlanetType::A);
    planet.handle_orchestrator_msg(OrchestratorToPlanet::StartPlanetAI);
    planet.handle_orchestrator_msg(OrchestratorToPlanet::IncomingExplorerRequest { explorer_id: 9 });
    planet.handle_orchestrator_msg(OrchestratorToPlanet::Sunray(Sunray::new()));
    assert!(planet.state().cell(0).is_charged());
    match planet.handle_explorer_msg(ExplorerToPlanet::GenerateResourceRequest {
        explorer_id: 9,
        resource: BasicResourceType::Carbon,
    }) {
        Some(PlanetToExplorer::GenerateResourceResponse { resource: Some(BasicResource::Carbon) }) => {},
        _ => panic!("expected a carbon unit"),
    }
    assert!(!planet.state().cell(0).is_charged());
    match planet.handle_explorer_msg(ExplorerToPlanet::GenerateResourceRequest {
        explorer_id: 9,
        resource: BasicResourceType::Oxygen,
    }) {
        Some(PlanetToExplorer::GenerateResourceResponse { resource: None }) => {},
        _ => panic!("oxygen is not generated here"),
    }
    match planet.handle_explorer_msg(ExplorerToPlanet::CombineResourceRequest {
        explorer_id: 9,
        msg: ComplexResourceRequest::Water,
    }) {
        Some(PlanetToExplorer::CombineResourceResponse { complex_response: Err(_) }) => {},
        _ => panic!("a type A planet combines nothing"),
    }
}

#[test]
fn skycartel_defends_with_a_defense_cell() {
    let mut planet = create_planet(4).unwrap();
    planet.handle_orchestrator_msg(OrchestratorToPlanet::StartPlanetAI);
    // no charge anywhere: the asteroid destroys the planet
    match planet.handle_orchestrator_msg(OrchestratorToPlanet::Asteroid) {
        Some(PlanetToOrchestrator::AsteroidAck { planet_id, rocket }) => {
            assert_eq!(planet_id, 4);
            assert!(rocket.is_none());
        },
        _ => panic!("expected an asteroid acknowledgement"),
    }
}

#[test]
fn energy_manager_needs_five_cells() {
    match EnergyManager::new(4) {
        Err(SkycartelError::Energy(s)) => assert_eq!(s, "Type A requires exactly 5 energy cells, got 4"),
        _ => panic!("four cells accepted"),
    }
    let m = EnergyManager::new(5).unwrap();
    assert_eq!(m.total_cells(), 5);
}

#[test]
fn energy_manager_charges_resource_cells_first() {
    let m = EnergyManager::new(5).unwrap();
    let mut state = PlanetState::new(1, 5, true);
    for _ in 0..3 {
        assert!(m.charge_with_sunray(&mut state, Sunray::new()).is_ok());
    }
    assert_eq!(m.charged_resource_cells(&state), 3);
    assert_eq!(m.charged_defense_cells(&state), 0);
    assert!(m.charge_with_sunray(&mut state, Sunray::new()).is_ok());
    assert!(state.cell(3).is_charged());
    assert!(m.charge_with_sunray(&mut state, Sunray::new()).is_ok());
    assert_eq!(m.charged_defense_cells(&state), 2);
    match m.charge_with_sunray(&mut state, Sunray::new()) {
        Err(SkycartelError::Energy(s)) => assert_eq!(s, "No discharged cells available to charge"),
        _ => panic!("a sixth charge was taken"),
    }
}

#[test]
fn rusty_planet_id_round_trips() {
    let id = RustyPlanetId::new(17);
    assert_eq!(id.as_u32(), 17);
}

#[test]
fn luna4_moves_one_phase_per_event_and_cycles() {
    let mut ai = Luna4AI::new(2);
    assert_eq!(ai.phase(), Luna4Phase::WaxingCrescent);
    assert_eq!(ai.get_available_basic(), vec![BasicResourceType::Hydrogen]);
    for _ in 0..8 {
        ai.update_phase();
    }
    assert_eq!(ai.phase(), Luna4Phase::WaxingCrescent);
    ai.update_phase();
    assert_eq!(ai.phase(), Luna4Phase::FirstQuarter);
    assert_eq!(ai.get_available_basic(), vec![BasicResourceType::Hydrogen, BasicResourceType::Carbon]);
    ai.update_phase();
    ai.update_phase();
    ai.update_phase();
    assert_eq!(ai.phase(), Luna4Phase::WaningGibbous);
    let r = ai.get_current_resources();
    assert_eq!(r.current_phase, "WaningGibbous");
    assert!(r.complex_resources.is_empty());
}

#[test]
fn luna4_planet_is_type_d_with_four_recipes() {
    let luna = Luna4::new(2).unwrap();
    let planet = luna.create_planet().unwrap();
    assert_eq!(planet.planet_type(), PlanetType::D);
    assert_eq!(planet.status(), PlanetStatus::Stopped);
    assert_eq!(planet.generator().all_available_recipes().len(), 4);
    assert_eq!(planet.ai().phase(), Luna4Phase::WaxingCrescent);
    assert_eq!(Luna4Id::new(2).label(), "Luna4#2");
}

#[test]
fn luna4_with_stats_counts_from_zero() {
    let luna = Luna4::new(6).unwrap();
    let mut planet = luna.create_planet_with_stats().unwrap();
    assert_eq!(planet.ai().stats.total_resources_generated, 0);
    planet.handle_orchestrator_msg(OrchestratorToPlanet::StartPlanetAI);
    planet.handle_orchestrator_msg(OrchestratorToPlanet::IncomingExplorerRequest { explorer_id: 1 });
    assert_eq!(planet.ai().stats.explorer_arrivals, 1);
    assert_eq!(planet.ai().stats.present_explorers, 1);
    planet.handle_orchestrator_msg(OrchestratorToPlanet::Sunray(Sunray::new()));
    assert_eq!(planet.ai().stats.charged_cells, 1);
    assert_eq!(planet.ai().stats.total_cells, 5);
}

#[test]
fn crabtorio_is_refused_for_too_many_combinations() {
    match create_crabtorio(6) {
        Err(e) => assert_eq!(e, "Too many combination rules (Planet type B is limited to 1)"),
        Ok(_) => panic!("crabtorio planet accepted"),
    }
}

#[test]
fn energy_manager_runs_work_on_the_first_charged_cell_of_a_range() {
    let m = EnergyManager::new(5).unwrap();
    let mut state = PlanetState::new(1, 5, true);
    state.cell_mut(3).charge(Sunray::new());
    match m.with_resource_cell(&mut state, |c| c.discharge()) {
        Err(SkycartelError::Energy(s)) => assert_eq!(s, "No charged energy cells available in selected range"),
        _ => panic!("an empty generation range was used"),
    }
    assert!(state.cell(3).is_charged());
    assert!(m.with_defense_cell(&mut state, |c| c.discharge()).is_ok());
    assert!(!state.cell(3).is_charged());
    assert!(!state.cell(4).is_charged());
    match m.with_defense_cell(&mut state, |c| c.discharge()) {
        Err(SkycartelError::Energy(s)) => assert_eq!(s, "No charged energy cells available in selected range"),
        _ => panic!("an empty defense range was used"),
    }
}

#[test]
fn a_held_luna4_reports_no_resources() {
    let luna = Luna4::new(1).unwrap();
    assert!(luna.get_current_resources().is_none());
}

#[test]
fn stats_from_counters_matches_snapshot() {
    let mut s = SkycartelState::new(3);
    s.record_rocket_built();
    s.record_asteroid_deflected();
    s.record_asteroid_deflected();
    let a = SkycartelStats::from(&s.stats);
    let b = SkycartelStats::snapshot(&s.stats);
    assert_eq!(a, b);
    assert_eq!(a.asteroids_deflected, 2);
    assert_eq!(a.rockets_built, 1);
    assert_eq!(SkycartelStats::default().rockets_built, 0);
}

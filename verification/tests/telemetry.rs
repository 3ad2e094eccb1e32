use std::sync::atomic::AtomicBool;
use std::sync::Arc;

use skycartel::broadcast_log::LogEntry;
use skycartel::explorer::bag::Bag;
use skycartel::game::logging::{ActorType, Channel, EventType, LogEvent, Payload};
use skycartel::game::planet::DummyPlanetState;
use skycartel::game::resource::{BasicResource, BasicResourceType, ComplexResource};
use skycartel::logging::{channel_to_level, log_planet_event, sanitize_value, LogLevel};
use skycartel::planet_ai::skycartel::RustyPlanetId;
use skycartel::planet_ai::state::SkycartelState;
use skycartel::planet_telemetry::{
    cell_states_of, CellState, CommonPlanetSnapshot, GenericPlanetTelemetry, PlanetTelemetry, SharedPlanetStats,
    SkycartelTelemetry, StatsTrackingAI,
};
use skycartel::game::planet::PlanetState;
use skycartel::game::planet_core::PlanetAI;
use skycartel::game::resource::{Combinator, Generator};
use skycartel::game::sunray::Sunray;
use skycartel::game::type_a::TypeAPlanetAI;
use skycartel::telemetry::{ExplorerSnapshot, PlanetEntry, PlanetKind, RunState};

#[test]
fn cell_states_mark_the_first_charged() {
    let cells = cell_states_of(4, 2);
    assert_eq!(
        cells,
        vec![
            CellState { index: 0, charged: true },
            CellState { index: 1, charged: true },
            CellState { index: 2, charged: false },
            CellState { index: 3, charged: false },
        ]
    );
    assert!(cell_states_of(0, 3).is_empty());
    // positions are kept to a byte
    assert_eq!(cell_states_of(300, 0)[257].index, 1);
}

#[test]
fn generic_telemetry_reads_its_counters() {
    let mut stats = SharedPlanetStats::default();
    stats.total_cells = 5;
    stats.charged_cells = 1;
    stats.present_explorers = 2;
    stats.combinations_attempted = 3;
    let t = GenericPlanetTelemetry { stats };
    let snap = t.snapshot();
    assert_eq!(snap.energy_cells, 5);
    assert_eq!(snap.charged_cells, 1);
    assert_eq!(snap.combinations_attempted, 3);
    assert_eq!(t.explorer_count(), 2);
    assert_eq!(t.cell_states().len(), 5);
    assert!(t.generation_history().is_empty());
    assert_eq!(CommonPlanetSnapshot::default().errors_encountered, 0);
}

#[test]
fn skycartel_telemetry_reports_its_state() {
    let mut state = SkycartelState::new(1);
    state.record_generation(BasicResourceType::Carbon);
    state.register_explorer_arrival(4);
    let cells = DummyPlanetState { energy_cells: vec![true, false, false, false, false], charged_cells_count: 1, has_rocket: false };
    let t = SkycartelTelemetry::capture(&state, cells);
    let snap = t.snapshot();
    assert_eq!(snap.energy_cells, 5);
    assert_eq!(snap.charged_cells, 1);
    assert_eq!(snap.total_resources_generated, 1);
    assert_eq!(snap.explorer_arrivals, 1);
    assert_eq!(t.explorer_count(), 1);
    let history = t.generation_history();
    assert_eq!(history.len(), 1);
    assert_eq!(history[0].resource, "Carbon");
}

#[test]
fn planet_entry_snapshot_keeps_name_and_kind() {
    let entry = PlanetEntry {
        name: "Skycartel".to_string(),
        kind: PlanetKind::Skycartel,
        telemetry: Box::new(GenericPlanetTelemetry { stats: SharedPlanetStats::default() }),
        ai_running: Arc::new(AtomicBool::new(true)),
    };
    let snap = entry.snapshot();
    assert_eq!(snap.name, "Skycartel");
    assert_eq!(snap.kind, PlanetKind::Skycartel);
    assert!(snap.ai_running);
    assert_eq!(snap.explorer_count, 0);
}

#[test]
fn run_state_reporting() {
    assert_eq!(RunState::for_status(0, false), RunState::Idle);
    assert_eq!(RunState::for_status(0, true), RunState::Running);
    assert_eq!(RunState::for_status(5, false), RunState::Paused);
    assert_eq!(RunState::from_flag(true), RunState::Running);
    assert_eq!(RunState::from_atomic(&AtomicBool::new(false)), RunState::Paused);
}

#[test]
fn explorer_snapshot_lists_held_types_by_name() {
    let mut bag = Bag::new();
    bag.insert_basic_resource_in_bag(BasicResource::Carbon);
    bag.insert_basic_resource_in_bag(BasicResource::Carbon);
    bag.insert_complex_resource_in_bag(ComplexResource::AIPartner);
    let snap = ExplorerSnapshot::from_bag(&bag, true);
    assert_eq!(snap.basic_resources, vec![("Carbon".to_string(), 2)]);
    assert_eq!(snap.complex_resources, vec![("AIPartner".to_string(), 1)]);
    assert!(snap.ai_running);
}

#[test]
fn planet_event_line_and_level() {
    let (level, line) = log_planet_event(
        RustyPlanetId::new(3),
        EventType::InternalPlanetAction,
        Channel::Warning,
        "Skycartel initializing",
        Some(vec![("cells".to_string(), "5".to_string()), ("note".to_string(), "a\nb\tc".to_string())]),
    );
    assert_eq!(level, LogLevel::Warn);
    assert_eq!(line, "planet_id=3 event_type=InternalPlanetAction msg=\"Skycartel initializing\" cells=5 note=a b c");
    let (level, line) = log_planet_event(RustyPlanetId::new(1), EventType::UserToPlanet, Channel::Trace, "x", None);
    assert_eq!(level, LogLevel::Trace);
    assert_eq!(line, "planet_id=1 event_type=UserToPlanet msg=\"x\"");
}

#[test]
fn channels_map_to_levels() {
    assert_eq!(channel_to_level(Channel::Info), LogLevel::Info);
    assert_eq!(channel_to_level(Channel::Error), LogLevel::Error);
    assert_eq!(channel_to_level(Channel::Debug), LogLevel::Debug);
}

#[test]
fn sanitizing_keeps_one_line() {
    assert_eq!(sanitize_value("one\r\ntwo\tthree"), "one  two three");
    assert_eq!(sanitize_value("plain"), "plain");
}

#[test]
fn log_entry_marks_player_messages() {
    let e = LogEntry::from_record_parts(
        "t".to_string(),
        "INFO".to_string(),
        "sim".to_string(),
        None,
        None,
        Some(3),
        "[PLAYER]   Explorer 1 moved  ".to_string(),
    );
    assert!(e.player);
    assert_eq!(e.message, "Explorer 1 moved");
    assert_eq!(e.line, Some(3));
    let e = LogEntry::from_record_parts("t".to_string(), "INFO".to_string(), "sim".to_string(), None, None, None, "[PLAY".to_string());
    assert!(!e.player);
    assert_eq!(e.message, "[PLAY");
    let e = LogEntry::from_record_parts("t".to_string(), "INFO".to_string(), "sim".to_string(), None, None, None, "[PLAYER]".to_string());
    assert!(e.player);
    assert_eq!(e.message, "");
}

#[test]
fn log_events_carry_their_data() {
    let mut p = Payload::new();
    p.insert("k".to_string(), "v".to_string());
    let e = LogEvent::planet_to_orchestrator(4, p).with_kv("k".to_string(), "w".to_string());
    assert_eq!(e.sender_type, ActorType::Planet);
    assert_eq!(e.sender_id, 4);
    assert_eq!(e.receiver_type, ActorType::Orchestrator);
    assert_eq!(e.event_type, EventType::MessagePlanetToOrchestrator);
    assert_eq!(e.emit(), LogLevel::Info);
    assert_eq!(LogEvent::id_from_str("abc"), LogEvent::id_from_str("abc"));
    assert_ne!(LogEvent::id_from_str("abc"), LogEvent::id_from_str("abd"));
}

#[test]
fn stats_tracking_ai_answers_as_the_wrapped_behaviour() {
    let mut ai = StatsTrackingAI { inner: TypeAPlanetAI::new(), stats: SharedPlanetStats::default() };
    let mut state = PlanetState::new(3, 5, true);
    let mut generator = Generator::new();
    assert!(generator.add(BasicResourceType::Oxygen).is_ok());
    let combinator = Combinator::new();

    let overview = ai.handle_internal_state_req(&mut state, &generator, &combinator);
    assert_eq!(overview.energy_cells, vec![false; 5]);
    assert_eq!(overview.charged_cells_count, 0);

    assert!(ai.handle_asteroid(&mut state, &generator, &combinator).is_none());
    assert_eq!(ai.stats.asteroids_deflected, 0);

    state.cell_mut(0).charge(Sunray::new());
    assert!(ai.handle_asteroid(&mut state, &generator, &combinator).is_some());
    assert_eq!(ai.stats.asteroids_deflected, 1);
    assert_eq!(ai.stats.rockets_built, 1);
    assert!(!state.cell(0).is_charged());

    ai.inner.handle_sunray(&mut state, &generator, &combinator, Sunray::new());
    assert_eq!(ai.inner.sunray_seen(), 1);
    ai.on_start(&state, &generator, &combinator);
    assert_eq!(ai.inner.sunray_seen(), 0);
    ai.on_stop(&state, &generator, &combinator);
    assert_eq!(ai.stats.rockets_built, 1);
}

#[test]
fn planet_entry_snapshot_reports_its_telemetry() {
    let mut stats = SharedPlanetStats::default();
    stats.present_explorers = 2;
    stats.rockets_built = 3;
    stats.total_cells = 5;
    let entry = PlanetEntry {
        name: "Luna4".to_string(),
        kind: PlanetKind::Luna4,
        telemetry: Box::new(GenericPlanetTelemetry { stats }),
        ai_running: Arc::new(AtomicBool::new(false)),
    };
    let snap = entry.snapshot();
    assert_eq!(snap.explorer_count, 2);
    assert_eq!(snap.stats.rockets_built, 3);
    assert_eq!(snap.stats.energy_cells, 5);
    assert!(!snap.ai_running);
}

#[test]
fn planet_entry_snapshot_of_shows_the_readings() {
    let entry = PlanetEntry {
        name: "Skycartel".to_string(),
        kind: PlanetKind::Skycartel,
        telemetry: Box::new(GenericPlanetTelemetry { stats: SharedPlanetStats::default() }),
        ai_running: Arc::new(AtomicBool::new(false)),
    };
    let mut stats = CommonPlanetSnapshot::default();
    stats.rockets_built = 4;
    let snap = entry.snapshot_of(stats, 3, true);
    assert_eq!(snap.name, "Skycartel");
    assert_eq!(snap.stats.rockets_built, 4);
    assert_eq!(snap.explorer_count, 3);
    assert!(snap.ai_running);
}

#[test]
fn log_event_renders_as_one_line_with_sorted_data() {
    let mut p = Payload::new();
    p.insert("zeta".to_string(), "last".to_string());
    p.insert("alpha".to_string(), "say \"hi\"".to_string());
    p.insert("mid".to_string(), "1".to_string());
    let e = LogEvent::stamped(
        -5,
        ActorType::Planet,
        7,
        ActorType::Orchestrator,
        "orchestrator".to_string(),
        EventType::MessagePlanetToOrchestrator,
        Channel::Warning,
        p,
    );
    assert_eq!(e.timestamp_unix, -5);
    assert_eq!(
        e.render(),
        "LogEvent { ts: -5, sender: Planet#7, receiver: Orchestrator/orchestrator, event: MessagePlanetToOrchestrator, channel: Warning, payload: {\"alpha\": \"say \\\"hi\\\"\", \"mid\": \"1\", \"zeta\": \"last\"} }"
    );
    let empty = LogEvent::stamped(0, ActorType::User, 0, ActorType::Planet, "3".to_string(), EventType::UserToPlanet, Channel::Info, Payload::new());
    assert_eq!(
        empty.render(),
        "LogEvent { ts: 0, sender: User#0, receiver: Planet/3, event: UserToPlanet, channel: Info, payload: {} }"
    );
}

#[test]
fn player_text_loses_unicode_whitespace_around_it() {
    let e = LogEntry::from_record_parts(
        "t".to_string(),
        "INFO".to_string(),
        "x".to_string(),
        None,
        None,
        None,
        "[PLAYER] \u{3000}\u{a0}found water\u{2009}\n".to_string(),
    );
    assert!(e.player);
    assert_eq!(e.message, "found water");
}

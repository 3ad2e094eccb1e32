use skycartel::game::energy_cell::EnergyCell;
use skycartel::game::forge::{Forge, ForgeRegistry};
use skycartel::game::planet::{PlanetState, PlanetType};
use skycartel::game::planet_core::Planet;
use skycartel::game::resource::{
    BasicResource, BasicResourceType, Combinator, ComplexResource, ComplexResourceRequest, ComplexResourceType,
    GenericResource, Generator,
};
use skycartel::game::rocket::Rocket;
use skycartel::game::sunray::Sunray;
use skycartel::game::type_a::TypeAPlanetAI;

#[test]
fn constructor_creates_uncharged_cell() {
    let cell = EnergyCell::new();
    assert!(!cell.is_charged());
}

#[test]
fn charging_sets_state_to_charged() {
    let mut cell = EnergyCell::new();
    cell.charge(Sunray::new());
    assert!(cell.is_charged());
}

#[test]
fn discharge_works_when_charged() {
    let mut cell = EnergyCell::new();
    cell.charge(Sunray::new());
    let res = cell.discharge();
    assert!(res.is_ok());
    assert!(!cell.is_charged());
}

#[test]
fn discharge_fails_when_empty() {
    let mut cell = EnergyCell::new();
    let res = cell.discharge();
    assert!(res.is_err());
    assert_eq!(res.unwrap_err(), "EnergyCell not charged!");
}

#[test]
fn charging_already_charged_cell_wastes_sunray() {
    let mut cell = EnergyCell::new();
    cell.charge(Sunray::new());
    assert!(cell.is_charged());
    cell.charge(Sunray::new());
    assert!(cell.is_charged());
}

#[test]
fn discharge_failure_does_not_change_state() {
    let mut cell = EnergyCell::new();
    let _ = cell.discharge();
    assert!(!cell.is_charged());
}

#[test]
fn binary_state_constraint() {
    let mut cell = EnergyCell::new();
    assert!(!cell.is_charged());
    cell.charge(Sunray::new());
    assert!(cell.is_charged());
    cell.discharge().unwrap();
    assert!(!cell.is_charged());
}

#[test]
fn energy_cell_default_is_uncharged() {
    let cell: EnergyCell = Default::default();
    assert!(!cell.is_charged());
}

#[test]
fn test_forge_first_creation_succeeds() {
    let mut registry = ForgeRegistry::new();
    let forge = Forge::new(&mut registry);
    assert!(forge.is_ok());
}

#[test]
fn test_forge_second_creation_fails() {
    let mut registry = ForgeRegistry::new();
    let forge0 = Forge::new(&mut registry);
    assert!(forge0.is_ok());

    let forge1 = Forge::new(&mut registry);
    assert!(forge1.is_err());

    forge0.unwrap().release(&mut registry);
}

#[test]
fn test_forge_generates_sunray() {
    let mut registry = ForgeRegistry::new();
    let forge = Forge::new(&mut registry).expect("Failed to create forge");
    let _sunray = forge.generate_sunray();
    forge.release(&mut registry);
}

#[test]
fn test_forge_drop_resets_singleton() {
    let mut registry = ForgeRegistry::new();
    {
        let forge = Forge::new(&mut registry).expect("First forge failed");
        assert!(Forge::new(&mut registry).is_err());
        forge.release(&mut registry);
    }

    let forge2 = Forge::new(&mut registry);
    assert!(forge2.is_ok());
}

#[test]
fn second_forge_is_refused_with_its_message() {
    let mut registry = ForgeRegistry::new();
    let _forge = Forge::new(&mut registry).unwrap();
    assert!(registry.is_taken());
    match Forge::new(&mut registry) {
        Err(e) => assert_eq!(e, "Another Forge has already been created"),
        Ok(_) => panic!("a second forge was made"),
    }
}

#[test]
fn test_planet_state_rocket_construction() {
    let mut state = PlanetState::new(0, 1, true);

    let cell = state.cell_mut(0);
    let sunray = Sunray::new();
    cell.charge(sunray);

    let res = state.build_rocket(0);
    assert!(res.is_ok());
    assert!(state.has_rocket());
    assert!(!state.cell(0).is_charged());

    let rocket = state.take_rocket();
    assert!(rocket.is_some());
    assert!(!state.has_rocket());
}

#[test]
fn test_planet_state_type_b_no_rocket() {
    let mut state = PlanetState::new(0, 1, false);

    let cell = state.cell_mut(0);
    cell.charge(Sunray::new());

    let res = state.build_rocket(0);
    assert!(res.is_err(), "Type B should not be able to build rockets");
}

#[test]
fn build_rocket_errors_name_the_reason() {
    let mut no_rockets = PlanetState::new(3, 1, false);
    no_rockets.cell_mut(0).charge(Sunray::new());
    assert_eq!(no_rockets.build_rocket(0).unwrap_err(), "This planet type can't have rockets.");
    assert!(no_rockets.cell(0).is_charged());

    let mut state = PlanetState::new(3, 2, true);
    state.cell_mut(0).charge(Sunray::new());
    state.cell_mut(1).charge(Sunray::new());
    assert!(state.build_rocket(0).is_ok());
    assert_eq!(state.build_rocket(1).unwrap_err(), "This planet already has a rocket.");
    assert!(state.cell(1).is_charged());
}

#[test]
fn charge_cell_fills_the_first_empty_cell() {
    let mut state = PlanetState::new(5, 3, false);
    assert!(state.charge_cell(Sunray::new()).is_none());
    assert!(state.cell(0).is_charged());
    assert!(!state.cell(1).is_charged());
    assert!(state.charge_cell(Sunray::new()).is_none());
    assert!(state.charge_cell(Sunray::new()).is_none());
    // every cell full: the sunray comes back
    assert!(state.charge_cell(Sunray::new()).is_some());
    let d = state.to_dummy();
    assert_eq!(d.energy_cells, vec![true, true, true]);
    assert_eq!(d.charged_cells_count, 3);
    assert!(!d.has_rocket);
}

#[test]
fn planet_type_constraints_table() {
    let a = PlanetType::A.constraints();
    assert_eq!(a.n_energy_cells, 5);
    assert!(!a.unbounded_gen_rules);
    assert!(a.can_have_rocket);
    assert_eq!(a.n_comb_rules, 0);
    let b = PlanetType::B.constraints();
    assert_eq!((b.n_energy_cells, b.unbounded_gen_rules, b.can_have_rocket, b.n_comb_rules), (1, true, false, 1));
    let c = PlanetType::C.constraints();
    assert_eq!((c.n_energy_cells, c.unbounded_gen_rules, c.can_have_rocket, c.n_comb_rules), (1, false, true, 6));
    let d = PlanetType::D.constraints();
    assert_eq!((d.n_energy_cells, d.unbounded_gen_rules, d.can_have_rocket, d.n_comb_rules), (5, true, false, 0));
}

#[test]
fn test_planet_construction_constraints() {
    let valid_gen = vec![BasicResourceType::Oxygen];
    let valid_planet = Planet::new(1, PlanetType::A, TypeAPlanetAI::new(), valid_gen, vec![]);
    assert!(valid_planet.is_ok());

    let invalid_empty = Planet::new(1, PlanetType::A, TypeAPlanetAI::new(), vec![], vec![]);
    assert!(invalid_empty.is_err());

    let invalid_gen = Planet::new(
        1,
        PlanetType::A,
        TypeAPlanetAI::new(),
        vec![BasicResourceType::Oxygen, BasicResourceType::Hydrogen],
        vec![],
    );
    assert!(invalid_gen.is_err());
}

#[test]
fn planet_construction_error_messages() {
    match Planet::new(1, PlanetType::A, TypeAPlanetAI::new(), vec![], vec![]) {
        Err(e) => assert_eq!(e, "gen_rules is empty"),
        Ok(_) => panic!("empty recipes accepted"),
    }
    match Planet::new(
        1,
        PlanetType::C,
        TypeAPlanetAI::new(),
        vec![BasicResourceType::Oxygen, BasicResourceType::Carbon],
        vec![],
    ) {
        Err(e) => assert_eq!(e, "Too many generation rules (Planet type C is limited to 1)"),
        Ok(_) => panic!("two recipes accepted for type C"),
    }
    match Planet::new(
        1,
        PlanetType::B,
        TypeAPlanetAI::new(),
        vec![BasicResourceType::Oxygen],
        vec![ComplexResourceType::Water, ComplexResourceType::Diamond],
    ) {
        Err(e) => assert_eq!(e, "Too many combination rules (Planet type B is limited to 1)"),
        Ok(_) => panic!("two combinations accepted for type B"),
    }
}

#[test]
fn test_resource_creation() {
    let gen_rules = vec![BasicResourceType::Oxygen, BasicResourceType::Hydrogen];
    let comb_rules = vec![ComplexResourceType::Water];
    let planet = Planet::new(0, PlanetType::B, TypeAPlanetAI::new(), gen_rules, comb_rules).unwrap();

    let mut state = PlanetState::new(0, 1, false);
    let generator = planet.generator();
    let combinator = planet.combinator();

    let cell = state.cell_mut(0);
    cell.charge(Sunray::new());
    let oxygen = generator.try_make(BasicResourceType::Oxygen, cell);
    assert!(oxygen.is_ok());
    assert_eq!(oxygen.unwrap(), BasicResource::Oxygen);

    let cell = state.cell_mut(0);
    cell.charge(Sunray::new());
    let hydrogen = generator.try_make(BasicResourceType::Hydrogen, cell);
    assert!(hydrogen.is_ok());

    let cell = state.cell_mut(0);
    cell.charge(Sunray::new());
    let water = combinator.try_make(ComplexResourceRequest::Water, cell);
    assert!(water.is_ok());
    assert_eq!(water.unwrap(), ComplexResource::Water);

    let carbon = generator.try_make(BasicResourceType::Carbon, cell);
    assert!(carbon.is_err());
}

#[test]
fn failed_combination_hands_back_both_ingredients() {
    let mut comb = Combinator::new();
    assert!(comb.add(ComplexResourceType::Water).is_ok());
    assert_eq!(comb.add(ComplexResourceType::Water).unwrap_err(), "Recipe already present");
    let mut cell = EnergyCell::new();
    match comb.try_make(ComplexResourceRequest::Water, &mut cell) {
        Err((msg, a, b)) => {
            assert_eq!(msg, "EnergyCell not charged!");
            assert_eq!(a, GenericResource::BasicResources(BasicResource::Hydrogen));
            assert_eq!(b, GenericResource::BasicResources(BasicResource::Oxygen));
        },
        Ok(_) => panic!("combined with an empty cell"),
    }
    cell.charge(Sunray::new());
    match comb.try_make(ComplexResourceRequest::Diamond, &mut cell) {
        Err((msg, _, _)) => assert_eq!(msg, "Recipe not available on this planet"),
        Ok(_) => panic!("combined without the recipe"),
    }
    assert!(cell.is_charged());
}

#[test]
fn generator_keeps_recipes_once() {
    let mut g = Generator::new();
    assert!(g.add(BasicResourceType::Carbon).is_ok());
    assert!(g.add(BasicResourceType::Carbon).is_err());
    assert!(g.contains(BasicResourceType::Carbon));
    assert!(!g.contains(BasicResourceType::Oxygen));
    assert_eq!(g.all_available_recipes(), vec![BasicResourceType::Carbon]);
}

#[test]
fn test_rocket_construction_success() {
    let mut cell = EnergyCell::new();
    cell.charge(Sunray::new());

    let result = Rocket::new(&mut cell);
    assert!(result.is_ok(), "Rocket construction should succeed with charged cell");
    assert!(!cell.is_charged(), "Cell should be discharged after rocket construction");
}

#[test]
fn test_rocket_construction_fails_without_charge() {
    let mut cell = EnergyCell::new();

    let result = Rocket::new(&mut cell);
    assert!(result.is_err(), "Rocket construction should fail with uncharged cell");
    assert!(!cell.is_charged(), "Cell should remain uncharged after failed construction");
}

#[test]
fn test_rocket_construction_fails_already_discharged() {
    let mut cell = EnergyCell::new();
    cell.charge(Sunray::new());
    cell.discharge().unwrap();

    let result = Rocket::new(&mut cell);
    assert!(result.is_err(), "Rocket construction should fail if cell was already discharged");
}

#[test]
fn test_rocket_is_owned_after_construction() {
    let mut cell = EnergyCell::new();
    cell.charge(Sunray::new());

    let rocket = Rocket::new(&mut cell).expect("Failed to construct rocket");

    assert!(true, "Rocket is owned and ready for deployment");
    drop(rocket);
}

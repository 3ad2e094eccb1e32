use skycartel::explorer::ai::{CollectAction, ExplorerAi, ExplorerPhase};
use skycartel::explorer::bag::{build_request, Bag};
use skycartel::explorer::explorer::{Explorer, Step};
use skycartel::explorer::plan::{pick_best_goal, plan_for_with_bag};
use skycartel::game::messages::{ExplorerToOrchestrator, ExplorerToPlanet, PlanetToExplorer};
use skycartel::game::resource::{
    BasicResource, BasicResourceType, ComplexResource, ComplexResourceRequest, ComplexResourceType, GenericResource,
};

use BasicResourceType::{Carbon, Hydrogen, Oxygen, Silicon};
use ComplexResourceType::{AIPartner, Diamond, Dolphin, Life, Robot, Water};

#[test]
fn bag_put_then_take_round_trips() {
    let mut bag = Bag::new();
    assert_eq!(bag.basic_count(Carbon), 0);
    bag.insert_basic_resource_in_bag(BasicResource::Carbon);
    bag.insert_basic_resource_in_bag(BasicResource::Carbon);
    assert_eq!(bag.basic_count(Carbon), 2);
    assert_eq!(bag.take_basic_resource(Carbon), Some(BasicResource::Carbon));
    assert_eq!(bag.basic_count(Carbon), 1);
    assert_eq!(bag.take_complex_resource(Water), None);
    bag.insert_complex_resource_in_bag(ComplexResource::Water);
    assert_eq!(bag.take_complex_resource(Water), Some(ComplexResource::Water));
    assert_eq!(bag.complex_count(Water), 0);
}

#[test]
fn bag_summary_reports_types_ever_held() {
    let mut bag = Bag::new();
    let s = bag.to_summary();
    assert_eq!(s.basic_resources, vec![None, None, None, None]);
    bag.insert_basic_resource_in_bag(BasicResource::Hydrogen);
    bag.take_basic_resource(Hydrogen);
    let s = bag.to_summary();
    assert_eq!(s.basic_resources, vec![None, Some(0), None, None]);
    assert_eq!(bag.basic_counts(), vec![0, 0, 0, 0]);
}

#[test]
fn bag_limits() {
    let mut bag = Bag::new();
    for _ in 0..20 {
        assert!(!bag.is_basic_full(Oxygen));
        bag.insert_basic_resource_in_bag(BasicResource::Oxygen);
    }
    assert!(bag.is_basic_full(Oxygen));
    for _ in 0..5 {
        bag.insert_complex_resource_in_bag(ComplexResource::Dolphin);
    }
    assert!(bag.is_complex_full(Dolphin));
    for _ in 0..5 {
        bag.insert_complex_resource_in_bag(ComplexResource::Robot);
    }
    assert!(!bag.is_complex_full(Robot));
}

#[test]
fn restore_resource_puts_units_back() {
    let mut bag = Bag::new();
    bag.restore_resource(GenericResource::BasicResources(BasicResource::Silicon));
    bag.restore_resource(GenericResource::ComplexResources(ComplexResource::Life));
    assert_eq!(bag.basic_count(Silicon), 1);
    assert_eq!(bag.complex_count(Life), 1);
}

#[test]
fn build_request_takes_both_ingredients() {
    let mut bag = Bag::new();
    bag.insert_basic_resource_in_bag(BasicResource::Hydrogen);
    bag.insert_basic_resource_in_bag(BasicResource::Oxygen);
    assert_eq!(build_request(&mut bag, Water), Some(ComplexResourceRequest::Water));
    assert_eq!(bag.basic_count(Hydrogen), 0);
    assert_eq!(bag.basic_count(Oxygen), 0);
}

#[test]
fn build_request_loses_the_first_ingredient_when_the_second_is_missing() {
    let mut bag = Bag::new();
    bag.insert_basic_resource_in_bag(BasicResource::Hydrogen);
    assert_eq!(build_request(&mut bag, Water), None);
    assert_eq!(bag.basic_count(Hydrogen), 0);
    let mut empty = Bag::new();
    assert_eq!(build_request(&mut empty, Diamond), None);
}

#[test]
fn plan_for_dolphin_counts_planned_units() {
    let p = plan_for_with_bag(Dolphin, &vec![0, 0, 0, 0, 0, 0]);
    assert_eq!(p.goal, Some(Dolphin));
    assert_eq!(p.basics_needed, vec![Hydrogen, Oxygen, Carbon]);
    assert_eq!(p.combination_sequence, vec![Water, Life, Dolphin]);
}

#[test]
fn plan_for_ai_partner_from_scratch() {
    let p = plan_for_with_bag(AIPartner, &vec![0, 0, 0, 0, 0, 0]);
    assert_eq!(p.basics_needed, vec![Hydrogen, Oxygen, Carbon, Silicon, Carbon, Carbon]);
    assert_eq!(p.combination_sequence, vec![Water, Life, Robot, Diamond, AIPartner]);
}

#[test]
fn plan_uses_what_the_bag_holds() {
    // one water in the bag: life needs only carbon
    let p = plan_for_with_bag(Life, &vec![1, 0, 0, 0, 0, 0]);
    assert_eq!(p.basics_needed, vec![Carbon]);
    assert_eq!(p.combination_sequence, vec![Life]);
}

#[test]
fn pick_best_goal_takes_the_first_feasible_goal() {
    let p = pick_best_goal(&vec![Oxygen], &vec![Water], &vec![0, 0, 0, 0], &vec![0, 0, 0, 0, 0, 0], &vec![Hydrogen, Oxygen]);
    assert_eq!(p.goal, Some(Water));
    assert_eq!(p.basics_needed, vec![Hydrogen, Oxygen]);
    assert_eq!(p.combination_sequence, vec![Water]);
}

#[test]
fn pick_best_goal_uses_basics_in_the_bag() {
    // carbon is not known anywhere, but two are in the bag
    let p = pick_best_goal(&vec![], &vec![Diamond], &vec![0, 0, 2, 0], &vec![0, 0, 0, 0, 0, 0], &vec![]);
    assert_eq!(p.goal, Some(Diamond));
    assert_eq!(p.basics_needed, vec![Carbon, Carbon]);
}

#[test]
fn pick_best_goal_stocks_up_without_a_goal() {
    let p = pick_best_goal(&vec![Carbon, Oxygen], &vec![], &vec![0, 0, 0, 0], &vec![0, 0, 0, 0, 0, 0], &vec![Carbon]);
    assert_eq!(p.goal, None);
    assert_eq!(p.basics_needed.len(), 40);
    assert!(p.basics_needed[..20].iter().all(|b| *b == Carbon));
    assert!(p.basics_needed[20..].iter().all(|b| *b == Oxygen));
    assert!(p.combination_sequence.is_empty());
}

#[test]
fn pick_best_goal_skips_full_goals() {
    let p = pick_best_goal(&vec![], &vec![Water], &vec![0, 0, 0, 0], &vec![10, 0, 0, 0, 0, 0], &vec![Hydrogen, Oxygen]);
    assert_eq!(p.goal, None);
    assert!(p.basics_needed.is_empty());
}

#[test]
fn explorer_handlers() {
    let mut e = Explorer::new(7, 1);
    assert_eq!(e.id(), 7);
    assert_eq!(e.current_planet_id(), 1);
    assert!(!e.ai_running());
    match e.handle_move_to_planet(3) {
        ExplorerToOrchestrator::MovedToPlanetResult { explorer_id, planet_id } => {
            assert_eq!((explorer_id, planet_id), (7, 3));
        },
        _ => panic!("expected a move result"),
    }
    assert_eq!(e.current_planet_id(), 3);
    match e.handle_current_planet_request() {
        ExplorerToOrchestrator::CurrentPlanetResult { planet_id, .. } => assert_eq!(planet_id, 3),
        _ => panic!("expected the current planet"),
    }
    let (_, started) = e.handle_start_explorer_ai();
    assert!(started);
    let (_, started_again) = e.handle_start_explorer_ai();
    assert!(!started_again);
    match e.begin_generate_resource_request(Carbon) {
        Step::Reply(ExplorerToOrchestrator::GenerateResourceResponse { generated: Err(m), .. }) => {
            assert_eq!(m, "Explorer AI is running; manual generation not permitted");
        },
        _ => panic!("manual generation allowed while the AI runs"),
    }
    e.handle_stop_explorer_ai();
    match e.begin_generate_resource_request(Carbon) {
        Step::AskPlanet(ExplorerToPlanet::GenerateResourceRequest { explorer_id, resource }) => {
            assert_eq!(explorer_id, 7);
            assert_eq!(resource, Carbon);
        },
        _ => panic!("expected a request to the planet"),
    }
    match e.finish_generate_resource_request(Some(PlanetToExplorer::GenerateResourceResponse {
        resource: Some(BasicResource::Carbon),
    })) {
        ExplorerToOrchestrator::GenerateResourceResponse { generated: Ok(()), .. } => {},
        _ => panic!("expected success"),
    }
    assert_eq!(e.bag().basic_count(Carbon), 1);
    match e.finish_generate_resource_request(None) {
        ExplorerToOrchestrator::GenerateResourceResponse { generated: Err(m), .. } => assert_eq!(m, "No response from Planet"),
        _ => panic!("expected a failure"),
    }
    match e.begin_combine_resource_request(Diamond) {
        Step::Reply(ExplorerToOrchestrator::CombineResourceResponse { generated: Err(m), .. }) => {
            assert_eq!(m, "Not enough resources in bag");
        },
        _ => panic!("combined without ingredients"),
    }
    e.handle_reset_explorer_ai();
    assert!(e.ai_running());
    assert_eq!(e.bag().basic_count(Carbon), 0);
}

#[test]
fn explorer_combination_handback() {
    let mut e = Explorer::new(2, 1);
    e.finish_generate_resource_request(Some(PlanetToExplorer::GenerateResourceResponse { resource: Some(BasicResource::Hydrogen) }));
    e.finish_generate_resource_request(Some(PlanetToExplorer::GenerateResourceResponse { resource: Some(BasicResource::Oxygen) }));
    match e.begin_combine_resource_request(Water) {
        Step::AskPlanet(ExplorerToPlanet::CombineResourceRequest { msg, .. }) => assert_eq!(msg, ComplexResourceRequest::Water),
        _ => panic!("expected a combination request"),
    }
    assert_eq!(e.bag().basic_count(Hydrogen), 0);
    let answer = PlanetToExplorer::CombineResourceResponse {
        complex_response: Err((
            "no".to_string(),
            GenericResource::BasicResources(BasicResource::Hydrogen),
            GenericResource::BasicResources(BasicResource::Oxygen),
        )),
    };
    match e.finish_combine_resource_request(Some(answer)) {
        ExplorerToOrchestrator::CombineResourceResponse { generated: Err(m), .. } => assert_eq!(m, "no"),
        _ => panic!("expected the planet's refusal"),
    }
    assert_eq!(e.bag().basic_count(Hydrogen), 1);
    assert_eq!(e.bag().basic_count(Oxygen), 1);
}

#[test]
fn autonomous_ai_collects_crafts_and_moves() {
    let mut ai = ExplorerAi::new();
    let mut bag = Bag::new();
    assert_eq!(ai.phase(), ExplorerPhase::Scout);

    ai.scout_resources(PlanetToExplorer::SupportedResourceResponse { resource_list: vec![Oxygen, Hydrogen] });
    ai.scout_combinations(PlanetToExplorer::SupportedCombinationResponse { combination_list: vec![Water] }, 1);
    assert_eq!(ai.phase(), ExplorerPhase::Plan);

    let goal = ai.plan(&bag);
    assert_eq!(goal, Some(Water));
    assert_eq!(ai.phase(), ExplorerPhase::Collect);
    assert_eq!(ai.remaining_basics(), &vec![Hydrogen, Oxygen]);
    assert_eq!(ai.remaining_combos(), &vec![Water]);

    assert_eq!(ai.collect_next(&bag), CollectAction::Generate(Hydrogen));
    let wait = ai.collect_answer(&mut bag, PlanetToExplorer::GenerateResourceResponse { resource: Some(BasicResource::Hydrogen) });
    assert_eq!(wait, 0);
    assert_eq!(ai.collect_next(&bag), CollectAction::Generate(Oxygen));
    ai.collect_answer(&mut bag, PlanetToExplorer::GenerateResourceResponse { resource: Some(BasicResource::Oxygen) });
    assert_eq!(ai.collect_next(&bag), CollectAction::Continue);
    assert_eq!(ai.phase(), ExplorerPhase::Craft);

    let req = ai.craft_next(&mut bag);
    assert_eq!(req, Some(ComplexResourceRequest::Water));
    assert_eq!(bag.basic_count(Hydrogen), 0);
    ai.craft_answer(&mut bag, PlanetToExplorer::CombineResourceResponse { complex_response: Ok(ComplexResource::Water) });
    assert_eq!(bag.complex_count(Water), 1);
    assert!(ai.remaining_combos().is_empty());

    assert_eq!(ai.craft_next(&mut bag), None);
    assert_eq!(ai.phase(), ExplorerPhase::Move);

    assert_eq!(ai.choose_destination(1, &vec![2, 3]), Some(2));
    assert_eq!(ai.phase(), ExplorerPhase::Scout);
    assert_eq!(ai.visit_count(1), 1);
    assert_eq!(ai.choose_destination(1, &vec![2, 3]), Some(3));
    assert_eq!(ai.choose_destination(1, &vec![]), None);
}

#[test]
fn collecting_turns_the_generated_basic_to_the_front() {
    let mut ai = ExplorerAi::new();
    let bag = Bag::new();
    // hydrogen was seen on planet 2; this planet generates oxygen only
    ai.scout_resources(PlanetToExplorer::SupportedResourceResponse { resource_list: vec![Hydrogen] });
    ai.scout_resources(PlanetToExplorer::SupportedResourceResponse { resource_list: vec![Oxygen] });
    ai.scout_combinations(PlanetToExplorer::SupportedCombinationResponse { combination_list: vec![Water] }, 1);
    assert_eq!(ai.plan(&bag), Some(Water));
    assert_eq!(ai.remaining_basics(), &vec![Hydrogen, Oxygen]);
    assert_eq!(ai.collect_next(&bag), CollectAction::Generate(Oxygen));
    assert_eq!(ai.remaining_basics(), &vec![Oxygen, Hydrogen]);
}

#[test]
fn collecting_gives_up_after_ten_failures() {
    let mut ai = ExplorerAi::new();
    let mut bag = Bag::new();
    ai.scout_resources(PlanetToExplorer::SupportedResourceResponse { resource_list: vec![Hydrogen, Oxygen] });
    ai.scout_combinations(PlanetToExplorer::SupportedCombinationResponse { combination_list: vec![Water] }, 1);
    ai.plan(&bag);
    for attempt in 1..10u64 {
        let wait = ai.collect_answer(&mut bag, PlanetToExplorer::GenerateResourceResponse { resource: None });
        assert_eq!(wait, 50 * attempt);
        assert_eq!(ai.remaining_basics().len(), 2);
    }
    let wait = ai.collect_answer(&mut bag, PlanetToExplorer::GenerateResourceResponse { resource: None });
    assert_eq!(wait, 0);
    assert_eq!(ai.remaining_basics(), &vec![Oxygen]);
}

#[test]
fn collecting_moves_on_when_nothing_here_helps() {
    let mut ai = ExplorerAi::new();
    let bag = Bag::new();
    ai.scout_resources(PlanetToExplorer::SupportedResourceResponse { resource_list: vec![Silicon] });
    ai.scout_combinations(PlanetToExplorer::SupportedCombinationResponse { combination_list: vec![] }, 4);
    ai.plan(&bag);
    // no goal is known: stock up on silicon
    assert_eq!(ai.remaining_basics().len(), 20);
    assert_eq!(ai.collect_next(&bag), CollectAction::Generate(Silicon));
}

#[test]
fn moving_prefers_a_neighbour_known_to_combine() {
    let mut ai = ExplorerAi::new();
    let mut bag = Bag::new();
    // planet 5 makes water; planet 1 generates the basics
    ai.scout_resources(PlanetToExplorer::SupportedResourceResponse { resource_list: vec![] });
    ai.scout_combinations(PlanetToExplorer::SupportedCombinationResponse { combination_list: vec![Water] }, 5);
    ai.scout_resources(PlanetToExplorer::SupportedResourceResponse { resource_list: vec![Hydrogen, Oxygen] });
    ai.scout_combinations(PlanetToExplorer::SupportedCombinationResponse { combination_list: vec![] }, 1);
    ai.plan(&bag);
    ai.collect_next(&bag);
    ai.collect_answer(&mut bag, PlanetToExplorer::GenerateResourceResponse { resource: Some(BasicResource::Hydrogen) });
    ai.collect_next(&bag);
    ai.collect_answer(&mut bag, PlanetToExplorer::GenerateResourceResponse { resource: Some(BasicResource::Oxygen) });
    ai.collect_next(&bag);
    // water is not made here
    assert_eq!(ai.craft_next(&mut bag), None);
    assert_eq!(ai.phase(), ExplorerPhase::Move);
    assert_eq!(ai.choose_destination(1, &vec![3, 5, 6]), Some(5));
    assert_eq!(ai.visit_count(1), 0);
}

use vstd::prelude::*;

use crate::game::messages::{
    ExplorerToPlanet, OrchestratorToPlanet, PlanetToExplorer, PlanetToOrchestrator,
    spec_explorer_id, spec_planet_id,
};
use crate::game::planet::{spec_constraints, DummyPlanetState, PlanetState, PlanetStateView, PlanetType};
use crate::game::resource::{BasicResourceType, Combinator, ComplexResourceType, Generator};
use crate::game::rocket::Rocket;
use crate::game::sunray::Sunray;
use crate::text::push_decimal;

verus! {

/// What a planet keeps of its state through any handler: its id, its number
/// of cells, and the rocket permission of its type.
pub open spec fn keeps_shape(before: crate::game::planet::PlanetStateView, after: crate::game::planet::PlanetStateView) -> bool {
    &&& after.id == before.id
    &&& after.cells.len() == before.cells.len()
    &&& after.can_have_rocket == before.can_have_rocket
}

/// Over any run of steps that each keep the planet's shape (every handler
/// of a behaviour, and every method of the planet state), the planet keeps
/// the id, the number of cells and the rocket permission it started with.
pub proof fn lemma_shape_kept_over_run(states: Seq<crate::game::planet::PlanetStateView>)
    requires
        forall|i: int| 0 <= i < states.len() - 1 ==> keeps_shape(#[trigger] states[i], states[i + 1]),
    ensures
        forall|i: int| 0 <= i < states.len() ==> keeps_shape(states[0], #[trigger] states[i]),
    decreases states.len(),
{
    if states.len() > 1 {
        let prefix = states.drop_last();
        assert forall|i: int| 0 <= i < prefix.len() - 1 implies keeps_shape(#[trigger] prefix[i], prefix[i + 1]) by {
            assert(prefix[i] == states[i] && prefix[i + 1] == states[i + 1]);
            assert(keeps_shape(states[i], states[i + 1]));
        }
        lemma_shape_kept_over_run(prefix);
        assert forall|i: int| 0 <= i < states.len() implies keeps_shape(states[0], #[trigger] states[i]) by {
            if i < states.len() - 1 {
                assert(prefix[i] == states[i]);
                assert(keeps_shape(prefix[0], prefix[i]));
            } else {
                assert(keeps_shape(states[i - 1], states[i]));
                assert(prefix[i - 1] == states[i - 1]);
                assert(keeps_shape(prefix[0], prefix[i - 1]));
            }
        }
    }
}

/// A new planet of type `t` has five cells for types A and D and one for B
/// and C, and may hold a rocket exactly for types A and C; no step changes
/// either afterwards (see [`lemma_shape_kept_over_run`]).
pub proof fn lemma_type_shape(t: PlanetType)
    ensures
        spec_constraints(t).0 == (if t == PlanetType::A || t == PlanetType::D { 5usize } else { 1usize }),
        spec_constraints(t).2 == (t == PlanetType::A || t == PlanetType::C),
{
}

/// The behaviour of a planet: its handlers are called by the planet core when
/// messages arrive. A handler can change the planet state only through the
/// state's own methods, which keep the planet's id, its number of cells and
/// the rocket permission of its type.
pub trait PlanetAI: Sized {
    /// A sunray arrived; the core acknowledges it afterwards.
    fn handle_sunray(
        &mut self,
        state: &mut PlanetState,
        generator: &Generator,
        combinator: &Combinator,
        sunray: Sunray,
    )
        ensures
            keeps_shape(old(state)@, final(state)@),
            old(self).sunray_effect(*final(self), old(state)@, final(state)@, *generator, *combinator, sunray),
    ;

    /// What this behaviour's sunray handler does: from the behaviour `self`
    /// and the state `before`, it leaves the behaviour `next` and the state
    /// `after`.
    spec fn sunray_effect(
        &self,
        next: Self,
        before: PlanetStateView,
        after: PlanetStateView,
        generator: Generator,
        combinator: Combinator,
        sunray: Sunray,
    ) -> bool;

    /// An asteroid is about to hit: returning a rocket saves the planet.
    fn handle_asteroid(
        &mut self,
        state: &mut PlanetState,
        generator: &Generator,
        combinator: &Combinator,
    ) -> (rocket: Option<Rocket>)
        ensures
            keeps_shape(old(state)@, final(state)@),
            old(self).asteroid_effect(*final(self), old(state)@, final(state)@, *generator, *combinator, rocket),
    ;

    /// What this behaviour's asteroid handler does: from the behaviour
    /// `self` and the state `before`, it leaves the behaviour `next` and the
    /// state `after`, and answers `rocket`.
    spec fn asteroid_effect(
        &self,
        next: Self,
        before: PlanetStateView,
        after: PlanetStateView,
        generator: Generator,
        combinator: Combinator,
        rocket: Option<Rocket>,
    ) -> bool;

    /// The orchestrator asks for an overview of the state.
    fn handle_internal_state_req(
        &mut self,
        state: &mut PlanetState,
        generator: &Generator,
        combinator: &Combinator,
    ) -> (overview: DummyPlanetState)
        ensures
            keeps_shape(old(state)@, final(state)@),
            old(self).overview_effect(*final(self), old(state)@, final(state)@, *generator, *combinator, overview),
    ;

    /// What this behaviour's overview handler does: from the behaviour
    /// `self` and the state `before`, it leaves the behaviour `next` and the
    /// state `after`, and answers `overview`.
    spec fn overview_effect(
        &self,
        next: Self,
        before: PlanetStateView,
        after: PlanetStateView,
        generator: Generator,
        combinator: Combinator,
        overview: DummyPlanetState,
    ) -> bool;

    /// A request of an explorer on the planet; `None` sends no answer.
    fn handle_explorer_msg(
        &mut self,
        state: &mut PlanetState,
        generator: &Generator,
        combinator: &Combinator,
        msg: ExplorerToPlanet,
    ) -> (answer: Option<PlanetToExplorer>)
        ensures
            keeps_shape(old(state)@, final(state)@),
            old(self).explorer_effect(*final(self), old(state)@, final(state)@, *generator, *combinator, msg, answer),
    ;

    /// What this behaviour's explorer handler does with `msg`: from the
    /// behaviour `self` and the state `before`, it leaves the behaviour
    /// `next` and the state `after`, and answers `answer`.
    spec fn explorer_effect(
        &self,
        next: Self,
        before: PlanetStateView,
        after: PlanetStateView,
        generator: Generator,
        combinator: Combinator,
        msg: ExplorerToPlanet,
        answer: Option<PlanetToExplorer>,
    ) -> bool;

    /// Explorer `explorer_id` arrived on the planet.
    fn on_explorer_arrival(
        &mut self,
        state: &mut PlanetState,
        generator: &Generator,
        combinator: &Combinator,
        explorer_id: u32,
    )
        ensures
            keeps_shape(old(state)@, final(state)@),
            old(self).arrival_effect(*final(self), old(state)@, final(state)@, *generator, *combinator, explorer_id),
    ;

    /// What an arrival does: from the behaviour `self` and the state
    /// `before`, it leaves the behaviour `next` and the state `after`.
    spec fn arrival_effect(
        &self,
        next: Self,
        before: PlanetStateView,
        after: PlanetStateView,
        generator: Generator,
        combinator: Combinator,
        explorer_id: u32,
    ) -> bool;

    /// Explorer `explorer_id` left the planet.
    fn on_explorer_departure(
        &mut self,
        state: &mut PlanetState,
        generator: &Generator,
        combinator: &Combinator,
        explorer_id: u32,
    )
        ensures
            keeps_shape(old(state)@, final(state)@),
            old(self).departure_effect(*final(self), old(state)@, final(state)@, *generator, *combinator, explorer_id),
    ;

    /// What a departure does: from the behaviour `self` and the state
    /// `before`, it leaves the behaviour `next` and the state `after`.
    spec fn departure_effect(
        &self,
        next: Self,
        before: PlanetStateView,
        after: PlanetStateView,
        generator: Generator,
        combinator: Combinator,
        explorer_id: u32,
    ) -> bool;

    /// The planet's AI starts.
    fn on_start(&mut self, state: &PlanetState, generator: &Generator, combinator: &Combinator)
        ensures
            old(self).start_effect(*final(self), state@, *generator, *combinator),
    ;

    /// What starting does to the behaviour `self`: it becomes `next`.
    spec fn start_effect(&self, next: Self, state: PlanetStateView, generator: Generator, combinator: Combinator) -> bool;

    /// The planet's AI stops.
    fn on_stop(&mut self, state: &PlanetState, generator: &Generator, combinator: &Combinator)
        ensures
            old(self).stop_effect(*final(self), state@, *generator, *combinator),
    ;

    /// What stopping does to the behaviour `self`: it becomes `next`.
    spec fn stop_effect(&self, next: Self, state: PlanetStateView, generator: Generator, combinator: Combinator) -> bool;
}

/// Whether the planet's AI runs, waits for a start, or the planet is gone.
#[derive(Debug, Clone, Copy, PartialEq, Eq, Structural)]
pub enum PlanetStatus {
    Stopped,
    Running,
    Killed,
}

/// A planet: its state, type, recipes, behaviour, the explorers it answers,
/// and whether its AI runs.
pub struct Planet<A: PlanetAI> {
    state: PlanetState,
    planet_type: PlanetType,
    ai: A,
    generator: Generator,
    combinator: Combinator,
    explorers: Vec<u32>,
    status: PlanetStatus,
}

/// The reason [`Planet::new`] refuses a set of recipes.
pub open spec fn planet_type_name(t: PlanetType) -> Seq<char> {
    match t {
        PlanetType::A => "A"@,
        PlanetType::B => "B"@,
        PlanetType::C => "C"@,
        PlanetType::D => "D"@,
    }
}

pub open spec fn new_planet_error(
    t: PlanetType,
    n_gen: nat,
    n_comb: nat,
) -> Option<Seq<char>> {
    let (_n, unbounded, _r, max_comb) = spec_constraints(t);
    if n_gen == 0 {
        Some("gen_rules is empty"@)
    } else if !unbounded && n_gen > 1 {
        Some("Too many generation rules (Planet type "@ + planet_type_name(t) + " is limited to 1)"@)
    } else if n_comb > max_comb {
        Some(
            "Too many combination rules (Planet type "@ + planet_type_name(t) + " is limited to "@
                + crate::text::decimal(max_comb as nat) + ")"@,
        )
    } else {
        None
    }
}

/// The distinct elements of `s`, first occurrences first.
pub open spec fn dedup<T>(s: Seq<T>) -> Seq<T>
    decreases s.len(),
{
    if s.len() == 0 {
        s
    } else {
        let d = dedup(s.drop_last());
        if d.contains(s.last()) {
            d
        } else {
            d.push(s.last())
        }
    }
}

impl<A: PlanetAI> Planet<A> {
    pub closed spec fn wf(&self) -> bool {
        let (n, _u, rocket, _c) = spec_constraints(self.planet_type);
        &&& self.state@.cells.len() == n
        &&& self.state@.can_have_rocket == rocket
        &&& self.explorers@.no_duplicates()
    }

    pub closed spec fn state_view(&self) -> crate::game::planet::PlanetStateView {
        self.state@
    }

    pub closed spec fn spec_ai(&self) -> A {
        self.ai
    }

    pub closed spec fn spec_planet_type(&self) -> PlanetType {
        self.planet_type
    }

    pub closed spec fn spec_status(&self) -> PlanetStatus {
        self.status
    }

    /// The explorers the planet answers.
    pub closed spec fn spec_explorers(&self) -> Set<u32> {
        self.explorers@.to_set()
    }

    pub closed spec fn spec_generator(&self) -> Seq<BasicResourceType> {
        self.generator@
    }

    pub closed spec fn spec_combinator(&self) -> Seq<ComplexResourceType> {
        self.combinator@
    }

    /// The generator handed to the behaviour.
    pub closed spec fn spec_generator_value(&self) -> Generator {
        self.generator
    }

    /// The combinator handed to the behaviour.
    pub closed spec fn spec_combinator_value(&self) -> Combinator {
        self.combinator
    }

    /// The recipes that the values handed to the behaviour hold.
    pub proof fn lemma_recipe_values(&self)
        ensures
            self.spec_generator_value()@ == self.spec_generator(),
            self.spec_combinator_value()@ == self.spec_combinator(),
    {
    }

    /// A stopped planet of type `planet_type` with empty cells, the given
    /// recipes (each once) and no explorers. Refused when there is no
    /// generation recipe, when the type allows one and more are given, or
    /// when more combination recipes are given than the type allows.
    pub fn new(
        id: u32,
        planet_type: PlanetType,
        ai: A,
        gen_rules: Vec<BasicResourceType>,
        comb_rules: Vec<ComplexResourceType>,
    ) -> (r: Result<Planet<A>, String>)
        ensures
            r is Err <==> new_planet_error(planet_type, gen_rules@.len(), comb_rules@.len()) is Some,
            r matches Err(e) ==> Some(e@) == new_planet_error(planet_type, gen_rules@.len(), comb_rules@.len()),
            r matches Ok(p) ==> {
                &&& p.wf()
                &&& p.state_view().id == id
                &&& p.state_view().cells == Seq::new(spec_constraints(planet_type).0 as nat, |i: int| false)
                &&& !p.state_view().has_rocket
                &&& p.state_view().can_have_rocket == spec_constraints(planet_type).2
                &&& p.spec_planet_type() == planet_type
                &&& p.spec_status() == PlanetStatus::Stopped
                &&& p.spec_explorers() == Set::<u32>::empty()
                &&& p.spec_generator() == dedup(gen_rules@)
                &&& p.spec_combinator() == dedup(comb_rules@)
                &&& p.spec_ai() == ai
            },
    {
        let c = planet_type.constraints();
        if gen_rules.len() == 0 {
            return Err(String::from_str("gen_rules is empty"));
        }
        if !c.unbounded_gen_rules && gen_rules.len() > 1 {
            let mut e = String::from_str("Too many generation rules (Planet type ");
            e.append(planet_type_label(planet_type));
            e.append(" is limited to 1)");
            return Err(e);
        }
        if comb_rules.len() > c.n_comb_rules {
            let mut e = String::from_str("Too many combination rules (Planet type ");
            e.append(planet_type_label(planet_type));
            e.append(" is limited to ");
            push_decimal(&mut e, c.n_comb_rules as u64);
            e.append(")");
            return Err(e);
        }
        let mut generator = Generator::new();
        let mut i: usize = 0;
        while i < gen_rules.len()
            invariant
                i <= gen_rules@.len(),
                generator@ == dedup(gen_rules@.take(i as int)),
            decreases gen_rules@.len() - i,
        {
            let _ = generator.add(gen_rules[i]);
            assert(gen_rules@.take(i as int + 1).drop_last() =~= gen_rules@.take(i as int));
            i = i + 1;
        }
        assert(gen_rules@.take(i as int) =~= gen_rules@);
        let mut combinator = Combinator::new();
        let mut j: usize = 0;
        while j < comb_rules.len()
            invariant
                j <= comb_rules@.len(),
                combinator@ == dedup(comb_rules@.take(j as int)),
            decreases comb_rules@.len() - j,
        {
            let _ = combinator.add(comb_rules[j]);
            assert(comb_rules@.take(j as int + 1).drop_last() =~= comb_rules@.take(j as int));
            j = j + 1;
        }
        assert(comb_rules@.take(j as int) =~= comb_rules@);
        let state = PlanetState::new(id, c.n_energy_cells, c.can_have_rocket);
        let p = Planet {
            state,
            planet_type,
            ai,
            generator,
            combinator,
            explorers: Vec::new(),
            status: PlanetStatus::Stopped,
        };
        assert(p.spec_explorers() =~= Set::<u32>::empty());
        Ok(p)
    }
}

impl<A: PlanetAI> Planet<A> {
    /// Everything but the AI, the cells and the rocket is as it was.
    pub open spec fn same_frame(&self, other: &Planet<A>) -> bool {
        &&& self.wf()
        &&& keeps_shape(other.state_view(), self.state_view())
        &&& self.spec_planet_type() == other.spec_planet_type()
        &&& self.spec_generator() == other.spec_generator()
        &&& self.spec_combinator() == other.spec_combinator()
        &&& self.spec_generator_value() == other.spec_generator_value()
        &&& self.spec_combinator_value() == other.spec_combinator_value()
    }

    pub fn id(&self) -> (r: u32)
        ensures
            r == self.state_view().id,
    {
        self.state.id()
    }

    pub fn planet_type(&self) -> (t: PlanetType)
        ensures
            t == self.spec_planet_type(),
    {
        self.planet_type
    }

    pub fn state(&self) -> (s: &PlanetState)
        ensures
            s@ == self.state_view(),
    {
        &self.state
    }

    pub fn generator(&self) -> (g: &Generator)
        ensures
            g@ == self.spec_generator(),
    {
        &self.generator
    }

    pub fn combinator(&self) -> (c: &Combinator)
        ensures
            c@ == self.spec_combinator(),
    {
        &self.combinator
    }

    pub fn ai(&self) -> (a: &A)
        ensures
            *a == self.spec_ai(),
    {
        &self.ai
    }

    pub fn status(&self) -> (st: PlanetStatus)
        ensures
            st == self.spec_status(),
    {
        self.status
    }

    /// Whether the planet answers explorer `explorer_id`.
    pub fn answers_explorer(&self, explorer_id: u32) -> (b: bool)
        ensures
            b == self.spec_explorers().contains(explorer_id),
    {
        let mut i: usize = 0;
        while i < self.explorers.len()
            invariant
                i <= self.explorers@.len(),
                forall|j: int| 0 <= j < i ==> self.explorers@[j] != explorer_id,
            decreases self.explorers@.len() - i,
        {
            if self.explorers[i] == explorer_id {
                assert(self.explorers@.contains(explorer_id));
                return true;
            }
            i = i + 1;
        }
        assert(!self.explorers@.contains(explorer_id));
        false
    }

    fn add_explorer(&mut self, explorer_id: u32)
        requires
            old(self).explorers@.no_duplicates(),
        ensures
            final(self).explorers@.no_duplicates(),
            final(self).spec_explorers() == old(self).spec_explorers().insert(explorer_id),
            final(self).state == old(self).state,
            final(self).status == old(self).status,
            final(self).ai == old(self).ai,
            final(self).planet_type == old(self).planet_type,
            final(self).generator == old(self).generator,
            final(self).combinator == old(self).combinator,
    {
        if !self.answers_explorer(explorer_id) {
            self.explorers.push(explorer_id);
            assert(self.explorers@.to_set() =~= old(self).explorers@.to_set().insert(explorer_id)) by {
                assert(forall|x: u32| #[trigger] self.explorers@.contains(x) <==> (old(self).explorers@.contains(x) || x == explorer_id)) by {
                    assert(forall|x: u32| old(self).explorers@.contains(x) ==> #[trigger] self.explorers@.contains(x)) by {
                        assert forall|x: u32| old(self).explorers@.contains(x) implies #[trigger] self.explorers@.contains(x) by {
                            let k = choose|k: int| 0 <= k < old(self).explorers@.len() && old(self).explorers@[k] == x;
                            assert(self.explorers@[k] == x);
                        }
                    }
                    assert(self.explorers@[self.explorers@.len() - 1] == explorer_id);
                }
            }
        } else {
            assert(self.explorers@.to_set() =~= old(self).explorers@.to_set().insert(explorer_id));
        }
    }

    fn remove_explorer(&mut self, explorer_id: u32)
        requires
            old(self).explorers@.no_duplicates(),
        ensures
            final(self).explorers@.no_duplicates(),
            final(self).spec_explorers() == old(self).spec_explorers().remove(explorer_id),
            final(self).state == old(self).state,
            final(self).status == old(self).status,
            final(self).ai == old(self).ai,
            final(self).planet_type == old(self).planet_type,
            final(self).generator == old(self).generator,
            final(self).combinator == old(self).combinator,
    {
        let mut i: usize = 0;
        while i < self.explorers.len()
            invariant
                i <= self.explorers@.len(),
                *self == *old(self),
                self.explorers@.no_duplicates(),
                forall|j: int| 0 <= j < i ==> self.explorers@[j] != explorer_id,
            decreases self.explorers@.len() - i,
        {
            if self.explorers[i] == explorer_id {
                let ghost before = self.explorers@;
                self.explorers.remove(i);
                proof {
                    lemma_remove_unique(before, i as int);
                }
                return;
            }
            i = i + 1;
        }
        assert(!self.explorers@.contains(explorer_id));
        assert(self.explorers@.to_set() =~= old(self).explorers@.to_set().remove(explorer_id));
    }

    /// Handles one message of the orchestrator and gives the answer to send
    /// back, if any.
    ///
    /// A stopped planet answers a start by starting its AI, a kill by
    /// ending, and anything else with `Stopped`, changing nothing. A running
    /// planet ignores a start; answers a stop by stopping its AI and a kill
    /// by ending; starts or stops answering an arriving or departing
    /// explorer; hands sunrays, asteroids and state requests to its AI and
    /// acknowledges each. Every answer carries the planet's id.
    pub fn handle_orchestrator_msg(&mut self, msg: OrchestratorToPlanet) -> (r: Option<PlanetToOrchestrator>)
        requires
            old(self).wf(),
            old(self).spec_status() != PlanetStatus::Killed,
        ensures
            final(self).same_frame(old(self)),
            ({
                let id = old(self).state_view().id;
                let st = old(self).spec_status();
                let ex = old(self).spec_explorers();
                let ai = old(self).spec_ai();
                let ai2 = final(self).spec_ai();
                let before = old(self).state_view();
                let after = final(self).state_view();
                let g = old(self).spec_generator_value();
                let c = old(self).spec_combinator_value();
                match msg {
                    OrchestratorToPlanet::StartPlanetAI => if st == PlanetStatus::Stopped {
                        &&& r == Some(PlanetToOrchestrator::StartPlanetAIResult { planet_id: id })
                        &&& final(self).spec_status() == PlanetStatus::Running
                        &&& after == before
                        &&& final(self).spec_explorers() == ex
                        &&& ai.start_effect(ai2, before, g, c)
                    } else {
                        &&& r is None
                        &&& final(self).spec_status() == st
                        &&& after == before
                        &&& final(self).spec_explorers() == ex
                        &&& ai2 == ai
                    },
                    OrchestratorToPlanet::KillPlanet => {
                        &&& r == Some(PlanetToOrchestrator::KillPlanetResult { planet_id: id })
                        &&& final(self).spec_status() == PlanetStatus::Killed
                        &&& after == before
                        &&& final(self).spec_explorers() == ex
                        &&& ai2 == ai
                    },
                    _ => if st == PlanetStatus::Stopped {
                        &&& r == Some(PlanetToOrchestrator::Stopped { planet_id: id })
                        &&& final(self).spec_status() == st
                        &&& after == before
                        &&& final(self).spec_explorers() == ex
                        &&& ai2 == ai
                    } else {
                        &&& r is Some
                        &&& spec_planet_id(r.unwrap()) == id
                        &&& match msg {
                            OrchestratorToPlanet::StopPlanetAI => {
                                &&& r == Some(PlanetToOrchestrator::StopPlanetAIResult { planet_id: id })
                                &&& final(self).spec_status() == PlanetStatus::Stopped
                                &&& after == before
                                &&& final(self).spec_explorers() == ex
                                &&& ai.stop_effect(ai2, before, g, c)
                            },
                            OrchestratorToPlanet::IncomingExplorerRequest { explorer_id } => {
                                &&& r matches Some(PlanetToOrchestrator::IncomingExplorerResponse { explorer_id: e, res, .. })
                                    && e == explorer_id && res is Ok
                                &&& final(self).spec_status() == st
                                &&& final(self).spec_explorers() == ex.insert(explorer_id)
                                &&& ai.arrival_effect(ai2, before, after, g, c, explorer_id)
                            },
                            OrchestratorToPlanet::OutgoingExplorerRequest { explorer_id } => {
                                &&& r matches Some(PlanetToOrchestrator::OutgoingExplorerResponse { explorer_id: e, res, .. })
                                    && e == explorer_id && res is Ok
                                &&& final(self).spec_status() == st
                                &&& final(self).spec_explorers() == ex.remove(explorer_id)
                                &&& ai.departure_effect(ai2, before, after, g, c, explorer_id)
                            },
                            OrchestratorToPlanet::Sunray(sunray) => {
                                &&& r == Some(PlanetToOrchestrator::SunrayAck { planet_id: id })
                                &&& final(self).spec_status() == st
                                &&& final(self).spec_explorers() == ex
                                &&& ai.sunray_effect(ai2, before, after, g, c, sunray)
                            },
                            OrchestratorToPlanet::Asteroid => {
                                &&& r matches Some(PlanetToOrchestrator::AsteroidAck { planet_id: p, rocket })
                                    && p == id && ai.asteroid_effect(ai2, before, after, g, c, rocket)
                                &&& final(self).spec_status() == st
                                &&& final(self).spec_explorers() == ex
                            },
                            _ => {
                                &&& r matches Some(PlanetToOrchestrator::InternalStateResponse { planet_id: p, planet_state })
                                    && p == id && ai.overview_effect(ai2, before, after, g, c, planet_state)
                                &&& final(self).spec_status() == st
                                &&& final(self).spec_explorers() == ex
                            },
                        }
                    },
                }
            }),
    {
        let id = self.state.id();
        if self.status == PlanetStatus::Stopped {
            match msg {
                OrchestratorToPlanet::StartPlanetAI => {
                    self.status = PlanetStatus::Running;
                    self.ai.on_start(&self.state, &self.generator, &self.combinator);
                    Some(PlanetToOrchestrator::StartPlanetAIResult { planet_id: id })
                },
                OrchestratorToPlanet::KillPlanet => {
                    self.status = PlanetStatus::Killed;
                    Some(PlanetToOrchestrator::KillPlanetResult { planet_id: id })
                },
                _ => Some(PlanetToOrchestrator::Stopped { planet_id: id }),
            }
        } else {
            match msg {
                OrchestratorToPlanet::StartPlanetAI => None,
                OrchestratorToPlanet::StopPlanetAI => {
                    self.ai.on_stop(&self.state, &self.generator, &self.combinator);
                    self.status = PlanetStatus::Stopped;
                    Some(PlanetToOrchestrator::StopPlanetAIResult { planet_id: id })
                },
                OrchestratorToPlanet::KillPlanet => {
                    self.status = PlanetStatus::Killed;
                    Some(PlanetToOrchestrator::KillPlanetResult { planet_id: id })
                },
                OrchestratorToPlanet::Asteroid => {
                    let rocket = self.ai.handle_asteroid(&mut self.state, &self.generator, &self.combinator);
                    Some(PlanetToOrchestrator::AsteroidAck { planet_id: id, rocket })
                },
                OrchestratorToPlanet::IncomingExplorerRequest { explorer_id } => {
                    self.add_explorer(explorer_id);
                    self.ai.on_explorer_arrival(&mut self.state, &self.generator, &self.combinator, explorer_id);
                    Some(PlanetToOrchestrator::IncomingExplorerResponse { planet_id: id, explorer_id, res: Ok(()) })
                },
                OrchestratorToPlanet::OutgoingExplorerRequest { explorer_id } => {
                    self.remove_explorer(explorer_id);
                    self.ai.on_explorer_departure(&mut self.state, &self.generator, &self.combinator, explorer_id);
                    Some(PlanetToOrchestrator::OutgoingExplorerResponse { planet_id: id, explorer_id, res: Ok(()) })
                },
                OrchestratorToPlanet::Sunray(sunray) => {
                    self.ai.handle_sunray(&mut self.state, &self.generator, &self.combinator, sunray);
                    Some(PlanetToOrchestrator::SunrayAck { planet_id: id })
                },
                OrchestratorToPlanet::InternalStateRequest => {
                    let planet_state = self.ai.handle_internal_state_req(&mut self.state, &self.generator, &self.combinator);
                    Some(PlanetToOrchestrator::InternalStateResponse { planet_id: id, planet_state })
                },
            }
        }
    }

    /// Handles one request of an explorer and gives the answer to send to
    /// it, if any. Only explorers that arrived while the planet ran are
    /// answered: a stopped planet answers them `Stopped`, a running one
    /// hands the request to its AI.
    pub fn handle_explorer_msg(&mut self, msg: ExplorerToPlanet) -> (r: Option<PlanetToExplorer>)
        requires
            old(self).wf(),
            old(self).spec_status() != PlanetStatus::Killed,
        ensures
            final(self).same_frame(old(self)),
            final(self).spec_status() == old(self).spec_status(),
            final(self).spec_explorers() == old(self).spec_explorers(),
            !old(self).spec_explorers().contains(spec_explorer_id(msg)) ==> r is None
                && final(self).state_view() == old(self).state_view(),
            !old(self).spec_explorers().contains(spec_explorer_id(msg)) ==> final(self).spec_ai() == old(self).spec_ai(),
            old(self).spec_explorers().contains(spec_explorer_id(msg)) && old(self).spec_status()
                == PlanetStatus::Stopped ==> r == Some(PlanetToExplorer::Stopped)
                && final(self).state_view() == old(self).state_view()
                && final(self).spec_ai() == old(self).spec_ai(),
            old(self).spec_explorers().contains(spec_explorer_id(msg)) && old(self).spec_status()
                == PlanetStatus::Running ==> old(self).spec_ai().explorer_effect(
                final(self).spec_ai(),
                old(self).state_view(),
                final(self).state_view(),
                old(self).spec_generator_value(),
                old(self).spec_combinator_value(),
                msg,
                r,
            ),
    {
        let explorer_id = msg.explorer_id();
        if !self.answers_explorer(explorer_id) {
            return None;
        }
        if self.status == PlanetStatus::Stopped {
            Some(PlanetToExplorer::Stopped)
        } else {
            self.ai.handle_explorer_msg(&mut self.state, &self.generator, &self.combinator, msg)
        }
    }
}

/// Removing the one occurrence of `s[i]` from a sequence without
/// duplicates leaves a sequence without duplicates holding everything else.
proof fn lemma_remove_unique(s: Seq<u32>, i: int)
    requires
        s.no_duplicates(),
        0 <= i < s.len(),
    ensures
        s.remove(i).no_duplicates(),
        s.remove(i).to_set() == s.to_set().remove(s[i]),
{
    let r = s.remove(i);
    assert forall|a: int, b: int| 0 <= a < b < r.len() implies r[a] != r[b] by {
        let a2 = if a < i { a } else { a + 1 };
        let b2 = if b < i { b } else { b + 1 };
        assert(r[a] == s[a2] && r[b] == s[b2]);
    }
    assert forall|x: u32| #[trigger] r.contains(x) <==> (s.contains(x) && x != s[i]) by {
        if r.contains(x) {
            let k = choose|k: int| 0 <= k < r.len() && r[k] == x;
            let k2 = if k < i { k } else { k + 1 };
            assert(s[k2] == x);
            assert(k2 != i);
        }
        if s.contains(x) && x != s[i] {
            let k = choose|k: int| 0 <= k < s.len() && s[k] == x;
            if k < i {
                assert(r[k] == x);
            } else {
                assert(r[k - 1] == x);
            }
        }
    }
    assert(r.to_set() =~= s.to_set().remove(s[i]));
}

fn planet_type_label(t: PlanetType) -> (s: &'static str)
    ensures
        s@ == planet_type_name(t),
{
    match t {
        PlanetType::A => "A",
        PlanetType::B => "B",
        PlanetType::C => "C",
        PlanetType::D => "D",
    }
}

} // verus!

//! The orchestrator's bookkeeping and decisions: which planets and
//! explorers live, in which phase each is, where each explorer is, and what
//! to tell whom in answer to each message. Sending is the caller's part.

use vstd::prelude::*;
use vstd::std_specs::iter::IteratorSpec;

use crate::game::forge::Forge;
use crate::game::messages::{
    ExplorerToOrchestrator, ExplorerToPlanet, OrchestratorToExplorer, OrchestratorToPlanet,
    PlanetToOrchestrator,
};
use crate::text::{decimal, push_decimal};

verus! {

broadcast use vstd::std_specs::hash::group_hash_axioms;

/// The ids in `s`, each once, in some order.
fn ids_of(s: &std::collections::HashSet<u32>) -> (v: Vec<u32>)
    ensures
        v@.no_duplicates(),
        v@.to_set() == s@,
{
    let mut v: Vec<u32> = Vec::new();
    let ghost keys = vstd::std_specs::hash::spec_hash_keys_iter(s).remaining();
    for x in it: s.iter()
        invariant
            it.seq() == keys,
            v@ == it.seq().take(it.index() as int).map_values(|r: &u32| *r),
    {
        let ghost before = v@;
        v.push(*x);
        assert(v@ =~= it.seq().take(it.index() as int + 1).map_values(|r: &u32| *r));
    }
    proof {
        assert(keys.take(keys.len() as int) =~= keys);
        assert(v@ =~= keys.unref());
        assert(v@.no_duplicates()) by {
            assert forall|i: int, j: int| 0 <= i < v@.len() && 0 <= j < v@.len() && i != j implies v@[i] != v@[j] by {
                assert(keys[i] != keys[j]);
            }
        }
    }
    v
}

/// The phase of a planet's AI as the orchestrator tracks it.
#[derive(Debug, Clone, Copy, PartialEq, Eq, Structural)]
pub enum PlanetLifecycle {
    Idle,
    Starting,
    Running,
    Stopping,
}

/// The phase of an explorer's AI as the orchestrator tracks it.
#[derive(Debug, Clone, Copy, PartialEq, Eq, Structural)]
pub enum ExplorerLifecycle {
    Idle,
    Starting,
    Running,
    Stopping,
}

/// The phase changes a planet may make.
pub open spec fn planet_step_ok(current: PlanetLifecycle, next: PlanetLifecycle) -> bool {
    match (current, next) {
        (PlanetLifecycle::Idle, PlanetLifecycle::Starting) => true,
        (PlanetLifecycle::Idle, PlanetLifecycle::Running) => true,
        (PlanetLifecycle::Starting, PlanetLifecycle::Running) => true,
        (PlanetLifecycle::Running, PlanetLifecycle::Stopping) => true,
        (PlanetLifecycle::Running, PlanetLifecycle::Starting) => true,
        (PlanetLifecycle::Stopping, PlanetLifecycle::Idle) => true,
        (PlanetLifecycle::Stopping, PlanetLifecycle::Starting) => true,
        (PlanetLifecycle::Stopping, PlanetLifecycle::Running) => true,
        _ => false,
    }
}

/// The phase changes an explorer may make.
pub open spec fn explorer_step_ok(current: ExplorerLifecycle, next: ExplorerLifecycle) -> bool {
    match (current, next) {
        (ExplorerLifecycle::Idle, ExplorerLifecycle::Starting) => true,
        (ExplorerLifecycle::Idle, ExplorerLifecycle::Running) => true,
        (ExplorerLifecycle::Starting, ExplorerLifecycle::Running) => true,
        (ExplorerLifecycle::Running, ExplorerLifecycle::Stopping) => true,
        (ExplorerLifecycle::Stopping, ExplorerLifecycle::Idle) => true,
        _ => false,
    }
}

/// What the user interface asks of the orchestrator.
pub enum GuiCommand {
    SendSunray { planet_id: u32 },
    SendAsteroid { planet_id: u32 },
    StartPlanet { planet_id: u32 },
    StopPlanet { planet_id: u32 },
    MoveExplorer { explorer_id: u32, dst_planet_id: u32 },
}

/// A message for the caller to send, and to whom.
pub enum Dispatch {
    ToPlanet { planet_id: u32, msg: OrchestratorToPlanet },
    ToExplorer { explorer_id: u32, msg: OrchestratorToExplorer },
}

/// The orchestrator's bookkeeping: which planets and explorers can be
/// reached (and planets by explorers, and explorers by planets), which
/// live, their phases, where each explorer is, the map of neighbours, and
/// the tick.
#[verifier::ext_equal]
pub struct OrchestratorView {
    pub planet_links: Set<u32>,
    pub planet_explorer_links: Set<u32>,
    pub explorer_links: Set<u32>,
    pub reply_links: Set<u32>,
    pub explorer_planet: Map<u32, u32>,
    pub explorer_alive: Map<u32, bool>,
    pub planet_alive: Map<u32, bool>,
    pub planet_states: Map<u32, PlanetLifecycle>,
    pub explorer_states: Map<u32, ExplorerLifecycle>,
    pub topology: Map<u32, Seq<u32>>,
    pub tick: u64,
}

/// The orchestrator's bookkeeping (see [`OrchestratorView`]).
pub struct OrchestratorState {
    planet_links: std::collections::HashSet<u32>,
    planet_explorer_links: std::collections::HashSet<u32>,
    explorer_links: std::collections::HashSet<u32>,
    reply_links: std::collections::HashSet<u32>,
    explorer_planet: std::collections::HashMap<u32, u32>,
    explorer_alive: std::collections::HashMap<u32, bool>,
    planet_alive: std::collections::HashMap<u32, bool>,
    planet_states: std::collections::HashMap<u32, PlanetLifecycle>,
    explorer_states: std::collections::HashMap<u32, ExplorerLifecycle>,
    topology: std::collections::HashMap<u32, Vec<u32>>,
    tick: u64,
}

impl View for OrchestratorState {
    type V = OrchestratorView;

    closed spec fn view(&self) -> OrchestratorView {
        OrchestratorView {
            planet_links: self.planet_links@,
            planet_explorer_links: self.planet_explorer_links@,
            explorer_links: self.explorer_links@,
            reply_links: self.reply_links@,
            explorer_planet: self.explorer_planet@,
            explorer_alive: self.explorer_alive@,
            planet_alive: self.planet_alive@,
            planet_states: self.planet_states@,
            explorer_states: self.explorer_states@,
            topology: self.topology@.map_values(|v: Vec<u32>| v@),
            tick: self.tick,
        }
    }
}

/// The phase tracked for a planet; untracked planets are idle.
pub open spec fn planet_phase(v: OrchestratorView, id: u32) -> PlanetLifecycle {
    if v.planet_states.contains_key(id) { v.planet_states[id] } else { PlanetLifecycle::Idle }
}

/// The phase tracked for an explorer; untracked explorers are idle.
pub open spec fn explorer_phase(v: OrchestratorView, id: u32) -> ExplorerLifecycle {
    if v.explorer_states.contains_key(id) { v.explorer_states[id] } else { ExplorerLifecycle::Idle }
}

/// The explorer is recorded as alive.
pub open spec fn is_alive_explorer(v: OrchestratorView, id: u32) -> bool {
    v.explorer_alive.contains_key(id) && v.explorer_alive[id]
}

/// The refusal for a planet that cannot be reached.
pub open spec fn no_planet_message(id: u32) -> Seq<char> {
    "No sender found for planet "@ + decimal(id as nat)
}

/// The refusal for an explorer that cannot be reached.
pub open spec fn no_explorer_message(id: u32) -> Seq<char> {
    "No sender found for explorer "@ + decimal(id as nat)
}

fn set_of(ids: &Vec<u32>) -> (s: std::collections::HashSet<u32>)
    ensures
        s@ == ids@.to_set(),
{
    let mut s: std::collections::HashSet<u32> = std::collections::HashSet::new();
    let mut i: usize = 0;
    while i < ids.len()
        invariant
            i <= ids@.len(),
            s@ == ids@.take(i as int).to_set(),
        decreases ids@.len() - i,
    {
        let ghost before = ids@.take(i as int);
        s.insert(ids[i]);
        proof {
            let after = ids@.take(i as int + 1);
            assert(after =~= before.push(ids@[i as int]));
            assert forall|y: u32| after.contains(y) <==> (before.contains(y) || y == ids@[i as int]) by {
                if after.contains(y) && y != ids@[i as int] {
                    let k = choose|k: int| 0 <= k < after.len() && after[k] == y;
                    assert(before[k] == y);
                }
                if before.contains(y) {
                    let k = choose|k: int| 0 <= k < before.len() && before[k] == y;
                    assert(after[k] == y);
                }
                if y == ids@[i as int] {
                    assert(after[i as int] == y);
                }
            }
            assert(s@ =~= after.to_set());
        }
        i = i + 1;
    }
    assert(ids@.take(ids@.len() as int) =~= ids@);
    s
}

fn planet_message(id: u32) -> (m: String)
    ensures
        m@ == no_planet_message(id),
{
    let mut m = String::from_str("No sender found for planet ");
    proof { reveal_strlit("No sender found for planet "); }
    push_decimal(&mut m, id as u64);
    m
}

fn explorer_message(id: u32) -> (m: String)
    ensures
        m@ == no_explorer_message(id),
{
    let mut m = String::from_str("No sender found for explorer ");
    proof { reveal_strlit("No sender found for explorer "); }
    push_decimal(&mut m, id as u64);
    m
}

impl OrchestratorState {
    /// Bookkeeping for the planets and explorers that can be reached:
    /// nothing known of them yet, no neighbour map, tick zero.
    pub fn new(planets: Vec<u32>, planet_explorer_channels: Vec<u32>, explorers: Vec<u32>) -> (o: OrchestratorState)
        ensures
            o@ == (OrchestratorView {
                planet_links: planets@.to_set(),
                planet_explorer_links: planet_explorer_channels@.to_set(),
                explorer_links: explorers@.to_set(),
                reply_links: Set::empty(),
                explorer_planet: Map::empty(),
                explorer_alive: Map::empty(),
                planet_alive: Map::empty(),
                planet_states: Map::empty(),
                explorer_states: Map::empty(),
                topology: Map::empty(),
                tick: 0,
            }),
    {
        let o = OrchestratorState {
            planet_links: set_of(&planets),
            planet_explorer_links: set_of(&planet_explorer_channels),
            explorer_links: set_of(&explorers),
            reply_links: std::collections::HashSet::new(),
            explorer_planet: std::collections::HashMap::new(),
            explorer_alive: std::collections::HashMap::new(),
            planet_alive: std::collections::HashMap::new(),
            planet_states: std::collections::HashMap::new(),
            explorer_states: std::collections::HashMap::new(),
            topology: std::collections::HashMap::new(),
            tick: 0,
        };
        assert(o@.topology =~= Map::<u32, Seq<u32>>::empty());
        o
    }

    /// The explorers that planets can answer.
    pub fn with_explorer_reply_senders(self, explorers: Vec<u32>) -> (o: OrchestratorState)
        ensures
            o@ == (OrchestratorView { reply_links: explorers@.to_set(), ..self@ }),
    {
        let mut o = self;
        o.reply_links = set_of(&explorers);
        o
    }

    /// The neighbours of each planet.
    pub fn with_topology(self, topology: std::collections::HashMap<u32, Vec<u32>>) -> (o: OrchestratorState)
        ensures
            o@ == (OrchestratorView { topology: topology@.map_values(|v: Vec<u32>| v@), ..self@ }),
    {
        let mut o = self;
        o.topology = topology;
        o
    }

    /// The current tick.
    pub fn tick(&self) -> (t: u64)
        ensures
            t == self@.tick,
    {
        self.tick
    }

    /// Sets the tick count to `t` (a reset sets it to zero).
    pub fn set_tick(&mut self, t: u64)
        ensures
            final(self)@ == (OrchestratorView { tick: t, ..old(self)@ }),
    {
        self.tick = t;
    }

    /// Counts one tick (wrapping at the end of `u64`); returns the new tick.
    pub fn advance_tick(&mut self) -> (t: u64)
        ensures
            t == (if old(self)@.tick == u64::MAX { 0 } else { old(self)@.tick + 1 }),
            final(self)@ == (OrchestratorView { tick: t, ..old(self)@ }),
    {
        self.tick = if self.tick == u64::MAX { 0 } else { self.tick + 1 };
        self.tick
    }

    /// The tracked phase of a planet (idle when untracked).
    pub fn planet_state(&self, planet_id: u32) -> (p: PlanetLifecycle)
        ensures
            p == planet_phase(self@, planet_id),
    {
        match self.planet_states.get(&planet_id) {
            Some(p) => *p,
            None => PlanetLifecycle::Idle,
        }
    }

    /// The tracked phase of an explorer (idle when untracked).
    pub fn explorer_state(&self, explorer_id: u32) -> (p: ExplorerLifecycle)
        ensures
            p == explorer_phase(self@, explorer_id),
    {
        match self.explorer_states.get(&explorer_id) {
            Some(p) => *p,
            None => ExplorerLifecycle::Idle,
        }
    }

    /// Where an explorer is recorded to be.
    pub fn explorer_planet(&self, explorer_id: u32) -> (p: Option<u32>)
        ensures
            p == (if self@.explorer_planet.contains_key(explorer_id) {
                Some(self@.explorer_planet[explorer_id])
            } else {
                None
            }),
    {
        match self.explorer_planet.get(&explorer_id) {
            Some(p) => Some(*p),
            None => None,
        }
    }

    /// Whether a planet is recorded as alive, if recorded at all.
    pub fn planet_alive(&self, planet_id: u32) -> (a: Option<bool>)
        ensures
            a == (if self@.planet_alive.contains_key(planet_id) {
                Some(self@.planet_alive[planet_id])
            } else {
                None
            }),
    {
        match self.planet_alive.get(&planet_id) {
            Some(a) => Some(*a),
            None => None,
        }
    }

    /// Whether an explorer is recorded as alive, if recorded at all.
    pub fn explorer_alive(&self, explorer_id: u32) -> (a: Option<bool>)
        ensures
            a == (if self@.explorer_alive.contains_key(explorer_id) {
                Some(self@.explorer_alive[explorer_id])
            } else {
                None
            }),
    {
        match self.explorer_alive.get(&explorer_id) {
            Some(a) => Some(*a),
            None => None,
        }
    }

    /// A planet's phase may change to `new_state` only along
    /// [`planet_step_ok`]; the change is recorded when allowed. Returns
    /// whether it was.
    pub fn validate_planet_state_transition(&mut self, planet_id: u32, new_state: PlanetLifecycle) -> (ok: bool)
        ensures
            ok == planet_step_ok(planet_phase(old(self)@, planet_id), new_state),
            final(self)@ == (if ok {
                OrchestratorView { planet_states: old(self)@.planet_states.insert(planet_id, new_state), ..old(self)@ }
            } else {
                old(self)@
            }),
    {
        let current = self.planet_state(planet_id);
        let valid = match (current, new_state) {
            (PlanetLifecycle::Idle, PlanetLifecycle::Starting) => true,
            (PlanetLifecycle::Idle, PlanetLifecycle::Running) => true,
            (PlanetLifecycle::Starting, PlanetLifecycle::Running) => true,
            (PlanetLifecycle::Running, PlanetLifecycle::Stopping) => true,
            (PlanetLifecycle::Running, PlanetLifecycle::Starting) => true,
            (PlanetLifecycle::Stopping, PlanetLifecycle::Idle) => true,
            (PlanetLifecycle::Stopping, PlanetLifecycle::Starting) => true,
            (PlanetLifecycle::Stopping, PlanetLifecycle::Running) => true,
            _ => false,
        };
        if valid {
            self.planet_states.insert(planet_id, new_state);
        }
        valid
    }

    /// An explorer's phase may change to `new_state` only along
    /// [`explorer_step_ok`]; the change is recorded when allowed. Returns
    /// whether it was.
    pub fn validate_explorer_state_transition(&mut self, explorer_id: u32, new_state: ExplorerLifecycle) -> (ok: bool)
        ensures
            ok == explorer_step_ok(explorer_phase(old(self)@, explorer_id), new_state),
            final(self)@ == (if ok {
                OrchestratorView { explorer_states: old(self)@.explorer_states.insert(explorer_id, new_state), ..old(self)@ }
            } else {
                old(self)@
            }),
    {
        let current = self.explorer_state(explorer_id);
        let valid = match (current, new_state) {
            (ExplorerLifecycle::Idle, ExplorerLifecycle::Starting) => true,
            (ExplorerLifecycle::Idle, ExplorerLifecycle::Running) => true,
            (ExplorerLifecycle::Starting, ExplorerLifecycle::Running) => true,
            (ExplorerLifecycle::Running, ExplorerLifecycle::Stopping) => true,
            (ExplorerLifecycle::Stopping, ExplorerLifecycle::Idle) => true,
            _ => false,
        };
        if valid {
            self.explorer_states.insert(explorer_id, new_state);
        }
        valid
    }
}

impl OrchestratorState {
    /// A sunray from `forge` for a planet that can be reached.
    pub fn send_sunray(&self, forge: &Forge, planet_id: u32) -> (r: Result<Dispatch, String>)
        ensures
            r is Ok <==> self@.planet_links.contains(planet_id),
            r matches Ok(d) ==> d matches Dispatch::ToPlanet { planet_id: p, msg: OrchestratorToPlanet::Sunray(_) } && p == planet_id,
            r matches Err(e) ==> e@ == no_planet_message(planet_id),
    {
        if !self.planet_links.contains(&planet_id) {
            return Err(planet_message(planet_id));
        }
        Ok(Dispatch::ToPlanet { planet_id, msg: OrchestratorToPlanet::Sunray(forge.generate_sunray()) })
    }

    /// An asteroid for a planet that can be reached.
    pub fn send_asteroid(&self, planet_id: u32) -> (r: Result<Dispatch, String>)
        ensures
            r is Ok <==> self@.planet_links.contains(planet_id),
            r matches Ok(d) ==> d == (Dispatch::ToPlanet { planet_id, msg: OrchestratorToPlanet::Asteroid }),
            r matches Err(e) ==> e@ == no_planet_message(planet_id),
    {
        if !self.planet_links.contains(&planet_id) {
            return Err(planet_message(planet_id));
        }
        Ok(Dispatch::ToPlanet { planet_id, msg: OrchestratorToPlanet::Asteroid })
    }

    /// The order to start a planet's AI, for a planet that can be reached.
    pub fn start_planet(&self, planet_id: u32) -> (r: Result<Dispatch, String>)
        ensures
            r is Ok <==> self@.planet_links.contains(planet_id),
            r matches Ok(d) ==> d == (Dispatch::ToPlanet { planet_id, msg: OrchestratorToPlanet::StartPlanetAI }),
            r matches Err(e) ==> e@ == no_planet_message(planet_id),
    {
        if !self.planet_links.contains(&planet_id) {
            return Err(planet_message(planet_id));
        }
        Ok(Dispatch::ToPlanet { planet_id, msg: OrchestratorToPlanet::StartPlanetAI })
    }

    /// The order to stop a planet's AI, for a planet that can be reached.
    pub fn stop_planet(&self, planet_id: u32) -> (r: Result<Dispatch, String>)
        ensures
            r is Ok <==> self@.planet_links.contains(planet_id),
            r matches Ok(d) ==> d == (Dispatch::ToPlanet { planet_id, msg: OrchestratorToPlanet::StopPlanetAI }),
            r matches Err(e) ==> e@ == no_planet_message(planet_id),
    {
        if !self.planet_links.contains(&planet_id) {
            return Err(planet_message(planet_id));
        }
        Ok(Dispatch::ToPlanet { planet_id, msg: OrchestratorToPlanet::StopPlanetAI })
    }

    /// The order to destroy a planet that can be reached; the planet is then
    /// recorded dead and stopping.
    pub fn kill_planet(&mut self, planet_id: u32) -> (r: Result<Dispatch, String>)
        ensures
            r is Ok <==> old(self)@.planet_links.contains(planet_id),
            r matches Ok(d) ==> d == (Dispatch::ToPlanet { planet_id, msg: OrchestratorToPlanet::KillPlanet })
                && final(self)@ == (OrchestratorView {
                    planet_alive: old(self)@.planet_alive.insert(planet_id, false),
                    planet_states: old(self)@.planet_states.insert(planet_id, PlanetLifecycle::Stopping),
                    ..old(self)@
                }),
            r matches Err(e) ==> e@ == no_planet_message(planet_id) && final(self)@ == old(self)@,
    {
        if !self.planet_links.contains(&planet_id) {
            return Err(planet_message(planet_id));
        }
        self.planet_alive.insert(planet_id, false);
        self.planet_states.insert(planet_id, PlanetLifecycle::Stopping);
        Ok(Dispatch::ToPlanet { planet_id, msg: OrchestratorToPlanet::KillPlanet })
    }

    /// A message for an explorer that can be reached.
    pub fn send_to_explorer(&self, explorer_id: u32, msg: OrchestratorToExplorer) -> (r: Result<Dispatch, String>)
        ensures
            r is Ok <==> self@.explorer_links.contains(explorer_id),
            r matches Ok(d) ==> d == (Dispatch::ToExplorer { explorer_id, msg }),
            r matches Err(e) ==> e@ == no_explorer_message(explorer_id),
    {
        if !self.explorer_links.contains(&explorer_id) {
            return Err(explorer_message(explorer_id));
        }
        Ok(Dispatch::ToExplorer { explorer_id, msg })
    }

    /// The order to start an explorer's AI.
    pub fn start_explorer(&self, explorer_id: u32) -> (r: Result<Dispatch, String>)
        ensures
            r is Ok <==> self@.explorer_links.contains(explorer_id),
            r matches Ok(d) ==> d == (Dispatch::ToExplorer { explorer_id, msg: OrchestratorToExplorer::StartExplorerAI }),
            r matches Err(e) ==> e@ == no_explorer_message(explorer_id),
    {
        self.send_to_explorer(explorer_id, OrchestratorToExplorer::StartExplorerAI)
    }

    /// The order to stop an explorer's AI.
    pub fn stop_explorer(&self, explorer_id: u32) -> (r: Result<Dispatch, String>)
        ensures
            r is Ok <==> self@.explorer_links.contains(explorer_id),
            r matches Ok(d) ==> d == (Dispatch::ToExplorer { explorer_id, msg: OrchestratorToExplorer::StopExplorerAI }),
            r matches Err(e) ==> e@ == no_explorer_message(explorer_id),
    {
        self.send_to_explorer(explorer_id, OrchestratorToExplorer::StopExplorerAI)
    }

    /// The order to end an explorer that can be reached; it is then
    /// recorded dead and stopping.
    pub fn kill_explorer(&mut self, explorer_id: u32) -> (r: Result<Dispatch, String>)
        ensures
            r is Ok <==> old(self)@.explorer_links.contains(explorer_id),
            r matches Ok(d) ==> d == (Dispatch::ToExplorer { explorer_id, msg: OrchestratorToExplorer::KillExplorer })
                && final(self)@ == (OrchestratorView {
                    explorer_alive: old(self)@.explorer_alive.insert(explorer_id, false),
                    explorer_states: old(self)@.explorer_states.insert(explorer_id, ExplorerLifecycle::Stopping),
                    ..old(self)@
                }),
            r matches Err(e) ==> e@ == no_explorer_message(explorer_id) && final(self)@ == old(self)@,
    {
        let d = self.send_to_explorer(explorer_id, OrchestratorToExplorer::KillExplorer);
        if d.is_ok() {
            self.explorer_alive.insert(explorer_id, false);
            self.explorer_states.insert(explorer_id, ExplorerLifecycle::Stopping);
        }
        d
    }

    /// An explorer reported killed: recorded dead and idle, and nowhere.
    pub fn handle_explorer_killed(&mut self, explorer_id: u32)
        ensures
            final(self)@ == (OrchestratorView {
                explorer_alive: old(self)@.explorer_alive.insert(explorer_id, false),
                explorer_states: old(self)@.explorer_states.insert(explorer_id, ExplorerLifecycle::Idle),
                explorer_planet: old(self)@.explorer_planet.remove(explorer_id),
                ..old(self)@
            }),
    {
        self.explorer_alive.insert(explorer_id, false);
        self.explorer_states.insert(explorer_id, ExplorerLifecycle::Idle);
        self.explorer_planet.remove(&explorer_id);
    }

    /// An explorer reported moved: recorded on its new planet. Returns the
    /// planet it was recorded on before, if any.
    pub fn handle_explorer_moved(&mut self, explorer_id: u32, planet_id: u32) -> (was: Option<u32>)
        ensures
            was == (if old(self)@.explorer_planet.contains_key(explorer_id) {
                Some(old(self)@.explorer_planet[explorer_id])
            } else {
                None
            }),
            final(self)@ == (OrchestratorView {
                explorer_planet: old(self)@.explorer_planet.insert(explorer_id, planet_id),
                ..old(self)@
            }),
    {
        self.explorer_planet.insert(explorer_id, planet_id)
    }
}

/// The ids of `s` that are in `links`, in order.
pub open spec fn keep_linked(s: Seq<u32>, links: Set<u32>) -> Seq<u32>
    decreases s.len(),
{
    if s.len() == 0 {
        seq![]
    } else {
        let r = keep_linked(s.drop_last(), links);
        if links.contains(s.last()) { r.push(s.last()) } else { r }
    }
}

/// The orders to end each explorer of `s` that is in `links`, in order.
pub open spec fn kills_of(s: Seq<u32>, links: Set<u32>) -> Seq<Dispatch> {
    keep_linked(s, links).map_values(|e: u32| Dispatch::ToExplorer { explorer_id: e, msg: OrchestratorToExplorer::KillExplorer })
}

/// The explorers recorded on planet `planet_id`.
pub open spec fn explorers_on(v: OrchestratorView, planet_id: u32) -> Set<u32> {
    Set::new(|e: u32| v.explorer_planet.contains_key(e) && v.explorer_planet[e] == planet_id)
}

/// `m` with every key of `keys` mapped to `val`.
pub open spec fn override_where<V>(m: Map<u32, V>, keys: Set<u32>, val: V) -> Map<u32, V> {
    m.union_prefer_right(Map::new(|k: u32| keys.contains(k), |k: u32| val))
}

/// The bookkeeping after planet `planet_id` is reported destroyed: the
/// planet dead, idle and out of reach; the explorers on it that can be
/// reached ended (dead and stopping); none recorded on it any more.
pub open spec fn after_planet_lost(v: OrchestratorView, planet_id: u32) -> OrchestratorView {
    let doomed = explorers_on(v, planet_id).intersect(v.explorer_links);
    OrchestratorView {
        planet_alive: v.planet_alive.insert(planet_id, false),
        planet_states: v.planet_states.insert(planet_id, PlanetLifecycle::Idle),
        planet_links: v.planet_links.remove(planet_id),
        planet_explorer_links: v.planet_explorer_links.remove(planet_id),
        explorer_alive: override_where(v.explorer_alive, doomed, false),
        explorer_states: override_where(v.explorer_states, doomed, ExplorerLifecycle::Stopping),
        explorer_planet: v.explorer_planet.remove_keys(explorers_on(v, planet_id)),
        ..v
    }
}

/// What an explorer asking to travel is answered: nothing when it is not
/// alive; a refusal when the destination has no channel for explorers;
/// otherwise the old planet is told it leaves (when reachable), the new
/// planet that it arrives (when it can answer the explorer and is
/// reachable), and the explorer that it may go.
pub open spec fn travel_dispatches(v: OrchestratorView, explorer_id: u32, current: u32, dst: u32) -> Seq<Dispatch> {
    if !is_alive_explorer(v, explorer_id) {
        seq![]
    } else if !v.planet_explorer_links.contains(dst) {
        seq![Dispatch::ToExplorer {
            explorer_id,
            msg: OrchestratorToExplorer::MoveToPlanet { approved: false, planet_id: dst },
        }]
    } else {
        (if v.planet_links.contains(current) {
            seq![Dispatch::ToPlanet { planet_id: current, msg: OrchestratorToPlanet::OutgoingExplorerRequest { explorer_id } }]
        } else {
            seq![]
        }) + (if v.reply_links.contains(explorer_id) && v.planet_links.contains(dst) {
            seq![Dispatch::ToPlanet { planet_id: dst, msg: OrchestratorToPlanet::IncomingExplorerRequest { explorer_id } }]
        } else {
            seq![]
        }) + seq![Dispatch::ToExplorer {
            explorer_id,
            msg: OrchestratorToExplorer::MoveToPlanet { approved: true, planet_id: dst },
        }]
    }
}

fn explorer_ids(m: &std::collections::HashMap<u32, u32>) -> (v: Vec<u32>)
    ensures
        v@.no_duplicates(),
        v@.to_set() == m@.dom(),
{
    let mut v: Vec<u32> = Vec::new();
    let ghost keys = vstd::std_specs::hash::spec_keys_iter(m).remaining();
    for x in it: m.keys()
        invariant
            it.seq() == keys,
            v@ == it.seq().take(it.index() as int).map_values(|r: &u32| *r),
    {
        v.push(*x);
        assert(v@ =~= it.seq().take(it.index() as int + 1).map_values(|r: &u32| *r));
    }
    proof {
        assert(keys.take(keys.len() as int) =~= keys);
        assert(v@ =~= keys.unref());
        assert(v@.no_duplicates()) by {
            assert forall|i: int, j: int| 0 <= i < v@.len() && 0 <= j < v@.len() && i != j implies v@[i] != v@[j] by {
                assert(keys[i] != keys[j]);
            }
        }
    }
    v
}

impl OrchestratorState {
    /// The neighbours of `current`: by the neighbour map, those that can be
    /// reached, in the map's order; for a planet the map does not list,
    /// every other planet that can be reached, each once.
    pub fn neighbors_of(&self, current: u32) -> (n: Vec<u32>)
        ensures
            self@.topology.contains_key(current) ==> n@ == keep_linked(self@.topology[current], self@.planet_links),
            !self@.topology.contains_key(current) ==> n@.no_duplicates() && n@.to_set() == self@.planet_links.remove(current),
            forall|i: int| 0 <= i < n@.len() ==> self@.planet_links.contains(#[trigger] n@[i]),
    {
        match self.topology.get(&current) {
            Some(adj) => {
                assert(self@.topology[current] == adj@);
                let mut n: Vec<u32> = Vec::new();
                let mut i: usize = 0;
                while i < adj.len()
                    invariant
                        i <= adj@.len(),
                        n@ == keep_linked(adj@.take(i as int), self.planet_links@),
                    decreases adj@.len() - i,
                {
                    assert(adj@.take(i as int + 1).drop_last() =~= adj@.take(i as int));
                    if self.planet_links.contains(&adj[i]) {
                        n.push(adj[i]);
                    }
                    i = i + 1;
                }
                assert(adj@.take(adj@.len() as int) =~= adj@);
                proof {
                    lemma_keep_linked_members(adj@, self@.planet_links);
                }
                n
            },
            None => {
                let all = ids_of(&self.planet_links);
                let mut n: Vec<u32> = Vec::new();
                let mut i: usize = 0;
                while i < all.len()
                    invariant
                        i <= all@.len(),
                        all@.no_duplicates(),
                        n@.no_duplicates(),
                        forall|y: u32| #[trigger] n@.contains(y) <==> (all@.take(i as int).contains(y) && y != current),
                    decreases all@.len() - i,
                {
                    let x = all[i];
                    proof {
                        assert forall|y: u32| #[trigger] all@.take(i as int + 1).contains(y) <==> (all@.take(i as int).contains(y) || y == x) by {
                            if all@.take(i as int + 1).contains(y) && y != x {
                                let k = choose|k: int| 0 <= k < i + 1 && #[trigger] all@.take(i as int + 1)[k] == y;
                                assert(all@.take(i as int)[k] == y);
                            }
                            if all@.take(i as int).contains(y) {
                                let k = choose|k: int| 0 <= k < i && #[trigger] all@.take(i as int)[k] == y;
                                assert(all@.take(i as int + 1)[k] == y);
                            }
                            if y == x {
                                assert(all@.take(i as int + 1)[i as int] == x);
                            }
                        }
                        assert(!all@.take(i as int).contains(x)) by {
                            if all@.take(i as int).contains(x) {
                                let k = choose|k: int| 0 <= k < i && #[trigger] all@.take(i as int)[k] == x;
                                assert(all@[k] == all@[i as int]);
                            }
                        }
                    }
                    if x != current {
                        let ghost before = n@;
                        n.push(x);
                        proof {
                            assert forall|y: u32| #[trigger] n@.contains(y) <==> (before.contains(y) || y == x) by {
                                if n@.contains(y) && y != x {
                                    let k = choose|k: int| 0 <= k < n@.len() && n@[k] == y;
                                    assert(before[k] == y);
                                }
                                if before.contains(y) {
                                    let k = choose|k: int| 0 <= k < before.len() && before[k] == y;
                                    assert(n@[k] == y);
                                }
                                if y == x {
                                    assert(n@[before.len() as int] == x);
                                }
                            }
                            assert(n@.no_duplicates()) by {
                                assert forall|a: int, b: int| 0 <= a < n@.len() && 0 <= b < n@.len() && a != b implies n@[a] != n@[b] by {
                                    if a < before.len() && b < before.len() {
                                        assert(before[a] != before[b]);
                                    } else if a < before.len() {
                                        assert(before.contains(n@[a]));
                                    } else {
                                        assert(before.contains(n@[b]));
                                    }
                                }
                            }
                        }
                    }
                    i = i + 1;
                }
                proof {
                    assert(all@.take(all@.len() as int) =~= all@);
                    assert(n@.to_set() =~= self@.planet_links.remove(current));
                    assert forall|i: int| 0 <= i < n@.len() implies self@.planet_links.contains(#[trigger] n@[i]) by {
                        assert(n@.to_set().contains(n@[i]));
                    }
                }
                n
            },
        }
    }

    /// An explorer asking for its neighbours is answered with those of the
    /// planet it names (see [`OrchestratorState::neighbors_of`]).
    pub fn handle_neighbors_request(&self, explorer_id: u32, current_planet_id: u32) -> (d: Dispatch)
        ensures
            (d matches Dispatch::ToExplorer { explorer_id: e, msg: OrchestratorToExplorer::NeighborsResponse { neighbors } }
                && e == explorer_id
                && (self@.topology.contains_key(current_planet_id) ==> neighbors@ == keep_linked(
                    self@.topology[current_planet_id],
                    self@.planet_links,
                ))
                && (!self@.topology.contains_key(current_planet_id) ==> neighbors@.no_duplicates()
                    && neighbors@.to_set() == self@.planet_links.remove(current_planet_id))),
    {
        let neighbors = self.neighbors_of(current_planet_id);
        Dispatch::ToExplorer { explorer_id, msg: OrchestratorToExplorer::NeighborsResponse { neighbors } }
    }

    /// What an explorer asking to travel from `current_planet_id` to
    /// `dst_planet_id` is answered (see [`travel_dispatches`]).
    pub fn handle_travel_request(&self, explorer_id: u32, current_planet_id: u32, dst_planet_id: u32) -> (out: Vec<Dispatch>)
        ensures
            out@ == travel_dispatches(self@, explorer_id, current_planet_id, dst_planet_id),
    {
        let mut out: Vec<Dispatch> = Vec::new();
        let alive = match self.explorer_alive.get(&explorer_id) {
            Some(a) => *a,
            None => false,
        };
        if !alive {
            assert(out@ =~= Seq::<Dispatch>::empty());
            return out;
        }
        if !self.planet_explorer_links.contains(&dst_planet_id) {
            out.push(Dispatch::ToExplorer {
                explorer_id,
                msg: OrchestratorToExplorer::MoveToPlanet { approved: false, planet_id: dst_planet_id },
            });
            assert(out@ =~= travel_dispatches(self@, explorer_id, current_planet_id, dst_planet_id));
            return out;
        }
        if self.planet_links.contains(&current_planet_id) {
            out.push(Dispatch::ToPlanet {
                planet_id: current_planet_id,
                msg: OrchestratorToPlanet::OutgoingExplorerRequest { explorer_id },
            });
        }
        if self.reply_links.contains(&explorer_id) && self.planet_links.contains(&dst_planet_id) {
            out.push(Dispatch::ToPlanet { planet_id: dst_planet_id, msg: OrchestratorToPlanet::IncomingExplorerRequest { explorer_id } });
        }
        out.push(Dispatch::ToExplorer {
            explorer_id,
            msg: OrchestratorToExplorer::MoveToPlanet { approved: true, planet_id: dst_planet_id },
        });
        assert(out@ =~= travel_dispatches(self@, explorer_id, current_planet_id, dst_planet_id));
        out
    }
}

impl OrchestratorState {
    /// A planet reported destroyed: see [`after_planet_lost`]. Returns the
    /// orders to end the explorers that were on it and can be reached, each
    /// once, in some order.
    pub fn handle_kill_planet_result(&mut self, planet_id: u32) -> (out: Vec<Dispatch>)
        ensures
            final(self)@ == after_planet_lost(old(self)@, planet_id),
            exists|order: Seq<u32>|
                #![trigger kills_of(order, old(self)@.explorer_links)]
                order.no_duplicates() && order.to_set() == explorers_on(old(self)@, planet_id)
                    && out@ == kills_of(order, old(self)@.explorer_links),
    {
        let ghost v0 = self@;
        let ghost on = explorers_on(v0, planet_id);
        self.planet_alive.insert(planet_id, false);
        self.planet_states.insert(planet_id, PlanetLifecycle::Idle);
        self.planet_links.remove(&planet_id);
        self.planet_explorer_links.remove(&planet_id);
        let ids = explorer_ids(&self.explorer_planet);
        let mut victims: Vec<u32> = Vec::new();
        let mut i: usize = 0;
        while i < ids.len()
            invariant
                i <= ids@.len(),
                ids@.no_duplicates(),
                ids@.to_set() == v0.explorer_planet.dom(),
                self.explorer_planet@ == v0.explorer_planet,
                on == explorers_on(v0, planet_id),
                victims@.no_duplicates(),
                forall|y: u32| #[trigger] victims@.contains(y) <==> (ids@.take(i as int).contains(y) && on.contains(y)),
            decreases ids@.len() - i,
        {
            let x = ids[i];
            proof {
                assert forall|y: u32| #[trigger] ids@.take(i as int + 1).contains(y) <==> (ids@.take(i as int).contains(y) || y == x) by {
                    if ids@.take(i as int + 1).contains(y) && y != x {
                        let k = choose|k: int| 0 <= k < i + 1 && #[trigger] ids@.take(i as int + 1)[k] == y;
                        assert(ids@.take(i as int)[k] == y);
                    }
                    if ids@.take(i as int).contains(y) {
                        let k = choose|k: int| 0 <= k < i && #[trigger] ids@.take(i as int)[k] == y;
                        assert(ids@.take(i as int + 1)[k] == y);
                    }
                    if y == x {
                        assert(ids@.take(i as int + 1)[i as int] == x);
                    }
                }
                assert(!ids@.take(i as int).contains(x)) by {
                    if ids@.take(i as int).contains(x) {
                        let k = choose|k: int| 0 <= k < i && #[trigger] ids@.take(i as int)[k] == x;
                        assert(ids@[k] == ids@[i as int]);
                    }
                }
                assert(ids@.to_set().contains(x));
            }
            let here = match self.explorer_planet.get(&x) {
                Some(p) => *p == planet_id,
                None => false,
            };
            if here {
                let ghost before = victims@;
                victims.push(x);
                proof {
                    assert forall|y: u32| #[trigger] victims@.contains(y) <==> (before.contains(y) || y == x) by {
                        if victims@.contains(y) && y != x {
                            let k = choose|k: int| 0 <= k < victims@.len() && victims@[k] == y;
                            assert(before[k] == y);
                        }
                        if before.contains(y) {
                            let k = choose|k: int| 0 <= k < before.len() && before[k] == y;
                            assert(victims@[k] == y);
                        }
                        if y == x {
                            assert(victims@[before.len() as int] == x);
                        }
                    }
                    assert(victims@.no_duplicates()) by {
                        assert forall|a: int, b: int| 0 <= a < victims@.len() && 0 <= b < victims@.len() && a != b implies victims@[a] != victims@[b] by {
                            if a < before.len() && b < before.len() {
                                assert(before[a] != before[b]);
                            } else if a < before.len() {
                                assert(before.contains(victims@[a]));
                            } else {
                                assert(before.contains(victims@[b]));
                            }
                        }
                    }
                }
            }
            i = i + 1;
        }
        proof {
            assert(ids@.take(ids@.len() as int) =~= ids@);
            assert(victims@.to_set() =~= on);
        }
        let ghost v1 = self@;
        let ghost links = v0.explorer_links;
        assert(v1 =~= (OrchestratorView {
            planet_alive: v0.planet_alive.insert(planet_id, false),
            planet_states: v0.planet_states.insert(planet_id, PlanetLifecycle::Idle),
            planet_links: v0.planet_links.remove(planet_id),
            planet_explorer_links: v0.planet_explorer_links.remove(planet_id),
            ..v0
        }));
        assert(victims@.take(0) =~= Seq::<u32>::empty());
        assert(self@.explorer_alive =~= override_where(v1.explorer_alive, Seq::<u32>::empty().to_set().intersect(links), false));
        assert(self@.explorer_states =~= override_where(v1.explorer_states, Seq::<u32>::empty().to_set().intersect(links), ExplorerLifecycle::Stopping));
        assert(self@.explorer_planet =~= v1.explorer_planet.remove_keys(Seq::<u32>::empty().to_set()));
        let mut out: Vec<Dispatch> = Vec::new();
        let mut j: usize = 0;
        while j < victims.len()
            invariant
                j <= victims@.len(),
                victims@.no_duplicates(),
                links == v0.explorer_links,
                on == explorers_on(v0, planet_id),
                victims@.to_set() == on,
                v1 == (OrchestratorView {
                    planet_alive: v0.planet_alive.insert(planet_id, false),
                    planet_states: v0.planet_states.insert(planet_id, PlanetLifecycle::Idle),
                    planet_links: v0.planet_links.remove(planet_id),
                    planet_explorer_links: v0.planet_explorer_links.remove(planet_id),
                    ..v0
                }),
                self@ == (OrchestratorView {
                    explorer_alive: override_where(v1.explorer_alive, victims@.take(j as int).to_set().intersect(links), false),
                    explorer_states: override_where(
                        v1.explorer_states,
                        victims@.take(j as int).to_set().intersect(links),
                        ExplorerLifecycle::Stopping,
                    ),
                    explorer_planet: v1.explorer_planet.remove_keys(victims@.take(j as int).to_set()),
                    ..v1
                }),
                out@ == kills_of(victims@.take(j as int), links),
            decreases victims@.len() - j,
        {
            let e = victims[j];
            let ghost pre = victims@.take(j as int);
            let ghost post = victims@.take(j as int + 1);
            proof {
                assert(post =~= pre.push(e));
                assert(post.drop_last() =~= pre);
                assert forall|y: u32| #[trigger] post.to_set().contains(y) <==> (pre.to_set().contains(y) || y == e) by {
                    if post.contains(y) && y != e {
                        let k = choose|k: int| 0 <= k < post.len() && #[trigger] post[k] == y;
                        assert(pre[k] == y);
                    }
                    if pre.contains(y) {
                        let k = choose|k: int| 0 <= k < pre.len() && #[trigger] pre[k] == y;
                        assert(post[k] == y);
                    }
                    if y == e {
                        assert(post[j as int] == e);
                    }
                }
            }
            let ghost before_out = out@;
            match self.kill_explorer(e) {
                Ok(d) => {
                    out.push(d);
                },
                Err(_) => {},
            }
            self.explorer_planet.remove(&e);
            proof {
                let a = post.to_set().intersect(links);
                let a0 = pre.to_set().intersect(links);
                assert(links == v1.explorer_links);
                if links.contains(e) {
                    assert(a =~= a0.insert(e));
                } else {
                    assert(a =~= a0);
                }
                assert(self@.explorer_alive =~= override_where(v1.explorer_alive, a, false));
                assert(self@.explorer_states =~= override_where(v1.explorer_states, a, ExplorerLifecycle::Stopping));
                assert(self@.explorer_planet =~= v1.explorer_planet.remove_keys(post.to_set()));
                assert(keep_linked(post, links) == (if links.contains(e) { keep_linked(pre, links).push(e) } else { keep_linked(pre, links) }));
                assert(out@ =~= kills_of(post, links));
            }
            j = j + 1;
        }
        proof {
            assert(victims@.take(victims@.len() as int) =~= victims@);
            assert(self@ =~= after_planet_lost(v0, planet_id));
        }
        out
    }
}

/// The number of sunrays each planet is charged with before explorers
/// start.
pub const PRECHARGE_SUNRAYS: usize = 5;

/// `d` sends a sunray to planet `p`.
pub open spec fn is_charge_for(d: Dispatch, p: u32) -> bool {
    d matches Dispatch::ToPlanet { planet_id, msg: OrchestratorToPlanet::Sunray(_) } && planet_id == p
}

/// `seg` holds five sunrays for each planet of `planets`, planet by planet.
pub open spec fn is_charges(seg: Seq<Dispatch>, planets: Seq<u32>) -> bool {
    &&& seg.len() == 5 * planets.len()
    &&& forall|i: int| 0 <= i < seg.len() ==> is_charge_for(#[trigger] seg[i], planets[i / 5])
}

/// The orders to start each planet of `planets`, in order.
pub open spec fn starts_of(planets: Seq<u32>) -> Seq<Dispatch> {
    planets.map_values(|p: u32| Dispatch::ToPlanet { planet_id: p, msg: OrchestratorToPlanet::StartPlanetAI })
}

/// Planet 1 told of each explorer of `explorers` that it can answer, when
/// planet 1 can be reached.
pub open spec fn welcomes_of(v: OrchestratorView, explorers: Seq<u32>) -> Seq<Dispatch> {
    if v.planet_links.contains(1) {
        keep_linked(explorers, v.reply_links).map_values(
            |e: u32| Dispatch::ToPlanet { planet_id: 1, msg: OrchestratorToPlanet::IncomingExplorerRequest { explorer_id: e } },
        )
    } else {
        seq![]
    }
}

/// The bookkeeping after start-up: every reachable planet alive and
/// starting; every reachable explorer alive, idle and on planet 1.
pub open spec fn after_start(v: OrchestratorView) -> OrchestratorView {
    OrchestratorView {
        planet_alive: override_where(v.planet_alive, v.planet_links, true),
        planet_states: override_where(v.planet_states, v.planet_links, PlanetLifecycle::Starting),
        explorer_alive: override_where(v.explorer_alive, v.explorer_links, true),
        explorer_states: override_where(v.explorer_states, v.explorer_links, ExplorerLifecycle::Idle),
        explorer_planet: override_where(v.explorer_planet, v.explorer_links, 1u32),
        ..v
    }
}

impl OrchestratorState {
    /// Start-up (see [`after_start`]): each reachable planet is told to
    /// start, then charged with five sunrays from `forge`, then planet 1 is
    /// told of each explorer it can answer. Planets and explorers come in
    /// some order, each once.
    pub fn initialize(&mut self, forge: &Forge) -> (out: Vec<Dispatch>)
        ensures
            final(self)@ == after_start(old(self)@),
            exists|po: Seq<u32>, eo: Seq<u32>|
                #![trigger starts_of(po), welcomes_of(old(self)@, eo)]
                {
                    &&& po.no_duplicates() && po.to_set() == old(self)@.planet_links
                    &&& eo.no_duplicates() && eo.to_set() == old(self)@.explorer_links
                    &&& out@.len() == 6 * po.len() + welcomes_of(old(self)@, eo).len()
                    &&& out@.subrange(0, po.len() as int) == starts_of(po)
                    &&& is_charges(out@.subrange(po.len() as int, 6 * po.len() as int), po)
                    &&& out@.skip(6 * po.len() as int) == welcomes_of(old(self)@, eo)
                },
    {
        let ghost v0 = self@;
        let planets = ids_of(&self.planet_links);
        let mut out: Vec<Dispatch> = Vec::new();
        let mut i: usize = 0;
        while i < planets.len()
            invariant
                i <= planets@.len(),
                planets@.to_set() == v0.planet_links,
                self@ == (OrchestratorView {
                    planet_alive: override_where(v0.planet_alive, planets@.take(i as int).to_set(), true),
                    planet_states: override_where(v0.planet_states, planets@.take(i as int).to_set(), PlanetLifecycle::Starting),
                    ..v0
                }),
                out@ == starts_of(planets@.take(i as int)),
            decreases planets@.len() - i,
        {
            let p = planets[i];
            let ghost pre = planets@.take(i as int);
            let ghost post = planets@.take(i as int + 1);
            proof {
                assert(post =~= pre.push(p));
                assert(post.to_set() =~= pre.to_set().insert(p)) by {
                    assert forall|y: u32| post.contains(y) <==> (pre.contains(y) || y == p) by {
                        if post.contains(y) && y != p {
                            let k = choose|k: int| 0 <= k < post.len() && #[trigger] post[k] == y;
                            assert(pre[k] == y);
                        }
                        if pre.contains(y) {
                            let k = choose|k: int| 0 <= k < pre.len() && #[trigger] pre[k] == y;
                            assert(post[k] == y);
                        }
                        if y == p {
                            assert(post[i as int] == p);
                        }
                    }
                }
                assert(planets@.to_set().contains(p)) by {
                    assert(planets@[i as int] == p);
                }
            }
            self.planet_alive.insert(p, true);
            self.planet_states.insert(p, PlanetLifecycle::Starting);
            match self.start_planet(p) {
                Ok(d) => {
                    out.push(d);
                },
                Err(_) => {},
            }
            proof {
                assert(self@.planet_alive =~= override_where(v0.planet_alive, post.to_set(), true));
                assert(self@.planet_states =~= override_where(v0.planet_states, post.to_set(), PlanetLifecycle::Starting));
                assert(out@ =~= starts_of(post));
            }
            i = i + 1;
        }
        proof {
            assert(planets@.take(planets@.len() as int) =~= planets@);
        }
        let ghost n = planets@.len();
        let mut k: usize = 0;
        while k < planets.len()
            invariant
                k <= planets@.len(),
                n == planets@.len(),
                planets@.to_set() == v0.planet_links,
                self.planet_links@ == v0.planet_links,
                out@.len() == n + 5 * k,
                out@.subrange(0, n as int) == starts_of(planets@),
                is_charges(out@.subrange(n as int, n + 5 * k), planets@.take(k as int)),
            decreases planets@.len() - k,
        {
            let p = planets[k];
            proof {
                let seg = out@.subrange(n as int, n + 5 * k);
                assert forall|j: int| 0 <= j < 5 * k implies is_charge_for(#[trigger] out@[n + j], planets@[j / 5]) by {
                    assert(seg[j] == out@[n + j]);
                    assert(0 <= j / 5 < k);
                    assert(planets@.take(k as int)[j / 5] == planets@[j / 5]);
                }
            }
            let mut t: usize = 0;
            while t < PRECHARGE_SUNRAYS
                invariant
                    t <= 5,
                    k < planets@.len(),
                    p == planets@[k as int],
                    n == planets@.len(),
                    planets@.to_set() == v0.planet_links,
                    self.planet_links@ == v0.planet_links,
                    out@.len() == n + 5 * k + t,
                    out@.subrange(0, n as int) == starts_of(planets@),
                    forall|j: int| 0 <= j < 5 * k + t ==> is_charge_for(#[trigger] out@[n + j], planets@[j / 5]),
                decreases 5 - t,
            {
                proof {
                    assert(planets@.to_set().contains(p)) by {
                        assert(planets@[k as int] == p);
                    }
                }
                let ghost before = out@;
                match self.send_sunray(forge, p) {
                    Ok(d) => {
                        out.push(d);
                    },
                    Err(_) => {},
                }
                proof {
                    assert(out@.subrange(0, n as int) =~= before.subrange(0, n as int));
                    assert forall|j: int| 0 <= j < 5 * k + t + 1 implies is_charge_for(#[trigger] out@[n + j], planets@[j / 5]) by {
                        if j < 5 * k + t {
                            assert(out@[n + j] == before[n + j]);
                        } else {
                            assert(j / 5 == k);
                        }
                    }
                }
                t = t + 1;
            }
            proof {
                let seg = out@.subrange(n as int, n + 5 * (k + 1));
                assert forall|j: int| 0 <= j < seg.len() implies is_charge_for(#[trigger] seg[j], planets@.take(k as int + 1)[j / 5]) by {
                    assert(seg[j] == out@[n + j]);
                    assert(0 <= j / 5 <= k);
                }
            }
            k = k + 1;
        }
        proof {
            assert(planets@.take(n as int) =~= planets@);
            assert(self@ == (OrchestratorView {
                planet_alive: override_where(v0.planet_alive, v0.planet_links, true),
                planet_states: override_where(v0.planet_states, v0.planet_links, PlanetLifecycle::Starting),
                ..v0
            }));
        }
        let ghost v1 = self@;
        let ghost head = out@;
        let explorers = ids_of(&self.explorer_links);
        let mut m: usize = 0;
        while m < explorers.len()
            invariant
                m <= explorers@.len(),
                explorers@.to_set() == v0.explorer_links,
                v1 == (OrchestratorView {
                    planet_alive: override_where(v0.planet_alive, v0.planet_links, true),
                    planet_states: override_where(v0.planet_states, v0.planet_links, PlanetLifecycle::Starting),
                    ..v0
                }),
                self@ == (OrchestratorView {
                    explorer_alive: override_where(v1.explorer_alive, explorers@.take(m as int).to_set(), true),
                    explorer_states: override_where(v1.explorer_states, explorers@.take(m as int).to_set(), ExplorerLifecycle::Idle),
                    explorer_planet: override_where(v1.explorer_planet, explorers@.take(m as int).to_set(), 1u32),
                    ..v1
                }),
                out@ == head + welcomes_of(v0, explorers@.take(m as int)),
            decreases explorers@.len() - m,
        {
            let e = explorers[m];
            let ghost pre = explorers@.take(m as int);
            let ghost post = explorers@.take(m as int + 1);
            proof {
                assert(post =~= pre.push(e));
                assert(post.drop_last() =~= pre);
                assert(post.to_set() =~= pre.to_set().insert(e)) by {
                    assert forall|y: u32| post.contains(y) <==> (pre.contains(y) || y == e) by {
                        if post.contains(y) && y != e {
                            let k = choose|k: int| 0 <= k < post.len() && #[trigger] post[k] == y;
                            assert(pre[k] == y);
                        }
                        if pre.contains(y) {
                            let k = choose|k: int| 0 <= k < pre.len() && #[trigger] pre[k] == y;
                            assert(post[k] == y);
                        }
                        if y == e {
                            assert(post[m as int] == e);
                        }
                    }
                }
            }
            self.explorer_alive.insert(e, true);
            self.explorer_states.insert(e, ExplorerLifecycle::Idle);
            self.explorer_planet.insert(e, 1);
            if self.reply_links.contains(&e) && self.planet_links.contains(&1) {
                out.push(Dispatch::ToPlanet { planet_id: 1, msg: OrchestratorToPlanet::IncomingExplorerRequest { explorer_id: e } });
            }
            proof {
                assert(self@.explorer_alive =~= override_where(v1.explorer_alive, post.to_set(), true));
                assert(self@.explorer_states =~= override_where(v1.explorer_states, post.to_set(), ExplorerLifecycle::Idle));
                assert(self@.explorer_planet =~= override_where(v1.explorer_planet, post.to_set(), 1u32));
                assert(out@ =~= head + welcomes_of(v0, post));
            }
            m = m + 1;
        }
        proof {
            assert(explorers@.take(explorers@.len() as int) =~= explorers@);
            assert(self@ =~= after_start(v0));
            assert(out@.subrange(0, n as int) =~= head.subrange(0, n as int));
            assert(out@.subrange(n as int, 6 * n as int) =~= head.subrange(n as int, 6 * n as int));
            assert(out@.skip(6 * n as int) =~= welcomes_of(v0, explorers@));
            assert(starts_of(planets@) == starts_of(planets@));
            assert(welcomes_of(v0, explorers@) == welcomes_of(v0, explorers@));
        }
        out
    }
}

impl OrchestratorState {
    /// What a planet's message changes and what it is answered with: an
    /// asteroid that hit without a rocket destroys the planet (see
    /// [`OrchestratorState::kill_planet`]); a reported destruction is
    /// recorded (see [`after_planet_lost`]); a started AI moves the planet
    /// to running, a stopped AI to stopping, a stop to idle, where the
    /// phase allows it; anything else changes nothing.
    pub fn handle_planet_message(&mut self, msg: &PlanetToOrchestrator) -> (out: Vec<Dispatch>)
        ensures
            *msg matches PlanetToOrchestrator::StartPlanetAIResult { planet_id }
                ==> planet_phase(final(self)@, planet_id) == PlanetLifecycle::Running,
            *msg matches PlanetToOrchestrator::StopPlanetAIResult { planet_id }
                ==> (planet_phase(final(self)@, planet_id) == PlanetLifecycle::Stopping
                    <==> planet_phase(old(self)@, planet_id) == PlanetLifecycle::Running
                        || planet_phase(old(self)@, planet_id) == PlanetLifecycle::Stopping),
            *msg matches PlanetToOrchestrator::Stopped { planet_id }
                ==> (planet_phase(final(self)@, planet_id) == PlanetLifecycle::Idle
                    <==> planet_phase(old(self)@, planet_id) == PlanetLifecycle::Stopping
                        || planet_phase(old(self)@, planet_id) == PlanetLifecycle::Idle),
            match *msg {
                PlanetToOrchestrator::AsteroidAck { planet_id, rocket: None } => if old(self)@.planet_links.contains(planet_id) {
                    &&& final(self)@ == (OrchestratorView {
                        planet_alive: old(self)@.planet_alive.insert(planet_id, false),
                        planet_states: old(self)@.planet_states.insert(planet_id, PlanetLifecycle::Stopping),
                        ..old(self)@
                    })
                    &&& out@ == seq![Dispatch::ToPlanet { planet_id, msg: OrchestratorToPlanet::KillPlanet }]
                } else {
                    final(self)@ == old(self)@ && out@.len() == 0
                },
                PlanetToOrchestrator::KillPlanetResult { planet_id } => {
                    &&& final(self)@ == after_planet_lost(old(self)@, planet_id)
                    &&& exists|order: Seq<u32>|
                        #![trigger kills_of(order, old(self)@.explorer_links)]
                        order.no_duplicates() && order.to_set() == explorers_on(old(self)@, planet_id)
                            && out@ == kills_of(order, old(self)@.explorer_links)
                },
                PlanetToOrchestrator::StartPlanetAIResult { planet_id } => out@.len() == 0 && final(self)@ == (
                if planet_step_ok(planet_phase(old(self)@, planet_id), PlanetLifecycle::Running) {
                    OrchestratorView {
                        planet_states: old(self)@.planet_states.insert(planet_id, PlanetLifecycle::Running),
                        ..old(self)@
                    }
                } else {
                    old(self)@
                }),
                PlanetToOrchestrator::StopPlanetAIResult { planet_id } => out@.len() == 0 && final(self)@ == (
                if planet_step_ok(planet_phase(old(self)@, planet_id), PlanetLifecycle::Stopping) {
                    OrchestratorView {
                        planet_states: old(self)@.planet_states.insert(planet_id, PlanetLifecycle::Stopping),
                        ..old(self)@
                    }
                } else {
                    old(self)@
                }),
                PlanetToOrchestrator::Stopped { planet_id } => out@.len() == 0 && final(self)@ == (
                if planet_step_ok(planet_phase(old(self)@, planet_id), PlanetLifecycle::Idle) {
                    OrchestratorView {
                        planet_states: old(self)@.planet_states.insert(planet_id, PlanetLifecycle::Idle),
                        ..old(self)@
                    }
                } else {
                    old(self)@
                }),
                _ => final(self)@ == old(self)@ && out@.len() == 0,
            },
    {
        let mut out: Vec<Dispatch> = Vec::new();
        match msg {
            PlanetToOrchestrator::AsteroidAck { planet_id, rocket } => {
                if rocket.is_none() {
                    match self.kill_planet(*planet_id) {
                        Ok(d) => {
                            out.push(d);
                            assert(out@ =~= seq![Dispatch::ToPlanet { planet_id: *planet_id, msg: OrchestratorToPlanet::KillPlanet }]);
                        },
                        Err(_) => {},
                    }
                }
            },
            PlanetToOrchestrator::KillPlanetResult { planet_id } => {
                out = self.handle_kill_planet_result(*planet_id);
            },
            PlanetToOrchestrator::StartPlanetAIResult { planet_id } => {
                proof {
                    lemma_planet_phase_entries(planet_phase(self@, *planet_id));
                }
                self.validate_planet_state_transition(*planet_id, PlanetLifecycle::Running);
            },
            PlanetToOrchestrator::StopPlanetAIResult { planet_id } => {
                proof {
                    lemma_planet_phase_entries(planet_phase(self@, *planet_id));
                }
                self.validate_planet_state_transition(*planet_id, PlanetLifecycle::Stopping);
            },
            PlanetToOrchestrator::Stopped { planet_id } => {
                proof {
                    lemma_planet_phase_entries(planet_phase(self@, *planet_id));
                }
                self.validate_planet_state_transition(*planet_id, PlanetLifecycle::Idle);
            },
            _ => {},
        }
        out
    }

    /// What an explorer's message changes and what it is answered with: a
    /// started AI moves the explorer to running where its phase allows it;
    /// a kill is recorded (see [`OrchestratorState::handle_explorer_killed`]);
    /// a stopped AI makes it idle; a move is recorded; a request for
    /// neighbours or to travel is answered (see
    /// [`OrchestratorState::neighbors_of`] and [`travel_dispatches`]);
    /// anything else changes nothing.
    pub fn handle_explorer_message<T>(&mut self, msg: &ExplorerToOrchestrator<T>) -> (out: Vec<Dispatch>)
        ensures
            match *msg {
                ExplorerToOrchestrator::StartExplorerAIResult { explorer_id } => out@.len() == 0 && final(self)@ == (
                if explorer_step_ok(explorer_phase(old(self)@, explorer_id), ExplorerLifecycle::Running) {
                    OrchestratorView {
                        explorer_states: old(self)@.explorer_states.insert(explorer_id, ExplorerLifecycle::Running),
                        ..old(self)@
                    }
                } else {
                    old(self)@
                }),
                ExplorerToOrchestrator::KillExplorerResult { explorer_id } => out@.len() == 0 && final(self)@ == (OrchestratorView {
                    explorer_alive: old(self)@.explorer_alive.insert(explorer_id, false),
                    explorer_states: old(self)@.explorer_states.insert(explorer_id, ExplorerLifecycle::Idle),
                    explorer_planet: old(self)@.explorer_planet.remove(explorer_id),
                    ..old(self)@
                }),
                ExplorerToOrchestrator::StopExplorerAIResult { explorer_id } => out@.len() == 0 && final(self)@ == (OrchestratorView {
                    explorer_states: old(self)@.explorer_states.insert(explorer_id, ExplorerLifecycle::Idle),
                    ..old(self)@
                }),
                ExplorerToOrchestrator::MovedToPlanetResult { explorer_id, planet_id } => out@.len() == 0 && final(self)@ == (
                OrchestratorView { explorer_planet: old(self)@.explorer_planet.insert(explorer_id, planet_id), ..old(self)@ }),
                ExplorerToOrchestrator::NeighborsRequest { explorer_id, current_planet_id } => {
                    &&& final(self)@ == old(self)@
                    &&& out@.len() == 1
                    &&& out@[0] matches Dispatch::ToExplorer {
                        explorer_id: e,
                        msg: OrchestratorToExplorer::NeighborsResponse { neighbors },
                    } && e == explorer_id && (old(self)@.topology.contains_key(current_planet_id) ==> neighbors@
                        == keep_linked(old(self)@.topology[current_planet_id], old(self)@.planet_links)) && (
                    !old(self)@.topology.contains_key(current_planet_id) ==> neighbors@.no_duplicates()
                        && neighbors@.to_set() == old(self)@.planet_links.remove(current_planet_id))
                },
                ExplorerToOrchestrator::TravelToPlanetRequest { explorer_id, current_planet_id, dst_planet_id } => final(self)@
                    == old(self)@ && out@ == travel_dispatches(old(self)@, explorer_id, current_planet_id, dst_planet_id),
                _ => final(self)@ == old(self)@ && out@.len() == 0,
            },
    {
        let mut out: Vec<Dispatch> = Vec::new();
        match msg {
            ExplorerToOrchestrator::StartExplorerAIResult { explorer_id } => {
                self.validate_explorer_state_transition(*explorer_id, ExplorerLifecycle::Running);
            },
            ExplorerToOrchestrator::KillExplorerResult { explorer_id } => {
                self.handle_explorer_killed(*explorer_id);
            },
            ExplorerToOrchestrator::StopExplorerAIResult { explorer_id } => {
                self.explorer_states.insert(*explorer_id, ExplorerLifecycle::Idle);
            },
            ExplorerToOrchestrator::MovedToPlanetResult { explorer_id, planet_id } => {
                self.handle_explorer_moved(*explorer_id, *planet_id);
            },
            ExplorerToOrchestrator::NeighborsRequest { explorer_id, current_planet_id } => {
                out.push(self.handle_neighbors_request(*explorer_id, *current_planet_id));
            },
            ExplorerToOrchestrator::TravelToPlanetRequest { explorer_id, current_planet_id, dst_planet_id } => {
                out = self.handle_travel_request(*explorer_id, *current_planet_id, *dst_planet_id);
            },
            _ => {},
        }
        out
    }

    /// What a command of the user interface is answered with: a sunray or
    /// an asteroid for a planet, the start or stop of a planet's AI (each
    /// refused for a planet that cannot be reached), or an explorer's
    /// travel from where it is recorded (planet 0 when nowhere) to the
    /// planet named.
    pub fn handle_gui_command(&mut self, forge: &Forge, cmd: GuiCommand) -> (r: Result<Vec<Dispatch>, String>)
        ensures
            final(self)@ == old(self)@,
            match cmd {
                GuiCommand::SendSunray { planet_id } => if old(self)@.planet_links.contains(planet_id) {
                    r matches Ok(v) && v@.len() == 1 && is_charge_for(v@[0], planet_id)
                } else {
                    r matches Err(e) && e@ == no_planet_message(planet_id)
                },
                GuiCommand::SendAsteroid { planet_id } => if old(self)@.planet_links.contains(planet_id) {
                    r matches Ok(v) && v@ == seq![Dispatch::ToPlanet { planet_id, msg: OrchestratorToPlanet::Asteroid }]
                } else {
                    r matches Err(e) && e@ == no_planet_message(planet_id)
                },
                GuiCommand::StartPlanet { planet_id } => if old(self)@.planet_links.contains(planet_id) {
                    r matches Ok(v) && v@ == seq![Dispatch::ToPlanet { planet_id, msg: OrchestratorToPlanet::StartPlanetAI }]
                } else {
                    r matches Err(e) && e@ == no_planet_message(planet_id)
                },
                GuiCommand::StopPlanet { planet_id } => if old(self)@.planet_links.contains(planet_id) {
                    r matches Ok(v) && v@ == seq![Dispatch::ToPlanet { planet_id, msg: OrchestratorToPlanet::StopPlanetAI }]
                } else {
                    r matches Err(e) && e@ == no_planet_message(planet_id)
                },
                GuiCommand::MoveExplorer { explorer_id, dst_planet_id } => r matches Ok(v) && v@ == travel_dispatches(
                    old(self)@,
                    explorer_id,
                    if old(self)@.explorer_planet.contains_key(explorer_id) {
                        old(self)@.explorer_planet[explorer_id]
                    } else {
                        0
                    },
                    dst_planet_id,
                ),
            },
    {
        let single = match cmd {
            GuiCommand::SendSunray { planet_id } => self.send_sunray(forge, planet_id),
            GuiCommand::SendAsteroid { planet_id } => self.send_asteroid(planet_id),
            GuiCommand::StartPlanet { planet_id } => self.start_planet(planet_id),
            GuiCommand::StopPlanet { planet_id } => self.stop_planet(planet_id),
            GuiCommand::MoveExplorer { explorer_id, dst_planet_id } => {
                let current = match self.explorer_planet.get(&explorer_id) {
                    Some(p) => *p,
                    None => 0,
                };
                return Ok(self.handle_travel_request(explorer_id, current, dst_planet_id));
            },
        };
        match single {
            Ok(d) => {
                let mut v: Vec<Dispatch> = Vec::new();
                v.push(d);
                Ok(v)
            },
            Err(e) => Err(e),
        }
    }
}

/// Every element of `keep_linked(s, links)` is in `links` and in `s`.
pub proof fn lemma_keep_linked_members(s: Seq<u32>, links: Set<u32>)
    ensures
        forall|i: int| 0 <= i < keep_linked(s, links).len() ==> links.contains(#[trigger] keep_linked(s, links)[i])
            && s.contains(keep_linked(s, links)[i]),
    decreases s.len(),
{
    if s.len() > 0 {
        lemma_keep_linked_members(s.drop_last(), links);
        let r = keep_linked(s.drop_last(), links);
        assert forall|i: int| 0 <= i < keep_linked(s, links).len() implies links.contains(#[trigger] keep_linked(s, links)[i])
            && s.contains(keep_linked(s, links)[i]) by {
            if i < r.len() {
                assert(keep_linked(s, links)[i] == r[i]);
                let k = choose|k: int| 0 <= k < s.drop_last().len() && s.drop_last()[k] == r[i];
                assert(s[k] == r[i]);
            } else {
                assert(s[s.len() - 1] == s.last());
            }
        }
    }
}

/// The planets recorded alive, in some order.
pub open spec fn alive_planets_of(v: OrchestratorView) -> Set<u32> {
    Set::new(|p: u32| v.planet_alive.contains_key(p) && v.planet_alive[p])
}

/// The refusal for an explorer recorded nowhere.
pub open spec fn unmapped_explorer_message(id: u32) -> Seq<char> {
    "Explorer "@ + decimal(id as nat) + " not mapped to any planet"@
}

/// The refusal for a planet without a channel for explorers.
pub open spec fn no_planet_channel_message(id: u32) -> Seq<char> {
    "No explorer sender found for planet "@ + decimal(id as nat)
}

fn planet_ids(m: &std::collections::HashMap<u32, bool>) -> (v: Vec<u32>)
    ensures
        v@.no_duplicates(),
        v@.to_set() == m@.dom(),
{
    let mut v: Vec<u32> = Vec::new();
    let ghost keys = vstd::std_specs::hash::spec_keys_iter(m).remaining();
    for x in it: m.keys()
        invariant
            it.seq() == keys,
            v@ == it.seq().take(it.index() as int).map_values(|r: &u32| *r),
    {
        v.push(*x);
        assert(v@ =~= it.seq().take(it.index() as int + 1).map_values(|r: &u32| *r));
    }
    proof {
        assert(keys.take(keys.len() as int) =~= keys);
        assert(v@ =~= keys.unref());
        assert(v@.no_duplicates()) by {
            assert forall|i: int, j: int| 0 <= i < v@.len() && 0 <= j < v@.len() && i != j implies v@[i] != v@[j] by {
                assert(keys[i] != keys[j]);
            }
        }
    }
    v
}

impl OrchestratorState {
    /// The sunrays of one tick: one from `forge` for every planet recorded
    /// alive that can be reached, each once, in some order.
    pub fn tick_sunrays(&self, forge: &Forge) -> (out: Vec<Dispatch>)
        ensures
            exists|order: Seq<u32>|
                #![trigger keep_linked(order, self@.planet_links)]
                {
                    &&& order.no_duplicates() && order.to_set() == alive_planets_of(self@)
                    &&& out@.len() == keep_linked(order, self@.planet_links).len()
                    &&& forall|i: int| 0 <= i < out@.len() ==> is_charge_for(#[trigger] out@[i], keep_linked(order, self@.planet_links)[i])
                },
    {
        let ids = planet_ids(&self.planet_alive);
        let mut alive: Vec<u32> = Vec::new();
        let mut i: usize = 0;
        while i < ids.len()
            invariant
                i <= ids@.len(),
                ids@.no_duplicates(),
                ids@.to_set() == self@.planet_alive.dom(),
                alive@.no_duplicates(),
                forall|y: u32| #[trigger] alive@.contains(y) <==> (ids@.take(i as int).contains(y) && alive_planets_of(self@).contains(y)),
            decreases ids@.len() - i,
        {
            let x = ids[i];
            proof {
                assert forall|y: u32| #[trigger] ids@.take(i as int + 1).contains(y) <==> (ids@.take(i as int).contains(y) || y == x) by {
                    if ids@.take(i as int + 1).contains(y) && y != x {
                        let k = choose|k: int| 0 <= k < i + 1 && #[trigger] ids@.take(i as int + 1)[k] == y;
                        assert(ids@.take(i as int)[k] == y);
                    }
                    if ids@.take(i as int).contains(y) {
                        let k = choose|k: int| 0 <= k < i && #[trigger] ids@.take(i as int)[k] == y;
                        assert(ids@.take(i as int + 1)[k] == y);
                    }
                    if y == x {
                        assert(ids@.take(i as int + 1)[i as int] == x);
                    }
                }
                assert(!ids@.take(i as int).contains(x)) by {
                    if ids@.take(i as int).contains(x) {
                        let k = choose|k: int| 0 <= k < i && #[trigger] ids@.take(i as int)[k] == x;
                        assert(ids@[k] == ids@[i as int]);
                    }
                }
                assert(ids@.to_set().contains(x));
            }
            let is_alive = match self.planet_alive.get(&x) {
                Some(a) => *a,
                None => false,
            };
            if is_alive {
                let ghost before = alive@;
                alive.push(x);
                proof {
                    assert forall|y: u32| #[trigger] alive@.contains(y) <==> (before.contains(y) || y == x) by {
                        if alive@.contains(y) && y != x {
                            let k = choose|k: int| 0 <= k < alive@.len() && alive@[k] == y;
                            assert(before[k] == y);
                        }
                        if before.contains(y) {
                            let k = choose|k: int| 0 <= k < before.len() && before[k] == y;
                            assert(alive@[k] == y);
                        }
                        if y == x {
                            assert(alive@[before.len() as int] == x);
                        }
                    }
                    assert(alive@.no_duplicates()) by {
                        assert forall|a: int, b: int| 0 <= a < alive@.len() && 0 <= b < alive@.len() && a != b implies alive@[a] != alive@[b] by {
                            if a < before.len() && b < before.len() {
                                assert(before[a] != before[b]);
                            } else if a < before.len() {
                                assert(before.contains(alive@[a]));
                            } else {
                                assert(before.contains(alive@[b]));
                            }
                        }
                    }
                }
            }
            i = i + 1;
        }
        proof {
            assert(ids@.take(ids@.len() as int) =~= ids@);
            assert(alive@.to_set() =~= alive_planets_of(self@));
        }
        let mut out: Vec<Dispatch> = Vec::new();
        let mut j: usize = 0;
        while j < alive.len()
            invariant
                j <= alive@.len(),
                out@.len() == keep_linked(alive@.take(j as int), self@.planet_links).len(),
                forall|k: int| 0 <= k < out@.len() ==> is_charge_for(#[trigger] out@[k], keep_linked(alive@.take(j as int), self@.planet_links)[k]),
            decreases alive@.len() - j,
        {
            let p = alive[j];
            let ghost pre = alive@.take(j as int);
            let ghost post = alive@.take(j as int + 1);
            proof {
                assert(post.drop_last() =~= pre);
                assert(post.last() == p);
            }
            let ghost before = out@;
            match self.send_sunray(forge, p) {
                Ok(d) => {
                    out.push(d);
                },
                Err(_) => {},
            }
            proof {
                assert forall|k: int| 0 <= k < out@.len() implies is_charge_for(#[trigger] out@[k], keep_linked(post, self@.planet_links)[k]) by {
                    if k < before.len() {
                        assert(out@[k] == before[k]);
                    }
                }
            }
            j = j + 1;
        }
        proof {
            assert(alive@.take(alive@.len() as int) =~= alive@);
        }
        out
    }

    /// A message for an explorer through the planet it is recorded on:
    /// refused when it is recorded nowhere, or when that planet has no
    /// channel for explorers.
    pub fn send_to_explorer_via_planet(&self, explorer_id: u32, msg: ExplorerToPlanet) -> (r: Result<(u32, ExplorerToPlanet), String>)
        ensures
            !self@.explorer_planet.contains_key(explorer_id) ==> (r matches Err(e) && e@ == unmapped_explorer_message(explorer_id)),
            self@.explorer_planet.contains_key(explorer_id) ==> {
                let p = self@.explorer_planet[explorer_id];
                if self@.planet_explorer_links.contains(p) {
                    r matches Ok(x) && x.0 == p && x.1 == msg
                } else {
                    r matches Err(e) && e@ == no_planet_channel_message(p)
                }
            },
    {
        let planet_id = match self.explorer_planet.get(&explorer_id) {
            Some(p) => *p,
            None => {
                let mut m = String::from_str("Explorer ");
                proof { reveal_strlit("Explorer "); }
                push_decimal(&mut m, explorer_id as u64);
                m.append(" not mapped to any planet");
                proof { reveal_strlit(" not mapped to any planet"); }
                return Err(m);
            },
        };
        if !self.planet_explorer_links.contains(&planet_id) {
            let mut m = String::from_str("No explorer sender found for planet ");
            proof { reveal_strlit("No explorer sender found for planet "); }
            push_decimal(&mut m, planet_id as u64);
            return Err(m);
        }
        Ok((planet_id, msg))
    }
}

/// After a planet is reported destroyed, no explorer is recorded on it, it
/// can no longer be reached, it is recorded dead, and every explorer that
/// was on it and can be reached is recorded dead.
pub proof fn lemma_planet_loss(v: OrchestratorView, planet_id: u32)
    ensures
        forall|e: u32| #[trigger] after_planet_lost(v, planet_id).explorer_planet.contains_key(e)
            ==> after_planet_lost(v, planet_id).explorer_planet[e] != planet_id,
        !after_planet_lost(v, planet_id).planet_links.contains(planet_id),
        !after_planet_lost(v, planet_id).planet_explorer_links.contains(planet_id),
        after_planet_lost(v, planet_id).planet_alive[planet_id] == false,
        forall|e: u32| explorers_on(v, planet_id).contains(e) && v.explorer_links.contains(e)
            ==> #[trigger] after_planet_lost(v, planet_id).explorer_alive.contains_key(e)
                && !after_planet_lost(v, planet_id).explorer_alive[e],
{
}

/// How a planet's phase may change: it may start or run from every other
/// phase (a start report is accepted however the planet was started), it
/// may begin stopping only while running, and it may become idle only
/// while stopping.
pub proof fn lemma_planet_phase_entries(p: PlanetLifecycle)
    ensures
        planet_step_ok(p, PlanetLifecycle::Running) <==> p != PlanetLifecycle::Running,
        planet_step_ok(p, PlanetLifecycle::Starting) <==> p != PlanetLifecycle::Starting,
        planet_step_ok(p, PlanetLifecycle::Stopping) <==> p == PlanetLifecycle::Running,
        planet_step_ok(p, PlanetLifecycle::Idle) <==> p == PlanetLifecycle::Stopping,
{
}

/// How an explorer's phase may change: it may run once idle or starting,
/// start only from idle, stop only while running, and become idle only
/// while stopping.
pub proof fn lemma_explorer_phase_entries(e: ExplorerLifecycle)
    ensures
        explorer_step_ok(e, ExplorerLifecycle::Running) <==> (e == ExplorerLifecycle::Idle || e == ExplorerLifecycle::Starting),
        explorer_step_ok(e, ExplorerLifecycle::Starting) <==> e == ExplorerLifecycle::Idle,
        explorer_step_ok(e, ExplorerLifecycle::Stopping) <==> e == ExplorerLifecycle::Running,
        explorer_step_ok(e, ExplorerLifecycle::Idle) <==> e == ExplorerLifecycle::Stopping,
{
}

/// No phase steps to itself, so a repeated report is refused; an explorer
/// that is stopping can only become idle; a planet never goes straight from
/// idle to stopping.
pub proof fn lemma_phase_rules(p: PlanetLifecycle, e: ExplorerLifecycle, next: ExplorerLifecycle)
    ensures
        !planet_step_ok(p, p),
        !explorer_step_ok(e, e),
        explorer_step_ok(ExplorerLifecycle::Stopping, next) ==> next == ExplorerLifecycle::Idle,
        !planet_step_ok(PlanetLifecycle::Idle, PlanetLifecycle::Stopping),
{
}

} // verus!

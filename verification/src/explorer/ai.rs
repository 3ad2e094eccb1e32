use vstd::prelude::*;

use crate::explorer::bag::{Bag, BagView, bag_wf, build_spec, build_request, count_of, request_for};
use crate::explorer::explorer::{bag_has_room, put_generic};
use crate::explorer::kinds::{
    basic_index, bidx, cidx, complex_index, contains_basic, contains_complex, spec_basic_bag_limit,
    spec_complex_bag_limit,
};
use crate::explorer::plan::{counts_int, pick_best_goal, pick_from};
use crate::game::messages::PlanetToExplorer;
use crate::game::resource::{
    ComplexResource, BasicResource,
    BasicResourceType, ComplexResourceRequest, ComplexResourceType, GenericResource, type_of_basic,
    type_of_complex,
};

verus! {

broadcast use vstd::std_specs::hash::group_hash_axioms;

/// What the autonomous explorer is doing: learning what the current planet
/// offers, choosing a goal, collecting basics, combining, or moving on.
#[derive(Debug, Clone, Copy, PartialEq, Eq, Structural)]
pub enum ExplorerPhase {
    Scout,
    Plan,
    Collect,
    Craft,
    Move,
}

/// The state of the autonomous explorer.
#[verifier::ext_equal]
pub struct AiView {
    pub phase: ExplorerPhase,
    pub supported_basics: Seq<BasicResourceType>,
    pub supported_combos: Seq<ComplexResourceType>,
    pub known_combos: Seq<ComplexResourceType>,
    pub known_basics: Seq<BasicResourceType>,
    pub combo_planets: Seq<Seq<u32>>,
    pub remaining_basics: Seq<BasicResourceType>,
    pub remaining_combos: Seq<ComplexResourceType>,
    pub retry_count: u32,
    pub visits: Map<u32, usize>,
}

/// `after` holds what `before` holds and what `added` holds, and nothing
/// else.
pub open spec fn joins<T>(after: Seq<T>, before: Seq<T>, added: Seq<T>) -> bool {
    forall|x: T| #[trigger] after.contains(x) <==> (before.contains(x) || added.contains(x))
}

/// The basics of `needed` that the bag's basics (counted per type) do not
/// already cover, one bag unit per need, in order.
pub open spec fn unmet(needed: Seq<BasicResourceType>, counts: Seq<int>) -> Seq<BasicResourceType>
    decreases needed.len(),
{
    if needed.len() == 0 {
        seq![]
    } else {
        let b = needed[0];
        let i = bidx(b);
        if counts[i] > 0 {
            unmet(needed.skip(1), counts.update(i, counts[i] - 1))
        } else {
            seq![b] + unmet(needed.skip(1), counts)
        }
    }
}

/// The first index of `s` holding something of `allowed`.
pub open spec fn is_first_supported(s: Seq<BasicResourceType>, allowed: Seq<BasicResourceType>, i: int) -> bool {
    &&& 0 <= i < s.len()
    &&& allowed.contains(s[i])
    &&& forall|j: int| 0 <= j < i ==> !allowed.contains(s[j])
}

/// What the collect phase does next.
#[derive(Debug, Clone, Copy, PartialEq, Eq, Structural)]
pub enum CollectAction {
    /// Ask the planet to generate this basic.
    Generate(BasicResourceType),
    /// Nothing to ask here; the phase has changed.
    Continue,
}

/// The number of visits recorded for `planet`.
pub open spec fn visits_of(visits: Map<u32, usize>, planet: u32) -> usize {
    if visits.contains_key(planet) { visits[planet] } else { 0 }
}

/// The autonomous explorer's memory and current phase.
pub struct ExplorerAi {
    phase: ExplorerPhase,
    supported_basics: Vec<BasicResourceType>,
    supported_combos: Vec<ComplexResourceType>,
    known_combos: Vec<ComplexResourceType>,
    known_basics: Vec<BasicResourceType>,
    combo_planets: Vec<Vec<u32>>,
    remaining_basics: Vec<BasicResourceType>,
    remaining_combos: Vec<ComplexResourceType>,
    retry_count: u32,
    visit_count: std::collections::HashMap<u32, usize>,
}

impl View for ExplorerAi {
    type V = AiView;

    closed spec fn view(&self) -> AiView {
        AiView {
            phase: self.phase,
            supported_basics: self.supported_basics@,
            supported_combos: self.supported_combos@,
            known_combos: self.known_combos@,
            known_basics: self.known_basics@,
            combo_planets: self.combo_planets@.map_values(|v: Vec<u32>| v@),
            remaining_basics: self.remaining_basics@,
            remaining_combos: self.remaining_combos@,
            retry_count: self.retry_count,
            visits: self.visit_count@,
        }
    }
}

/// `y` occurs among the first `n` elements of `s`.
pub open spec fn in_prefix<T>(s: Seq<T>, n: int, y: T) -> bool {
    exists|j: int| 0 <= j < n && s[j] == y
}

fn join_basics(into: &mut Vec<BasicResourceType>, from: &Vec<BasicResourceType>)
    ensures
        joins(final(into)@, old(into)@, from@),
{
    let mut i: usize = 0;
    while i < from.len()
        invariant
            i <= from@.len(),
            forall|y: BasicResourceType| #[trigger] into@.contains(y) <==> (old(into)@.contains(y) || in_prefix(from@, i as int, y)),
        decreases from@.len() - i,
    {
        let x = from[i];
        let ghost before = into@;
        if !contains_basic(into, x) {
            into.push(x);
            proof {
                assert forall|y: BasicResourceType| #[trigger] into@.contains(y) <==> (before.contains(y) || y == x) by {
                    if into@.contains(y) && y != x {
                        let k = choose|k: int| 0 <= k < into@.len() && into@[k] == y;
                        assert(before[k] == y);
                    }
                    if before.contains(y) {
                        let k = choose|k: int| 0 <= k < before.len() && before[k] == y;
                        assert(into@[k] == y);
                    }
                    if y == x {
                        assert(into@[before.len() as int] == x);
                    }
                }
            }
        }
        proof {
            assert forall|y: BasicResourceType| in_prefix(from@, i as int + 1, y) <==> (in_prefix(from@, i as int, y) || y == x) by {
                if in_prefix(from@, i as int + 1, y) && y != x {
                    let k = choose|k: int| 0 <= k < i + 1 && from@[k] == y;
                    assert(k < i);
                }
                if in_prefix(from@, i as int, y) {
                    let k = choose|k: int| 0 <= k < i && from@[k] == y;
                    assert(0 <= k < i + 1 && from@[k] == y);
                }
                if y == x {
                    assert(from@[i as int] == x);
                }
            }
        }
        i = i + 1;
    }
    assert forall|y: BasicResourceType| in_prefix(from@, i as int, y) <==> #[trigger] from@.contains(y) by {
        if from@.contains(y) {
            let k = choose|k: int| 0 <= k < from@.len() && from@[k] == y;
            assert(0 <= k < i && from@[k] == y);
        }
    }
}

fn join_complex(into: &mut Vec<ComplexResourceType>, from: &Vec<ComplexResourceType>)
    ensures
        joins(final(into)@, old(into)@, from@),
{
    let mut i: usize = 0;
    while i < from.len()
        invariant
            i <= from@.len(),
            forall|y: ComplexResourceType| #[trigger] into@.contains(y) <==> (old(into)@.contains(y) || in_prefix(from@, i as int, y)),
        decreases from@.len() - i,
    {
        let x = from[i];
        let ghost before = into@;
        if !contains_complex(into, x) {
            into.push(x);
            proof {
                assert forall|y: ComplexResourceType| #[trigger] into@.contains(y) <==> (before.contains(y) || y == x) by {
                    if into@.contains(y) && y != x {
                        let k = choose|k: int| 0 <= k < into@.len() && into@[k] == y;
                        assert(before[k] == y);
                    }
                    if before.contains(y) {
                        let k = choose|k: int| 0 <= k < before.len() && before[k] == y;
                        assert(into@[k] == y);
                    }
                    if y == x {
                        assert(into@[before.len() as int] == x);
                    }
                }
            }
        }
        proof {
            assert forall|y: ComplexResourceType| in_prefix(from@, i as int + 1, y) <==> (in_prefix(from@, i as int, y) || y == x) by {
                if in_prefix(from@, i as int + 1, y) && y != x {
                    let k = choose|k: int| 0 <= k < i + 1 && from@[k] == y;
                    assert(k < i);
                }
                if in_prefix(from@, i as int, y) {
                    let k = choose|k: int| 0 <= k < i && from@[k] == y;
                    assert(0 <= k < i + 1 && from@[k] == y);
                }
                if y == x {
                    assert(from@[i as int] == x);
                }
            }
        }
        i = i + 1;
    }
    assert forall|y: ComplexResourceType| in_prefix(from@, i as int, y) <==> #[trigger] from@.contains(y) by {
        if from@.contains(y) {
            let k = choose|k: int| 0 <= k < from@.len() && from@[k] == y;
            assert(0 <= k < i && from@[k] == y);
        }
    }
}

fn insert_planet(into: &mut Vec<u32>, x: u32)
    ensures
        forall|y: u32| #[trigger] final(into)@.contains(y) <==> (old(into)@.contains(y) || y == x),
{
    let mut i: usize = 0;
    while i < into.len()
        invariant
            i <= into@.len(),
            forall|j: int| 0 <= j < i ==> into@[j] != x,
        decreases into@.len() - i,
    {
        if into[i] == x {
            assert(into@[i as int] == x);
            return;
        }
        i = i + 1;
    }
    let ghost before = into@;
    into.push(x);
    proof {
        assert forall|y: u32| #[trigger] into@.contains(y) <==> (before.contains(y) || y == x) by {
            if into@.contains(y) && y != x {
                let k = choose|k: int| 0 <= k < into@.len() && into@[k] == y;
                assert(before[k] == y);
            }
            if before.contains(y) {
                let k = choose|k: int| 0 <= k < before.len() && before[k] == y;
                assert(into@[k] == y);
            }
            if y == x {
                assert(into@[before.len() as int] == x);
            }
        }
    }
}

/// Records `pid` as a planet that makes each of `combos`.
fn record_planet(planets: &mut Vec<Vec<u32>>, combos: &Vec<ComplexResourceType>, pid: u32)
    requires
        old(planets)@.len() == 6,
    ensures
        final(planets)@.len() == 6,
        forall|c: ComplexResourceType, p: u32|
            #[trigger] final(planets)@[cidx(c)]@.contains(p) <==> (old(planets)@[cidx(c)]@.contains(p)
                || (p == pid && combos@.contains(c))),
{
    let mut i: usize = 0;
    while i < combos.len()
        invariant
            i <= combos@.len(),
            planets@.len() == 6,
            forall|c: ComplexResourceType, p: u32|
                #[trigger] planets@[cidx(c)]@.contains(p) <==> (old(planets)@[cidx(c)]@.contains(p)
                    || (p == pid && in_prefix(combos@, i as int, c))),
        decreases combos@.len() - i,
    {
        let c = combos[i];
        let k = complex_index(c);
        let ghost before = planets@;
        let mut inner = planets[k].clone();
        assert(inner@ == before[k as int]@);
        insert_planet(&mut inner, pid);
        planets.set(k, inner);
        proof {
            assert forall|c2: ComplexResourceType, p: u32|
                #[trigger] planets@[cidx(c2)]@.contains(p) <==> (old(planets)@[cidx(c2)]@.contains(p)
                    || (p == pid && in_prefix(combos@, i as int + 1, c2))) by {
                if cidx(c2) == cidx(c) {
                    assert(c2 == c);
                    assert(combos@[i as int] == c);
                    assert(before[cidx(c2)]@.contains(p) <==> (old(planets)@[cidx(c2)]@.contains(p)
                        || (p == pid && in_prefix(combos@, i as int, c2))));
                } else {
                    assert(planets@[cidx(c2)] == before[cidx(c2)]);
                    assert(before[cidx(c2)]@.contains(p) <==> (old(planets)@[cidx(c2)]@.contains(p)
                        || (p == pid && in_prefix(combos@, i as int, c2))));
                    if in_prefix(combos@, i as int + 1, c2) {
                        let j = choose|j: int| 0 <= j < i + 1 && combos@[j] == c2;
                        assert(j != i);
                        assert(in_prefix(combos@, i as int, c2));
                    }
                    if in_prefix(combos@, i as int, c2) {
                        let j = choose|j: int| 0 <= j < i && combos@[j] == c2;
                        assert(in_prefix(combos@, i as int + 1, c2));
                    }
                }
            }
        }
        i = i + 1;
    }
    proof {
        assert forall|c: ComplexResourceType| in_prefix(combos@, i as int, c) <==> #[trigger] combos@.contains(c) by {
            if combos@.contains(c) {
                let k = choose|k: int| 0 <= k < combos@.len() && combos@[k] == c;
                assert(0 <= k < i && combos@[k] == c);
            }
        }
    }
}

/// The basics of `needed` that `counts` does not cover (see [`unmet`]).
fn unmet_basics(needed: &Vec<BasicResourceType>, counts: &Vec<u32>) -> (v: Vec<BasicResourceType>)
    requires
        counts@.len() == 4,
    ensures
        v@ == unmet(needed@, counts_int(counts@)),
{
    let mut left = counts.clone();
    let mut out: Vec<BasicResourceType> = Vec::new();
    assert(needed@.skip(0) =~= needed@);
    assert(left@ =~= counts@);
    let mut i: usize = 0;
    while i < needed.len()
        invariant
            i <= needed@.len(),
            left@.len() == 4,
            unmet(needed@, counts_int(counts@)) == out@ + unmet(needed@.skip(i as int), counts_int(left@)),
        decreases needed@.len() - i,
    {
        let b = needed[i];
        let j = basic_index(b);
        proof {
            assert(needed@.skip(i as int)[0] == b);
            assert(needed@.skip(i as int).skip(1) =~= needed@.skip(i as int + 1));
            assert(counts_int(left@)[j as int] == left@[j as int]);
        }
        if left[j] > 0 {
            let c = left[j];
            let ghost before = left@;
            left.set(j, c - 1);
            assert(counts_int(left@) =~= counts_int(before).update(j as int, c - 1));
        } else {
            let ghost before = out@;
            out.push(b);
            assert(out@ + unmet(needed@.skip(i as int + 1), counts_int(left@)) =~= before + (seq![b] + unmet(needed@.skip(i as int + 1), counts_int(left@))));
        }
        i = i + 1;
    }
    assert(needed@.skip(i as int) =~= Seq::<BasicResourceType>::empty());
    assert(out@ + Seq::<BasicResourceType>::empty() =~= out@);
    out
}

/// `s` turned left by `k`: what follows position `k`, then what precedes it.
pub open spec fn rotated<T>(s: Seq<T>, k: int) -> Seq<T> {
    s.skip(k) + s.take(k)
}

/// `s` without its first element, if it has one.
pub open spec fn pop_front<T>(s: Seq<T>) -> Seq<T> {
    if s.len() > 0 { s.drop_first() } else { s }
}

fn rotate_basics(v: &mut Vec<BasicResourceType>, k: usize)
    requires
        k <= old(v)@.len(),
    ensures
        final(v)@ == rotated(old(v)@, k as int),
{
    let mut out: Vec<BasicResourceType> = Vec::new();
    let mut i: usize = k;
    while i < v.len()
        invariant
            k <= i <= v@.len(),
            out@ == v@.subrange(k as int, i as int),
        decreases v@.len() - i,
    {
        out.push(v[i]);
        i = i + 1;
        assert(out@ =~= v@.subrange(k as int, i as int));
    }
    let mut j: usize = 0;
    while j < k
        invariant
            j <= k <= v@.len(),
            out@ == v@.skip(k as int) + v@.take(j as int),
        decreases k - j,
    {
        out.push(v[j]);
        j = j + 1;
        assert(out@ =~= v@.skip(k as int) + v@.take(j as int));
    }
    *v = out;
}

fn pop_basic(v: &mut Vec<BasicResourceType>)
    ensures
        final(v)@ == pop_front(old(v)@),
{
    if v.len() > 0 {
        v.remove(0);
        assert(v@ =~= old(v)@.drop_first());
    }
}

fn pop_complex(v: &mut Vec<ComplexResourceType>)
    ensures
        final(v)@ == pop_front(old(v)@),
{
    if v.len() > 0 {
        v.remove(0);
        assert(v@ =~= old(v)@.drop_first());
    }
}

/// `j` is the first position of `ns` holding something of `known`.
pub open spec fn is_first_known(ns: Seq<u32>, known: Seq<u32>, j: int) -> bool {
    &&& 0 <= j < ns.len()
    &&& known.contains(ns[j])
    &&& forall|i: int| 0 <= i < j ==> !known.contains(ns[i])
}

fn contains_planet(v: &Vec<u32>, t: u32) -> (b: bool)
    ensures
        b == v@.contains(t),
{
    let mut i: usize = 0;
    while i < v.len()
        invariant
            i <= v@.len(),
            forall|j: int| 0 <= j < i ==> v@[j] != t,
        decreases v@.len() - i,
    {
        if v[i] == t {
            return true;
        }
        i = i + 1;
    }
    false
}

fn first_known(ns: &Vec<u32>, known: &Vec<u32>) -> (r: Option<usize>)
    ensures
        r matches Some(j) ==> is_first_known(ns@, known@, j as int),
        r is None ==> forall|i: int| 0 <= i < ns@.len() ==> !known@.contains(ns@[i]),
{
    let mut i: usize = 0;
    while i < ns.len()
        invariant
            i <= ns@.len(),
            forall|j: int| 0 <= j < i ==> !known@.contains(ns@[j]),
        decreases ns@.len() - i,
    {
        let found = contains_planet(known, ns[i]);
        if found {
            return Some(i);
        }
        i = i + 1;
    }
    None
}

fn first_supported(s: &Vec<BasicResourceType>, allowed: &Vec<BasicResourceType>) -> (r: Option<usize>)
    ensures
        r matches Some(i) ==> is_first_supported(s@, allowed@, i as int),
        r is None ==> forall|j: int| 0 <= j < s@.len() ==> !allowed@.contains(s@[j]),
{
    let mut i: usize = 0;
    while i < s.len()
        invariant
            i <= s@.len(),
            forall|j: int| 0 <= j < i ==> !allowed@.contains(s@[j]),
        decreases s@.len() - i,
    {
        if contains_basic(allowed, s[i]) {
            return Some(i);
        }
        i = i + 1;
    }
    None
}

/// Turning the basics still needed to the front only reorders them: the
/// same basics remain, as many of each.
pub proof fn lemma_rotation_keeps_needs(s: Seq<BasicResourceType>, k: int)
    requires
        0 <= k <= s.len(),
    ensures
        rotated(s, k).to_multiset() == s.to_multiset(),
{
    vstd::seq_lib::lemma_multiset_commutative(s.skip(k), s.take(k));
    vstd::seq_lib::lemma_multiset_commutative(s.take(k), s.skip(k));
    assert(s.take(k) + s.skip(k) =~= s);
}

/// Planning never asks to collect more than the plan needs: what is left
/// to collect is no longer than the plan's basics, and each of it is one of
/// them.
pub proof fn lemma_unmet_within(needed: Seq<BasicResourceType>, counts: Seq<int>)
    requires
        counts.len() == 4,
    ensures
        unmet(needed, counts).len() <= needed.len(),
        forall|i: int| 0 <= i < unmet(needed, counts).len() ==> needed.contains(#[trigger] unmet(needed, counts)[i]),
    decreases needed.len(),
{
    if needed.len() > 0 {
        let b = needed[0];
        let i = bidx(b);
        let rest = needed.skip(1);
        if counts[i] > 0 {
            lemma_unmet_within(rest, counts.update(i, counts[i] - 1));
            assert forall|j: int| 0 <= j < unmet(needed, counts).len() implies needed.contains(#[trigger] unmet(needed, counts)[j]) by {
                let x = unmet(needed, counts)[j];
                assert(rest.contains(x));
                let k = choose|k: int| 0 <= k < rest.len() && rest[k] == x;
                assert(needed[k + 1] == x);
            }
        } else {
            lemma_unmet_within(rest, counts);
            assert forall|j: int| 0 <= j < unmet(needed, counts).len() implies needed.contains(#[trigger] unmet(needed, counts)[j]) by {
                let x = unmet(needed, counts)[j];
                if j == 0 {
                    assert(needed[0] == x);
                } else {
                    assert(unmet(needed, counts)[j] == unmet(rest, counts)[j - 1]);
                    assert(rest.contains(x));
                    let k = choose|k: int| 0 <= k < rest.len() && rest[k] == x;
                    assert(needed[k + 1] == x);
                }
            }
        }
    }
}

/// The explorer's state before it first scouts.
pub open spec fn fresh_ai() -> AiView {
    AiView {
        phase: ExplorerPhase::Scout,
        supported_basics: seq![],
        supported_combos: seq![],
        known_combos: seq![],
        known_basics: seq![],
        combo_planets: Seq::new(6, |i: int| Seq::<u32>::empty()),
        remaining_basics: seq![],
        remaining_combos: seq![],
        retry_count: 0,
        visits: Map::empty(),
    }
}

impl ExplorerAi {
    pub closed spec fn wf(&self) -> bool {
        &&& self.combo_planets@.len() == 6
        &&& self.retry_count < 10
    }

    /// A fresh explorer: it scouts first and knows nothing.
    pub fn new() -> (ai: ExplorerAi)
        ensures
            ai.wf(),
            ai@ == fresh_ai(),
    {
        let mut combo_planets: Vec<Vec<u32>> = Vec::new();
        let mut i: usize = 0;
        while i < 6
            invariant
                i <= 6,
                combo_planets@.len() == i,
                forall|j: int| 0 <= j < i ==> (#[trigger] combo_planets@[j])@ == Seq::<u32>::empty(),
            decreases 6 - i,
        {
            combo_planets.push(Vec::new());
            i = i + 1;
        }
        let ai = ExplorerAi {
            phase: ExplorerPhase::Scout,
            supported_basics: Vec::new(),
            supported_combos: Vec::new(),
            known_combos: Vec::new(),
            known_basics: Vec::new(),
            combo_planets,
            remaining_basics: Vec::new(),
            remaining_combos: Vec::new(),
            retry_count: 0,
            visit_count: std::collections::HashMap::new(),
        };
        assert(ai@.combo_planets =~= Seq::new(6, |i: int| Seq::<u32>::empty()));
        assert(ai@.visits =~= Map::<u32, usize>::empty());
        ai
    }

    pub fn phase(&self) -> (p: ExplorerPhase)
        ensures
            p == self@.phase,
    {
        self.phase
    }

    /// The basics still to collect, in order.
    pub fn remaining_basics(&self) -> (v: &Vec<BasicResourceType>)
        ensures
            v@ == self@.remaining_basics,
    {
        &self.remaining_basics
    }

    /// The combinations still to make, in order.
    pub fn remaining_combos(&self) -> (v: &Vec<ComplexResourceType>)
        ensures
            v@ == self@.remaining_combos,
    {
        &self.remaining_combos
    }

    /// The visits recorded for `planet`.
    pub fn visit_count(&self, planet: u32) -> (n: usize)
        ensures
            n == visits_of(self@.visits, planet),
    {
        match self.visit_count.get(&planet) {
            Some(n) => *n,
            None => 0,
        }
    }

    /// Scouting, first answer: the basics the planet generates (kept only
    /// when the answer is that list) join the known basics.
    pub fn scout_resources(&mut self, answer: PlanetToExplorer)
        requires
            old(self).wf(),
        ensures
            final(self).wf(),
            match answer {
                PlanetToExplorer::SupportedResourceResponse { resource_list } => final(self)@.supported_basics == resource_list@,
                _ => final(self)@.supported_basics == old(self)@.supported_basics,
            },
            joins(final(self)@.known_basics, old(self)@.known_basics, final(self)@.supported_basics),
            (AiView { supported_basics: old(self)@.supported_basics, known_basics: old(self)@.known_basics, ..final(self)@ }) == old(self)@,
    {
        match answer {
            PlanetToExplorer::SupportedResourceResponse { resource_list } => {
                self.supported_basics = resource_list;
            },
            _ => {},
        }
        join_basics(&mut self.known_basics, &self.supported_basics);
    }

    /// Scouting, second answer: the combinations the planet makes (kept
    /// only when the answer is that list) join the known combinations and
    /// are recorded as available on `current_planet`. With no goal in
    /// progress the explorer plans next, otherwise it resumes collecting.
    pub fn scout_combinations(&mut self, answer: PlanetToExplorer, current_planet: u32)
        requires
            old(self).wf(),
        ensures
            final(self).wf(),
            match answer {
                PlanetToExplorer::SupportedCombinationResponse { combination_list } => final(self)@.supported_combos == combination_list@,
                _ => final(self)@.supported_combos == old(self)@.supported_combos,
            },
            joins(final(self)@.known_combos, old(self)@.known_combos, final(self)@.supported_combos),
            forall|c: ComplexResourceType, p: u32|
                #[trigger] final(self)@.combo_planets[cidx(c)].contains(p) <==> (old(self)@.combo_planets[cidx(c)].contains(p)
                    || (p == current_planet && final(self)@.supported_combos.contains(c))),
            final(self)@.phase == (if old(self)@.remaining_basics.len() == 0 && old(self)@.remaining_combos.len() == 0 {
                ExplorerPhase::Plan
            } else {
                ExplorerPhase::Collect
            }),
            (AiView {
                supported_combos: old(self)@.supported_combos,
                known_combos: old(self)@.known_combos,
                combo_planets: old(self)@.combo_planets,
                phase: old(self)@.phase,
                ..final(self)@
            }) == old(self)@,
    {
        match answer {
            PlanetToExplorer::SupportedCombinationResponse { combination_list } => {
                self.supported_combos = combination_list;
            },
            _ => {},
        }
        join_complex(&mut self.known_combos, &self.supported_combos);
        let ghost planets0 = self.combo_planets@;
        record_planet(&mut self.combo_planets, &self.supported_combos, current_planet);
        proof {
            assert forall|c: ComplexResourceType, p: u32|
                #[trigger] self@.combo_planets[cidx(c)].contains(p) <==> (old(self)@.combo_planets[cidx(c)].contains(p)
                    || (p == current_planet && self@.supported_combos.contains(c))) by {
                assert(self@.combo_planets[cidx(c)] == self.combo_planets@[cidx(c)]@);
                assert(old(self)@.combo_planets[cidx(c)] == planets0[cidx(c)]@);
            }
        }
        if self.remaining_combos.len() == 0 && self.remaining_basics.len() == 0 {
            self.phase = ExplorerPhase::Plan;
        } else {
            self.phase = ExplorerPhase::Collect;
        }
    }
    /// Planning: picks the goal (see [`pick_best_goal`]) from what this
    /// planet generates, the combinations and basics known, and the bag;
    /// the basics the bag does not already cover are to be collected, the
    /// plan's combinations to be made; the explorer collects next.
    pub fn plan(&mut self, bag: &Bag) -> (goal: Option<ComplexResourceType>)
        requires
            old(self).wf(),
            bag_wf(bag@),
        ensures
            final(self).wf(),
            ({
                let picked = pick_from(
                    0,
                    old(self)@.supported_basics,
                    old(self)@.known_combos,
                    counts_int(bag@.basic_counts()),
                    counts_int(bag@.complex_counts()),
                    old(self)@.known_basics,
                );
                &&& goal == picked.0
                &&& final(self)@.remaining_basics == unmet(picked.1, counts_int(bag@.basic_counts()))
                &&& final(self)@.remaining_combos == picked.2
            }),
            final(self)@.phase == ExplorerPhase::Collect,
            (AiView {
                remaining_basics: old(self)@.remaining_basics,
                remaining_combos: old(self)@.remaining_combos,
                phase: old(self)@.phase,
                ..final(self)@
            }) == old(self)@,
    {
        let basics = bag.basic_counts();
        let complex = bag.complex_counts();
        let plan = pick_best_goal(&self.supported_basics, &self.known_combos, &basics, &complex, &self.known_basics);
        self.remaining_basics = unmet_basics(&plan.basics_needed, &basics);
        self.remaining_combos = plan.combination_sequence;
        self.phase = ExplorerPhase::Collect;
        plan.goal
    }

    /// Collecting: the first basic still needed that this planet generates
    /// is turned to the front; unless the bag is full of it, the explorer
    /// asks for it. With the bag full of it, crafting comes next. With no
    /// such basic, crafting comes next when nothing is left to collect, and
    /// moving on otherwise.
    pub fn collect_next(&mut self, bag: &Bag) -> (a: CollectAction)
        requires
            old(self).wf(),
            bag_wf(bag@),
        ensures
            final(self).wf(),
            a matches CollectAction::Generate(b) ==> old(self)@.supported_basics.contains(b),
            ({
                let s = old(self)@.remaining_basics;
                let sup = old(self)@.supported_basics;
                &&& (forall|j: int| 0 <= j < s.len() ==> !sup.contains(s[j])) ==> {
                    &&& a == CollectAction::Continue
                    &&& final(self)@.remaining_basics == s
                    &&& final(self)@.phase == (if s.len() == 0 { ExplorerPhase::Craft } else { ExplorerPhase::Move })
                }
                &&& forall|i: int| #[trigger] is_first_supported(s, sup, i) ==> {
                    &&& final(self)@.remaining_basics == rotated(s, i)
                    &&& if bag@.basic_count(s[i]) >= spec_basic_bag_limit(s[i]) {
                        a == CollectAction::Continue && final(self)@.phase == ExplorerPhase::Craft
                    } else {
                        a == CollectAction::Generate(s[i]) && final(self)@.phase == old(self)@.phase
                    }
                }
            }),
            (AiView {
                remaining_basics: old(self)@.remaining_basics,
                phase: old(self)@.phase,
                ..final(self)@
            }) == old(self)@,
    {
        match first_supported(&self.remaining_basics, &self.supported_basics) {
            Some(idx) => {
                let ghost s = self.remaining_basics@;
                rotate_basics(&mut self.remaining_basics, idx);
                let resource = self.remaining_basics[0];
                assert(resource == s[idx as int]);
                if bag.is_basic_full(resource) {
                    self.phase = ExplorerPhase::Craft;
                    CollectAction::Continue
                } else {
                    CollectAction::Generate(resource)
                }
            },
            None => {
                if self.remaining_basics.len() == 0 {
                    self.phase = ExplorerPhase::Craft;
                } else {
                    self.phase = ExplorerPhase::Move;
                }
                CollectAction::Continue
            },
        }
    }

    /// Collecting, the planet's answer: a generated unit goes into the bag
    /// and the basic at the front is done. No unit counts a retry; on the
    /// tenth, the basic at the front is given up. Returns how many
    /// milliseconds to wait before asking again (zero: no wait).
    pub fn collect_answer(&mut self, bag: &mut Bag, answer: PlanetToExplorer) -> (wait_ms: u64)
        requires
            old(self).wf(),
            bag_wf(old(bag)@),
            bag_has_room(old(bag)@),
        ensures
            final(self).wf(),
            bag_wf(final(bag)@),
            match answer {
                PlanetToExplorer::GenerateResourceResponse { resource: Some(r) } => {
                    &&& final(bag)@ == old(bag)@.put_basic(type_of_basic(r))
                    &&& final(self)@.remaining_basics == pop_front(old(self)@.remaining_basics)
                    &&& final(self)@.retry_count == 0
                    &&& wait_ms == 0
                },
                PlanetToExplorer::GenerateResourceResponse { resource: None } => {
                    &&& final(bag)@ == old(bag)@
                    &&& if old(self)@.retry_count + 1 >= 10 {
                        &&& final(self)@.remaining_basics == pop_front(old(self)@.remaining_basics)
                        &&& final(self)@.retry_count == 0
                        &&& wait_ms == 0
                    } else {
                        &&& final(self)@.remaining_basics == old(self)@.remaining_basics
                        &&& final(self)@.retry_count == old(self)@.retry_count + 1
                        &&& wait_ms == 50 * (old(self)@.retry_count + 1)
                    }
                },
                _ => final(bag)@ == old(bag)@ && final(self)@ == old(self)@ && wait_ms == 0,
            },
            (AiView {
                remaining_basics: old(self)@.remaining_basics,
                retry_count: old(self)@.retry_count,
                ..final(self)@
            }) == old(self)@,
    {
        match answer {
            PlanetToExplorer::GenerateResourceResponse { resource: Some(r) } => {
                proof {
                    let i = bidx(type_of_basic(r));
                    assert(count_of(old(bag)@.basic[i]) < u32::MAX);
                }
                bag.insert_basic_resource_in_bag(r);
                pop_basic(&mut self.remaining_basics);
                self.retry_count = 0;
                0
            },
            PlanetToExplorer::GenerateResourceResponse { resource: None } => {
                self.retry_count = self.retry_count + 1;
                if self.retry_count >= 10 {
                    pop_basic(&mut self.remaining_basics);
                    self.retry_count = 0;
                    0
                } else {
                    50 * (self.retry_count as u64)
                }
            },
            _ => 0,
        }
    }

    /// Crafting: the next combination is asked for when this planet makes
    /// it and the bag has room for it, taking its ingredients from the bag
    /// (see [`build_request`]). Otherwise the explorer moves on; when the
    /// ingredients are missing, the goal is dropped and planning comes
    /// next.
    pub fn craft_next(&mut self, bag: &mut Bag) -> (req: Option<ComplexResourceRequest>)
        requires
            old(self).wf(),
            bag_wf(old(bag)@),
        ensures
            final(self).wf(),
            bag_wf(final(bag)@),
            req matches Some(r) ==> exists|c: ComplexResourceType|
                old(self)@.supported_combos.contains(c) && r == #[trigger] request_for(c),
            ({
                let o = old(self)@;
                if o.remaining_combos.len() == 0 {
                    req is None && final(bag)@ == old(bag)@ && final(self)@ == (AiView { phase: ExplorerPhase::Move, ..o })
                } else {
                    let c = o.remaining_combos[0];
                    if !o.supported_combos.contains(c) || old(bag)@.complex_count(c) >= spec_complex_bag_limit(c) {
                        req is None && final(bag)@ == old(bag)@ && final(self)@ == (AiView { phase: ExplorerPhase::Move, ..o })
                    } else {
                        let (r, after) = build_spec(old(bag)@, c);
                        &&& req == r
                        &&& final(bag)@ == after
                        &&& r is None ==> final(self)@ == (AiView {
                            phase: ExplorerPhase::Plan,
                            remaining_basics: seq![],
                            remaining_combos: seq![],
                            ..o
                        })
                        &&& r is Some ==> final(self)@ == o
                    }
                }
            }),
    {
        if self.remaining_combos.len() == 0 {
            self.phase = ExplorerPhase::Move;
            return None;
        }
        let c = self.remaining_combos[0];
        if !contains_complex(&self.supported_combos, c) || bag.is_complex_full(c) {
            self.phase = ExplorerPhase::Move;
            return None;
        }
        let req = build_request(bag, c);
        if req.is_none() {
            self.remaining_basics = Vec::new();
            self.remaining_combos = Vec::new();
            self.phase = ExplorerPhase::Plan;
        }
        req
    }

    /// Crafting, the planet's answer: a combined unit goes into the bag and
    /// the combination at the front is done; ingredients handed back go
    /// back into the bag and the explorer moves on.
    pub fn craft_answer(&mut self, bag: &mut Bag, answer: PlanetToExplorer)
        requires
            old(self).wf(),
            bag_wf(old(bag)@),
            forall|i: int| 0 <= i < 4 ==> count_of(#[trigger] old(bag)@.basic[i]) < u32::MAX - 1,
            forall|i: int| 0 <= i < 6 ==> count_of(#[trigger] old(bag)@.complex[i]) < u32::MAX - 1,
        ensures
            final(self).wf(),
            bag_wf(final(bag)@),
            match answer {
                PlanetToExplorer::CombineResourceResponse { complex_response: Ok(c) } => {
                    &&& final(bag)@ == old(bag)@.put_complex(type_of_complex(c))
                    &&& final(self)@ == (AiView { remaining_combos: pop_front(old(self)@.remaining_combos), ..old(self)@ })
                },
                PlanetToExplorer::CombineResourceResponse { complex_response: Err(e) } => {
                    &&& final(bag)@ == put_generic(put_generic(old(bag)@, e.1), e.2)
                    &&& final(self)@ == (AiView { phase: ExplorerPhase::Move, ..old(self)@ })
                },
                _ => final(bag)@ == old(bag)@ && final(self)@ == old(self)@,
            },
    {
        match answer {
            PlanetToExplorer::CombineResourceResponse { complex_response: Ok(c) } => {
                proof {
                    let i = cidx(type_of_complex(c));
                    assert(count_of(old(bag)@.complex[i]) < u32::MAX);
                }
                bag.insert_complex_resource_in_bag(c);
                pop_complex(&mut self.remaining_combos);
            },
            PlanetToExplorer::CombineResourceResponse { complex_response: Err((_msg, r1, r2)) } => {
                proof {
                    match r1 {
                        GenericResource::BasicResources(b) => {
                            assert(count_of(old(bag)@.basic[bidx(type_of_basic(b))]) < u32::MAX);
                        },
                        GenericResource::ComplexResources(c) => {
                            assert(count_of(old(bag)@.complex[cidx(type_of_complex(c))]) < u32::MAX);
                        },
                    }
                }
                bag.restore_resource(r1);
                proof {
                    let v = bag@;
                    let o = old(bag)@;
                    match r2 {
                        GenericResource::BasicResources(b) => {
                            let i = bidx(type_of_basic(b));
                            assert(count_of(o.basic[i]) < u32::MAX - 1);
                            assert(count_of(v.basic[i]) < u32::MAX);
                        },
                        GenericResource::ComplexResources(c) => {
                            let i = cidx(type_of_complex(c));
                            assert(count_of(o.complex[i]) < u32::MAX - 1);
                            assert(count_of(v.complex[i]) < u32::MAX);
                        },
                    }
                }
                bag.restore_resource(r2);
                self.phase = ExplorerPhase::Move;
            },
            _ => {},
        }
    }

    /// Moving on: with basics still to collect, the next neighbour in turn
    /// for the current planet (its visit count, modulo the number of
    /// neighbours, counted up). With only combinations left, the first
    /// neighbour known to make the next one, else the next in turn. With
    /// no goal, the next in turn. No neighbours: no destination. Either
    /// way, the explorer scouts next.
    pub fn choose_destination(&mut self, current: u32, neighbors: &Vec<u32>) -> (dst: Option<u32>)
        requires
            old(self).wf(),
            visits_of(old(self)@.visits, current) < usize::MAX,
        ensures
            final(self).wf(),
            dst matches Some(d) ==> neighbors@.contains(d),
            ({
                let o = old(self)@;
                let n = visits_of(o.visits, current);
                let turn = (AiView {
                    phase: ExplorerPhase::Scout,
                    visits: o.visits.insert(current, (n + 1) as usize),
                    ..o
                });
                if neighbors@.len() == 0 {
                    dst is None && final(self)@ == (AiView { phase: ExplorerPhase::Scout, ..o })
                } else if o.remaining_basics.len() == 0 && o.remaining_combos.len() > 0
                    && exists|j: int| is_first_known(neighbors@, o.combo_planets[cidx(o.remaining_combos[0])], j) {
                    forall|j: int| #[trigger] is_first_known(neighbors@, o.combo_planets[cidx(o.remaining_combos[0])], j)
                        ==> dst == Some(neighbors@[j]) && final(self)@ == (AiView { phase: ExplorerPhase::Scout, ..o })
                } else {
                    dst == Some(neighbors@[(n as int) % (neighbors@.len() as int)]) && final(self)@ == turn
                }
            }),
    {
        if neighbors.len() == 0 {
            self.phase = ExplorerPhase::Scout;
            return None;
        }
        if self.remaining_basics.len() == 0 && self.remaining_combos.len() > 0 {
            let needed = self.remaining_combos[0];
            let k = complex_index(needed);
            assert(self@.combo_planets[cidx(needed)] == self.combo_planets@[k as int]@);
            match first_known(neighbors, &self.combo_planets[k]) {
                Some(j) => {
                    self.phase = ExplorerPhase::Scout;
                    return Some(neighbors[j]);
                },
                None => {
                    assert(!exists|j: int| is_first_known(neighbors@, self@.combo_planets[cidx(needed)], j));
                },
            }
        }
        let n = self.visit_count(current);
        let i = n % neighbors.len();
        self.visit_count.insert(current, n + 1);
        self.phase = ExplorerPhase::Scout;
        Some(neighbors[i])
    }
}

} // verus!

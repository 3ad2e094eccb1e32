use vstd::prelude::*;

use crate::explorer::kinds::{
    basic_index, bidx, cidx, complex_bag_limit, complex_index, contains_basic, contains_complex,
    spec_basic_bag_limit, spec_complex_bag_limit,
};
use crate::game::resource::{BasicResourceType, ComplexResourceType};

verus! {

/// A goal and what reaching it takes: the basic resources to collect and
/// the combinations to make, in order. Without a goal, it lists the basic
/// resources to stock up on.
pub struct GoalPlan {
    pub goal: Option<ComplexResourceType>,
    pub basics_needed: Vec<BasicResourceType>,
    pub combination_sequence: Vec<ComplexResourceType>,
}

/// The combinations on the way to `goal`, in the order they are made.
pub open spec fn goal_steps(goal: ComplexResourceType) -> Seq<ComplexResourceType> {
    match goal {
        ComplexResourceType::Water => seq![ComplexResourceType::Water],
        ComplexResourceType::Diamond => seq![ComplexResourceType::Diamond],
        ComplexResourceType::Life => seq![ComplexResourceType::Water, ComplexResourceType::Life],
        ComplexResourceType::Dolphin => seq![
            ComplexResourceType::Water,
            ComplexResourceType::Life,
            ComplexResourceType::Water,
            ComplexResourceType::Dolphin,
        ],
        ComplexResourceType::Robot => seq![
            ComplexResourceType::Water,
            ComplexResourceType::Life,
            ComplexResourceType::Robot,
        ],
        ComplexResourceType::AIPartner => seq![
            ComplexResourceType::Water,
            ComplexResourceType::Life,
            ComplexResourceType::Robot,
            ComplexResourceType::Diamond,
            ComplexResourceType::AIPartner,
        ],
    }
}

/// The basic resources a combination step consumes.
pub open spec fn step_basics(step: ComplexResourceType) -> Seq<BasicResourceType> {
    match step {
        ComplexResourceType::Water => seq![BasicResourceType::Hydrogen, BasicResourceType::Oxygen],
        ComplexResourceType::Diamond => seq![BasicResourceType::Carbon, BasicResourceType::Carbon],
        ComplexResourceType::Life => seq![BasicResourceType::Carbon],
        ComplexResourceType::Robot => seq![BasicResourceType::Silicon],
        _ => seq![],
    }
}

/// The plan after the first `k` steps: the basics needed, the combinations
/// to make, and the complex resources still counted as available. A step
/// whose result is available uses one up; any other step is planned (its
/// basics and itself) and its result counted as available afterwards.
pub open spec fn plan_prefix(steps: Seq<ComplexResourceType>, avail: Seq<int>, k: nat) -> (
    Seq<BasicResourceType>,
    Seq<ComplexResourceType>,
    Seq<int>,
)
    decreases k,
{
    if k == 0 {
        (seq![], seq![], avail)
    } else {
        let (b, c, a) = plan_prefix(steps, avail, (k - 1) as nat);
        let s = steps[k - 1];
        let i = cidx(s);
        if a[i] > 0 {
            (b, c, a.update(i, a[i] - 1))
        } else {
            (b + step_basics(s), c.push(s), a.update(i, 1))
        }
    }
}

/// The plan for `goal` given the complex resources in the bag.
pub open spec fn plan_spec(goal: ComplexResourceType, avail: Seq<int>) -> (
    Seq<BasicResourceType>,
    Seq<ComplexResourceType>,
) {
    let r = plan_prefix(goal_steps(goal), avail, goal_steps(goal).len());
    (r.0, r.1)
}

pub open spec fn counts_int(c: Seq<u32>) -> Seq<int> {
    c.map_values(|x: u32| x as int)
}

fn steps_of(goal: ComplexResourceType) -> (v: Vec<ComplexResourceType>)
    ensures
        v@ == goal_steps(goal),
{
    let mut v = Vec::new();
    match goal {
        ComplexResourceType::Water => {
            v.push(ComplexResourceType::Water);
        },
        ComplexResourceType::Diamond => {
            v.push(ComplexResourceType::Diamond);
        },
        ComplexResourceType::Life => {
            v.push(ComplexResourceType::Water);
            v.push(ComplexResourceType::Life);
        },
        ComplexResourceType::Dolphin => {
            v.push(ComplexResourceType::Water);
            v.push(ComplexResourceType::Life);
            v.push(ComplexResourceType::Water);
            v.push(ComplexResourceType::Dolphin);
        },
        ComplexResourceType::Robot => {
            v.push(ComplexResourceType::Water);
            v.push(ComplexResourceType::Life);
            v.push(ComplexResourceType::Robot);
        },
        ComplexResourceType::AIPartner => {
            v.push(ComplexResourceType::Water);
            v.push(ComplexResourceType::Life);
            v.push(ComplexResourceType::Robot);
            v.push(ComplexResourceType::Diamond);
            v.push(ComplexResourceType::AIPartner);
        },
    }
    assert(v@ =~= goal_steps(goal));
    v
}

/// Plans `goal` against the complex resources of the bag (`bag_complex`,
/// counted per type): the basics to collect and the combinations to make.
pub fn plan_for_with_bag(goal: ComplexResourceType, bag_complex: &Vec<u32>) -> (p: GoalPlan)
    requires
        bag_complex@.len() == 6,
    ensures
        p.goal == Some(goal),
        (p.basics_needed@, p.combination_sequence@) == plan_spec(goal, counts_int(bag_complex@)),
{
    let steps = steps_of(goal);
    let mut available = bag_complex.clone();
    let mut basics_needed: Vec<BasicResourceType> = Vec::new();
    let mut combination_sequence: Vec<ComplexResourceType> = Vec::new();
    let ghost avail0 = counts_int(bag_complex@);
    let mut k: usize = 0;
    while k < steps.len()
        invariant
            k <= steps@.len(),
            steps@ == goal_steps(goal),
            steps@.len() <= 5,
            available@.len() == 6,
            forall|j: int| 0 <= j < 6 ==> available@[j] <= bag_complex@[j] + k,
            bag_complex@.len() == 6,
            avail0 == counts_int(bag_complex@),
            plan_prefix(steps@, avail0, k as nat) == (basics_needed@, combination_sequence@, counts_int(available@)),
        decreases steps@.len() - k,
    {
        let step = steps[k];
        let i = complex_index(step);
        proof {
            assert(counts_int(available@)[i as int] == available@[i as int]);
        }
        let ghost before = available@;
        let ghost b0 = basics_needed@;
        let ghost c0 = combination_sequence@;
        if available[i] > 0 {
            let c = available[i];
            available.set(i, c - 1);
            proof {
                assert(counts_int(available@) =~= counts_int(before).update(i as int, c - 1));
                assert(plan_prefix(steps@, avail0, (k + 1) as nat) == (b0, c0, counts_int(available@)));
            }
        } else {
            match step {
                ComplexResourceType::Water => {
                    basics_needed.push(BasicResourceType::Hydrogen);
                    basics_needed.push(BasicResourceType::Oxygen);
                },
                ComplexResourceType::Diamond => {
                    basics_needed.push(BasicResourceType::Carbon);
                    basics_needed.push(BasicResourceType::Carbon);
                },
                ComplexResourceType::Life => {
                    basics_needed.push(BasicResourceType::Carbon);
                },
                ComplexResourceType::Robot => {
                    basics_needed.push(BasicResourceType::Silicon);
                },
                ComplexResourceType::Dolphin => {},
                ComplexResourceType::AIPartner => {},
            }
            combination_sequence.push(step);
            available.set(i, 1);
            proof {
                assert(basics_needed@ =~= b0 + step_basics(step));
                assert(counts_int(available@) =~= counts_int(before).update(i as int, 1));
                assert(plan_prefix(steps@, avail0, (k + 1) as nat) == (basics_needed@, combination_sequence@, counts_int(available@)));
            }
        }
        k = k + 1;
    }
    GoalPlan { goal: Some(goal), basics_needed, combination_sequence }
}

/// The goals in the order they are tried: the most valuable first.
pub open spec fn goal_order() -> Seq<ComplexResourceType> {
    seq![
        ComplexResourceType::AIPartner,
        ComplexResourceType::Robot,
        ComplexResourceType::Dolphin,
        ComplexResourceType::Life,
        ComplexResourceType::Diamond,
        ComplexResourceType::Water,
    ]
}

/// Every basic in `needed` is either taken from the bag's basics (counted
/// per type in `counts`, one use each) or known to be generated somewhere.
pub open spec fn basics_ok(needed: Seq<BasicResourceType>, counts: Seq<int>, known: Seq<BasicResourceType>) -> bool
    decreases needed.len(),
{
    if needed.len() == 0 {
        true
    } else {
        let b = needed[0];
        let i = bidx(b);
        if counts[i] > 0 {
            basics_ok(needed.skip(1), counts.update(i, counts[i] - 1), known)
        } else {
            known.contains(b) && basics_ok(needed.skip(1), counts, known)
        }
    }
}

/// `goal` can be planned: the bag has room for it, every combination on the
/// way is known, every basic is in the bag or known, and there is
/// something to do.
pub open spec fn goal_acceptable(
    goal: ComplexResourceType,
    known_combos: Seq<ComplexResourceType>,
    bag_basics: Seq<int>,
    bag_complex: Seq<int>,
    known_basics: Seq<BasicResourceType>,
) -> bool {
    let (b, c) = plan_spec(goal, bag_complex.update(cidx(goal), 0));
    &&& bag_complex[cidx(goal)] < spec_complex_bag_limit(goal)
    &&& forall|j: int| 0 <= j < c.len() ==> known_combos.contains(#[trigger] c[j])
    &&& basics_ok(b, bag_basics, known_basics)
    &&& !(b.len() == 0 && c.len() == 0)
}

/// Twenty of each supported basic, in the order given.
pub open spec fn stock_up(supported: Seq<BasicResourceType>) -> Seq<BasicResourceType>
    decreases supported.len(),
{
    if supported.len() == 0 {
        seq![]
    } else {
        stock_up(supported.drop_last()) + Seq::new(
            spec_basic_bag_limit(supported.last()) as nat,
            |i: int| supported.last(),
        )
    }
}

/// The plan chosen: the first acceptable goal in [`goal_order`] from
/// position `k` on, with its plan; if none, no goal and a stock of every
/// supported basic.
pub open spec fn pick_from(
    k: nat,
    supported: Seq<BasicResourceType>,
    known_combos: Seq<ComplexResourceType>,
    bag_basics: Seq<int>,
    bag_complex: Seq<int>,
    known_basics: Seq<BasicResourceType>,
) -> (Option<ComplexResourceType>, Seq<BasicResourceType>, Seq<ComplexResourceType>)
    decreases 6 - k,
{
    if k >= 6 {
        (None, stock_up(supported), seq![])
    } else {
        let goal = goal_order()[k as int];
        if goal_acceptable(goal, known_combos, bag_basics, bag_complex, known_basics) {
            let (b, c) = plan_spec(goal, bag_complex.update(cidx(goal), 0));
            (Some(goal), b, c)
        } else {
            pick_from(k + 1, supported, known_combos, bag_basics, bag_complex, known_basics)
        }
    }
}

/// What a goal is worth to an explorer: the AI partner most, then the
/// robot, the dolphin, life and the diamond, and water least.
pub open spec fn goal_worth(t: ComplexResourceType) -> nat {
    match t {
        ComplexResourceType::AIPartner => 5,
        ComplexResourceType::Robot => 4,
        ComplexResourceType::Dolphin => 3,
        ComplexResourceType::Life => 2,
        ComplexResourceType::Diamond => 1,
        ComplexResourceType::Water => 0,
    }
}

proof fn lemma_pick_from_first(
    k: nat,
    supported: Seq<BasicResourceType>,
    known_combos: Seq<ComplexResourceType>,
    bag_basics: Seq<int>,
    bag_complex: Seq<int>,
    known_basics: Seq<BasicResourceType>,
)
    requires
        k <= 6,
    ensures
        ({
            let r = pick_from(k, supported, known_combos, bag_basics, bag_complex, known_basics);
            &&& r.0 matches Some(g) ==> exists|j: int| k <= j < 6 && goal_order()[j] == g
                && goal_acceptable(g, known_combos, bag_basics, bag_complex, known_basics)
                && (r.1, r.2) == plan_spec(g, bag_complex.update(cidx(g), 0))
                && forall|i: int| k <= i < j ==> !#[trigger] goal_acceptable(goal_order()[i], known_combos, bag_basics, bag_complex, known_basics)
            &&& r.0 is None ==> forall|i: int| k <= i < 6 ==> !#[trigger] goal_acceptable(goal_order()[i], known_combos, bag_basics, bag_complex, known_basics)
        }),
    decreases 6 - k,
{
    if k < 6 {
        lemma_pick_from_first(k + 1, supported, known_combos, bag_basics, bag_complex, known_basics);
        let goal = goal_order()[k as int];
        if goal_acceptable(goal, known_combos, bag_basics, bag_complex, known_basics) {
            assert(goal_order()[k as int] == goal);
        } else {
            let r = pick_from(k, supported, known_combos, bag_basics, bag_complex, known_basics);
            if r.0 is Some {
                let g = r.0->0;
                let j = choose|j: int| k + 1 <= j < 6 && goal_order()[j] == g
                    && goal_acceptable(g, known_combos, bag_basics, bag_complex, known_basics)
                    && (r.1, r.2) == plan_spec(g, bag_complex.update(cidx(g), 0))
                    && forall|i: int| k + 1 <= i < j ==> !#[trigger] goal_acceptable(goal_order()[i], known_combos, bag_basics, bag_complex, known_basics);
                assert forall|i: int| k <= i < j implies !#[trigger] goal_acceptable(goal_order()[i], known_combos, bag_basics, bag_complex, known_basics) by {
                    if i == k {
                        assert(goal_order()[i] == goal);
                    }
                }
            }
        }
    }
}

/// The goal chosen is the most valuable one that can be planned: it can be
/// planned, with the plan for it, and no goal worth more can; with no goal
/// chosen, no goal can be planned.
pub proof fn lemma_best_goal_chosen(
    supported: Seq<BasicResourceType>,
    known_combos: Seq<ComplexResourceType>,
    bag_basics: Seq<int>,
    bag_complex: Seq<int>,
    known_basics: Seq<BasicResourceType>,
)
    ensures
        ({
            let r = pick_from(0, supported, known_combos, bag_basics, bag_complex, known_basics);
            &&& r.0 matches Some(g) ==> {
                &&& goal_acceptable(g, known_combos, bag_basics, bag_complex, known_basics)
                &&& (r.1, r.2) == plan_spec(g, bag_complex.update(cidx(g), 0))
                &&& forall|t: ComplexResourceType| goal_worth(t) > goal_worth(g)
                    ==> !#[trigger] goal_acceptable(t, known_combos, bag_basics, bag_complex, known_basics)
            }
            &&& r.0 is None ==> forall|t: ComplexResourceType|
                !#[trigger] goal_acceptable(t, known_combos, bag_basics, bag_complex, known_basics)
        }),
{
    lemma_pick_from_first(0, supported, known_combos, bag_basics, bag_complex, known_basics);
    let r = pick_from(0, supported, known_combos, bag_basics, bag_complex, known_basics);
    let o = goal_order();
    assert forall|t: ComplexResourceType| #![trigger goal_worth(t)] o[5 - goal_worth(t)] == t by {}
    if r.0 is Some {
        let g = r.0->0;
        let j = choose|j: int| 0 <= j < 6 && o[j] == g
            && goal_acceptable(g, known_combos, bag_basics, bag_complex, known_basics)
            && (r.1, r.2) == plan_spec(g, bag_complex.update(cidx(g), 0))
            && forall|i: int| 0 <= i < j ==> !#[trigger] goal_acceptable(o[i], known_combos, bag_basics, bag_complex, known_basics);
        assert(goal_worth(g) == 5 - j);
        assert forall|t: ComplexResourceType| goal_worth(t) > goal_worth(g)
            implies !#[trigger] goal_acceptable(t, known_combos, bag_basics, bag_complex, known_basics) by {
            let i = 5 - goal_worth(t);
            assert(o[i] == t);
        }
    } else {
        assert forall|t: ComplexResourceType|
            !#[trigger] goal_acceptable(t, known_combos, bag_basics, bag_complex, known_basics) by {
            let i = 5 - goal_worth(t);
            assert(o[i] == t);
        }
    }
}

fn goals_in_order() -> (v: Vec<ComplexResourceType>)
    ensures
        v@ == goal_order(),
{
    let mut v = Vec::new();
    v.push(ComplexResourceType::AIPartner);
    v.push(ComplexResourceType::Robot);
    v.push(ComplexResourceType::Dolphin);
    v.push(ComplexResourceType::Life);
    v.push(ComplexResourceType::Diamond);
    v.push(ComplexResourceType::Water);
    assert(v@ =~= goal_order());
    v
}

fn check_basics(needed: &Vec<BasicResourceType>, bag_basics: &Vec<u32>, known_basics: &Vec<BasicResourceType>) -> (ok: bool)
    requires
        bag_basics@.len() == 4,
    ensures
        ok == basics_ok(needed@, counts_int(bag_basics@), known_basics@),
{
    let mut counts = bag_basics.clone();
    assert(needed@.skip(0) =~= needed@);
    assert(counts@ =~= bag_basics@);
    let mut i: usize = 0;
    while i < needed.len()
        invariant
            i <= needed@.len(),
            counts@.len() == 4,
            basics_ok(needed@, counts_int(bag_basics@), known_basics@) == basics_ok(
                needed@.skip(i as int),
                counts_int(counts@),
                known_basics@,
            ),
        decreases needed@.len() - i,
    {
        let b = needed[i];
        let j = basic_index(b);
        proof {
            assert(needed@.skip(i as int)[0] == b);
            assert(needed@.skip(i as int).skip(1) =~= needed@.skip(i as int + 1));
            assert(counts_int(counts@)[j as int] == counts@[j as int]);
        }
        if counts[j] > 0 {
            let c = counts[j];
            let ghost before = counts@;
            counts.set(j, c - 1);
            assert(counts_int(counts@) =~= counts_int(before).update(j as int, c - 1));
        } else if !contains_basic(known_basics, b) {
            return false;
        }
        i = i + 1;
    }
    assert(needed@.skip(i as int) =~= Seq::<BasicResourceType>::empty());
    true
}

fn all_known(combos: &Vec<ComplexResourceType>, known: &Vec<ComplexResourceType>) -> (ok: bool)
    ensures
        ok == forall|j: int| 0 <= j < combos@.len() ==> known@.contains(#[trigger] combos@[j]),
{
    let mut i: usize = 0;
    while i < combos.len()
        invariant
            i <= combos@.len(),
            forall|j: int| 0 <= j < i ==> known@.contains(#[trigger] combos@[j]),
        decreases combos@.len() - i,
    {
        if !contains_complex(known, combos[i]) {
            return false;
        }
        i = i + 1;
    }
    true
}

/// Twenty of each supported basic, in the order given.
fn stock_up_list(supported: &Vec<BasicResourceType>) -> (v: Vec<BasicResourceType>)
    ensures
        v@ == stock_up(supported@),
{
    let mut v: Vec<BasicResourceType> = Vec::new();
    let mut i: usize = 0;
    while i < supported.len()
        invariant
            i <= supported@.len(),
            v@ == stock_up(supported@.take(i as int)),
        decreases supported@.len() - i,
    {
        let b = supported[i];
        let ghost before = v@;
        let mut n: u32 = 0;
        while n < 20
            invariant
                n <= 20,
                v@ == before + Seq::new(n as nat, |x: int| b),
            decreases 20 - n,
        {
            v.push(b);
            n = n + 1;
            assert(v@ =~= before + Seq::new(n as nat, |x: int| b));
        }
        assert(supported@.take(i as int + 1).drop_last() =~= supported@.take(i as int));
        i = i + 1;
    }
    assert(supported@.take(i as int) =~= supported@);
    v
}

/// The first goal in [`goal_order`] that can be planned, with its plan.
fn first_goal_in_order(
    supported_basics: &Vec<BasicResourceType>,
    known_combos: &Vec<ComplexResourceType>,
    bag_basics: &Vec<u32>,
    bag_complex: &Vec<u32>,
    known_basics: &Vec<BasicResourceType>,
) -> (p: GoalPlan)
    requires
        bag_basics@.len() == 4,
        bag_complex@.len() == 6,
    ensures
        (p.goal, p.basics_needed@, p.combination_sequence@) == pick_from(
            0,
            supported_basics@,
            known_combos@,
            counts_int(bag_basics@),
            counts_int(bag_complex@),
            known_basics@,
        ),
{
    let goals = goals_in_order();
    let ghost bb = counts_int(bag_basics@);
    let ghost bc = counts_int(bag_complex@);
    let mut k: usize = 0;
    while k < goals.len()
        invariant
            k <= 6,
            goals@ == goal_order(),
            bag_basics@.len() == 4,
            bag_complex@.len() == 6,
            bb == counts_int(bag_basics@),
            bc == counts_int(bag_complex@),
            pick_from(0, supported_basics@, known_combos@, bb, bc, known_basics@) == pick_from(
                k as nat,
                supported_basics@,
                known_combos@,
                bb,
                bc,
                known_basics@,
            ),
        decreases 6 - k,
    {
        let goal = goals[k];
        let gi = complex_index(goal);
        proof {
            assert(bc[gi as int] == bag_complex@[gi as int]);
        }
        if bag_complex[gi] < complex_bag_limit(goal) {
            let mut bag_for_plan = bag_complex.clone();
            bag_for_plan.set(gi, 0);
            proof {
                assert(counts_int(bag_for_plan@) =~= bc.update(cidx(goal), 0));
            }
            let plan = plan_for_with_bag(goal, &bag_for_plan);
            if all_known(&plan.combination_sequence, known_combos) && check_basics(&plan.basics_needed, bag_basics, known_basics) {
                if !(plan.basics_needed.len() == 0 && plan.combination_sequence.len() == 0) {
                    return plan;
                }
            }
        }
        k = k + 1;
    }
    GoalPlan { goal: None, basics_needed: stock_up_list(supported_basics), combination_sequence: Vec::new() }
}

/// Chooses what to work towards: the first goal, from AI partner down to
/// water, that the bag has room for, whose combinations are all known, and
/// whose basics are in the bag or known to be generated somewhere (a goal
/// already planned to nothing is passed over). With none, it plans twenty
/// of each basic the current planet supports.
pub fn pick_best_goal(
    supported_basics: &Vec<BasicResourceType>,
    known_combos: &Vec<ComplexResourceType>,
    bag_basics: &Vec<u32>,
    bag_complex: &Vec<u32>,
    known_basics: &Vec<BasicResourceType>,
) -> (p: GoalPlan)
    requires
        bag_basics@.len() == 4,
        bag_complex@.len() == 6,
    ensures
        (p.goal, p.basics_needed@, p.combination_sequence@) == pick_from(
            0,
            supported_basics@,
            known_combos@,
            counts_int(bag_basics@),
            counts_int(bag_complex@),
            known_basics@,
        ),
        p.goal matches Some(g) ==> forall|t: ComplexResourceType| goal_worth(t) > goal_worth(g)
            ==> !#[trigger] goal_acceptable(t, known_combos@, counts_int(bag_basics@), counts_int(bag_complex@), known_basics@),
        p.goal is None ==> forall|t: ComplexResourceType|
            !#[trigger] goal_acceptable(t, known_combos@, counts_int(bag_basics@), counts_int(bag_complex@), known_basics@),
{
    let p = first_goal_in_order(supported_basics, known_combos, bag_basics, bag_complex, known_basics);
    proof {
        lemma_best_goal_chosen(supported_basics@, known_combos@, counts_int(bag_basics@), counts_int(bag_complex@), known_basics@);
    }
    p
}

} // verus!

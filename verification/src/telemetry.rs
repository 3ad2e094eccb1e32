//! The state of the simulation as it is shown: whether it runs, and what
//! each planet and explorer reports.

use vstd::prelude::*;

use crate::explorer::bag::{bag_wf, Bag, BagView};
use crate::explorer::kinds::{bidx, cidx};
use crate::game::resource::{BasicResourceType, ComplexResourceType};
use crate::planet_telemetry::{basic_type_label, basic_type_name, CommonPlanetSnapshot, PlanetTelemetry};

verus! {

/// The planet implementations a simulation can hold.
#[derive(Debug, Clone, Copy, PartialEq, Eq, Structural)]
pub enum PlanetKind {
    Skycartel,
    Luna4,
    BlackAdidasShoe,
    ImmutableCosmicBorrow,
    Rusteze,
    Crabtorio,
    Orbitron,
}

/// Whether the simulation has not started yet, runs, or is paused.
#[derive(Debug, Clone, Copy, PartialEq, Eq, Structural)]
pub enum RunState {
    Idle,
    Running,
    Paused,
}

/// Reads a shared flag (`AtomicBool::load`, sequentially consistent).
/// Nothing is stated of the value: other threads may set the flag at any
/// time.
#[verifier::external_body]
fn load_flag(flag: &std::sync::atomic::AtomicBool) -> bool {
    flag.load(std::sync::atomic::Ordering::SeqCst)
}

/// Running when the flag is set, paused otherwise.
pub open spec fn run_state_of_flag(running: bool) -> RunState {
    if running { RunState::Running } else { RunState::Paused }
}

/// The state the simulation is reported in: idle before the first tick
/// while stopped, otherwise running or paused by the flag.
pub open spec fn api_state(tick: u64, running: bool) -> RunState {
    if tick == 0 && !running { RunState::Idle } else { run_state_of_flag(running) }
}

impl RunState {
    /// Running when the shared flag reads set, paused otherwise.
    pub fn from_atomic(flag: &std::sync::atomic::AtomicBool) -> (r: RunState)
        ensures
            r == RunState::Running || r == RunState::Paused,
    {
        RunState::from_flag(load_flag(flag))
    }

    /// Running when `running`, paused otherwise.
    pub fn from_flag(running: bool) -> (r: RunState)
        ensures
            r == run_state_of_flag(running),
    {
        if running { RunState::Running } else { RunState::Paused }
    }

    /// The state reported for a simulation at `tick` whose run flag is
    /// `running`: idle before the first tick while stopped.
    pub fn for_status(tick: u64, running: bool) -> (r: RunState)
        ensures
            r == api_state(tick, running),
    {
        if tick == 0 && !running {
            RunState::Idle
        } else {
            RunState::from_flag(running)
        }
    }
}

/// What is shown of one planet.
pub struct PlanetSnapshot {
    pub name: String,
    pub kind: PlanetKind,
    pub stats: CommonPlanetSnapshot,
    pub explorer_count: usize,
    pub ai_running: bool,
}

/// A planet as registered for observation: its name, kind, telemetry and
/// whether its AI runs.
pub struct PlanetEntry {
    pub name: String,
    pub kind: PlanetKind,
    pub telemetry: Box<dyn PlanetTelemetry>,
    pub ai_running: std::sync::Arc<std::sync::atomic::AtomicBool>,
}

impl PlanetEntry {
    /// The planet as shown now: its name and kind, what its telemetry
    /// reports, and the AI flag as read. The telemetry is asked once for its
    /// counters and once for its explorers, and the flag read once; what they
    /// give is shown as [`PlanetEntry::snapshot_of`] says.
    pub fn snapshot(&self) -> (s: PlanetSnapshot)
        ensures
            s.name@ == self.name@,
            s.kind == self.kind,
    {
        let stats = self.telemetry.snapshot();
        let explorer_count = self.telemetry.explorer_count();
        let ai_running = load_flag(&self.ai_running);
        self.snapshot_of(stats, explorer_count, ai_running)
    }

    /// The snapshot of this planet given what its telemetry reported
    /// (`stats`, `explorer_count`) and the AI flag as read (`ai_running`).
    pub fn snapshot_of(&self, stats: CommonPlanetSnapshot, explorer_count: usize, ai_running: bool) -> (s: PlanetSnapshot)
        ensures
            s.name@ == self.name@,
            s.kind == self.kind,
            s.stats == stats,
            s.explorer_count == explorer_count,
            s.ai_running == ai_running,
    {
        PlanetSnapshot { name: self.name.clone(), kind: self.kind, stats, explorer_count, ai_running }
    }
}

/// The name of a complex resource type, as its variant is written.
pub open spec fn complex_type_name(t: ComplexResourceType) -> Seq<char> {
    match t {
        ComplexResourceType::Water => "Water"@,
        ComplexResourceType::Diamond => "Diamond"@,
        ComplexResourceType::Life => "Life"@,
        ComplexResourceType::Robot => "Robot"@,
        ComplexResourceType::Dolphin => "Dolphin"@,
        ComplexResourceType::AIPartner => "AIPartner"@,
    }
}

/// The name of a complex resource type, as its variant is written.
pub fn complex_type_label(t: ComplexResourceType) -> (s: String)
    ensures
        s@ == complex_type_name(t),
{
    match t {
        ComplexResourceType::Water => {
            let s = String::from_str("Water");
            proof { reveal_strlit("Water"); }
            s
        },
        ComplexResourceType::Diamond => {
            let s = String::from_str("Diamond");
            proof { reveal_strlit("Diamond"); }
            s
        },
        ComplexResourceType::Life => {
            let s = String::from_str("Life");
            proof { reveal_strlit("Life"); }
            s
        },
        ComplexResourceType::Robot => {
            let s = String::from_str("Robot");
            proof { reveal_strlit("Robot"); }
            s
        },
        ComplexResourceType::Dolphin => {
            let s = String::from_str("Dolphin");
            proof { reveal_strlit("Dolphin"); }
            s
        },
        ComplexResourceType::AIPartner => {
            let s = String::from_str("AIPartner");
            proof { reveal_strlit("AIPartner"); }
            s
        },
    }
}

/// The basic types in slot order.
pub open spec fn basic_at(i: int) -> BasicResourceType {
    if i == 0 {
        BasicResourceType::Oxygen
    } else if i == 1 {
        BasicResourceType::Hydrogen
    } else if i == 2 {
        BasicResourceType::Carbon
    } else {
        BasicResourceType::Silicon
    }
}

/// The complex types in slot order.
pub open spec fn complex_at(i: int) -> ComplexResourceType {
    if i == 0 {
        ComplexResourceType::Water
    } else if i == 1 {
        ComplexResourceType::Diamond
    } else if i == 2 {
        ComplexResourceType::Life
    } else if i == 3 {
        ComplexResourceType::Robot
    } else if i == 4 {
        ComplexResourceType::Dolphin
    } else {
        ComplexResourceType::AIPartner
    }
}

/// The named counts of the slots of `counts` that hold one, in slot order.
pub open spec fn named_counts(counts: Seq<Option<u32>>, name: spec_fn(int) -> Seq<char>, n: int) -> Seq<(Seq<char>, u32)>
    decreases n,
{
    if n <= 0 {
        seq![]
    } else {
        let before = named_counts(counts, name, n - 1);
        match counts[n - 1] {
            Some(c) => before.push((name(n - 1), c)),
            None => before,
        }
    }
}

/// A named count is listed exactly when some slot below `n` holds that
/// count under that name.
pub proof fn lemma_named_counts_members(counts: Seq<Option<u32>>, name: spec_fn(int) -> Seq<char>, n: int, x: (Seq<char>, u32))
    ensures
        named_counts(counts, name, n).contains(x) <==> exists|i: int| 0 <= i < n && counts[i] == Some(x.1) && #[trigger] name(i) == x.0,
    decreases n,
{
    if n > 0 {
        lemma_named_counts_members(counts, name, n - 1, x);
        let before = named_counts(counts, name, n - 1);
        match counts[n - 1] {
            Some(c) => {
                let after = before.push((name(n - 1), c));
                if before.contains(x) {
                    let k = choose|k: int| 0 <= k < before.len() && before[k] == x;
                    assert(after[k] == x);
                }
                if after.contains(x) && !before.contains(x) {
                    let k = choose|k: int| 0 <= k < after.len() && after[k] == x;
                    if k < before.len() {
                        assert(before[k] == x);
                    }
                }
                if exists|i: int| 0 <= i < n && counts[i] == Some(x.1) && #[trigger] name(i) == x.0 {
                    let i = choose|i: int| 0 <= i < n && counts[i] == Some(x.1) && #[trigger] name(i) == x.0;
                    if i == n - 1 {
                        assert(after[before.len() as int] == x);
                    }
                }
            },
            None => {
                if exists|i: int| 0 <= i < n && counts[i] == Some(x.1) && #[trigger] name(i) == x.0 {
                    let i = choose|i: int| 0 <= i < n && counts[i] == Some(x.1) && #[trigger] name(i) == x.0;
                    assert(i != n - 1);
                }
            },
        }
    }
}

/// Every slot of a table of six holds the complex type of its number, and
/// every complex type is kept in its own slot.
pub proof fn lemma_complex_slots()
    ensures
        forall|t: ComplexResourceType| #[trigger] complex_at(cidx(t)) == t,
        forall|i: int| 0 <= i < 6 ==> #[trigger] cidx(complex_at(i)) == i,
{
}

/// Every slot of a table of four holds the basic type of its number, and
/// every basic type is kept in its own slot.
pub proof fn lemma_basic_slots()
    ensures
        forall|t: BasicResourceType| #[trigger] basic_at(bidx(t)) == t,
        forall|i: int| 0 <= i < 4 ==> #[trigger] bidx(basic_at(i)) == i,
{
}

/// The complex types a bag has held, by name, with their counts.
pub open spec fn complex_listing(bag: BagView) -> Seq<(Seq<char>, u32)> {
    named_counts(bag.complex, |i: int| complex_type_name(complex_at(i)), 6)
}

/// The basic types a bag has held, by name, with their counts.
pub open spec fn basic_listing(bag: BagView) -> Seq<(Seq<char>, u32)> {
    named_counts(bag.basic, |i: int| basic_type_name(basic_at(i)), 4)
}

/// What an explorer snapshot shows of a bag: a type is listed under its own
/// name with count `c` exactly when the bag holds `c` of it, and nothing
/// else is listed.
pub proof fn lemma_snapshot_lists_held_types(bag: BagView)
    ensures
        forall|t: ComplexResourceType, c: u32| bag.complex[cidx(t)] == Some(c)
            ==> #[trigger] complex_listing(bag).contains((complex_type_name(t), c)),
        forall|n: Seq<char>, c: u32| #[trigger] complex_listing(bag).contains((n, c))
            ==> exists|t: ComplexResourceType| n == complex_type_name(t) && #[trigger] bag.complex[cidx(t)] == Some(c),
        forall|t: BasicResourceType, c: u32| bag.basic[bidx(t)] == Some(c)
            ==> #[trigger] basic_listing(bag).contains((basic_type_name(t), c)),
        forall|n: Seq<char>, c: u32| #[trigger] basic_listing(bag).contains((n, c))
            ==> exists|t: BasicResourceType| n == basic_type_name(t) && #[trigger] bag.basic[bidx(t)] == Some(c),
{
    let cname = |i: int| complex_type_name(complex_at(i));
    let bname = |i: int| basic_type_name(basic_at(i));
    lemma_complex_slots();
    lemma_basic_slots();
    assert forall|t: ComplexResourceType, c: u32| bag.complex[cidx(t)] == Some(c)
        implies #[trigger] named_counts(bag.complex, cname, 6).contains((complex_type_name(t), c)) by {
        lemma_named_counts_members(bag.complex, cname, 6, (complex_type_name(t), c));
        assert(cname(cidx(t)) == complex_type_name(t));
    }
    assert forall|n: Seq<char>, c: u32| #[trigger] named_counts(bag.complex, cname, 6).contains((n, c))
        implies exists|t: ComplexResourceType| n == complex_type_name(t) && #[trigger] bag.complex[cidx(t)] == Some(c) by {
        lemma_named_counts_members(bag.complex, cname, 6, (n, c));
        let i = choose|i: int| 0 <= i < 6 && bag.complex[i] == Some(c) && #[trigger] cname(i) == n;
        let t = complex_at(i);
        assert(cidx(t) == i);
        assert(n == complex_type_name(t) && bag.complex[cidx(t)] == Some(c));
    }
    assert forall|t: BasicResourceType, c: u32| bag.basic[bidx(t)] == Some(c)
        implies #[trigger] named_counts(bag.basic, bname, 4).contains((basic_type_name(t), c)) by {
        lemma_named_counts_members(bag.basic, bname, 4, (basic_type_name(t), c));
        assert(bname(bidx(t)) == basic_type_name(t));
    }
    assert forall|n: Seq<char>, c: u32| #[trigger] named_counts(bag.basic, bname, 4).contains((n, c))
        implies exists|t: BasicResourceType| n == basic_type_name(t) && #[trigger] bag.basic[bidx(t)] == Some(c) by {
        lemma_named_counts_members(bag.basic, bname, 4, (n, c));
        let i = choose|i: int| 0 <= i < 4 && bag.basic[i] == Some(c) && #[trigger] bname(i) == n;
        let t = basic_at(i);
        assert(bidx(t) == i);
        assert(n == basic_type_name(t) && bag.basic[bidx(t)] == Some(c));
    }
}

/// The view of a list of named counts.
pub open spec fn entries_view(v: Seq<(String, u32)>) -> Seq<(Seq<char>, u32)> {
    v.map_values(|e: (String, u32)| (e.0@, e.1))
}

/// What is shown of one explorer: each resource type it has held, by name,
/// with its count, and whether its AI runs.
pub struct ExplorerSnapshot {
    pub basic_resources: Vec<(String, u32)>,
    pub complex_resources: Vec<(String, u32)>,
    pub ai_running: bool,
}

fn basic_slot_type(i: usize) -> (t: BasicResourceType)
    requires
        i < 4,
    ensures
        t == basic_at(i as int),
{
    if i == 0 {
        BasicResourceType::Oxygen
    } else if i == 1 {
        BasicResourceType::Hydrogen
    } else if i == 2 {
        BasicResourceType::Carbon
    } else {
        BasicResourceType::Silicon
    }
}

fn complex_slot_type(i: usize) -> (t: ComplexResourceType)
    requires
        i < 6,
    ensures
        t == complex_at(i as int),
{
    if i == 0 {
        ComplexResourceType::Water
    } else if i == 1 {
        ComplexResourceType::Diamond
    } else if i == 2 {
        ComplexResourceType::Life
    } else if i == 3 {
        ComplexResourceType::Robot
    } else if i == 4 {
        ComplexResourceType::Dolphin
    } else {
        ComplexResourceType::AIPartner
    }
}

impl ExplorerSnapshot {
    /// The explorer as shown, from its bag and its AI flag: each type the
    /// bag has held, by name, with its count, in slot order.
    pub fn from_bag(bag: &Bag, ai_running: bool) -> (s: ExplorerSnapshot)
        requires
            bag_wf(bag@),
        ensures
            entries_view(s.basic_resources@) == named_counts(bag@.basic, |i: int| basic_type_name(basic_at(i)), 4),
            entries_view(s.complex_resources@) == named_counts(bag@.complex, |i: int| complex_type_name(complex_at(i)), 6),
            entries_view(s.basic_resources@) == basic_listing(bag@),
            entries_view(s.complex_resources@) == complex_listing(bag@),
            s.ai_running == ai_running,
    {
        let summary = bag.to_summary();
        let ghost bname = |i: int| basic_type_name(basic_at(i));
        let ghost cname = |i: int| complex_type_name(complex_at(i));
        let mut basic: Vec<(String, u32)> = Vec::new();
        let mut i: usize = 0;
        while i < 4
            invariant
                i <= 4,
                summary.basic_resources@ == bag@.basic,
                bag_wf(bag@),
                bname == (|k: int| basic_type_name(basic_at(k))),
                entries_view(basic@) == named_counts(bag@.basic, bname, i as int),
            decreases 4 - i,
        {
            match summary.basic_resources[i] {
                Some(c) => {
                    let ghost before = basic@;
                    let label = basic_type_label(basic_slot_type(i));
                    assert(label@ == bname(i as int));
                    basic.push((label, c));
                    assert forall|k: int| 0 <= k < basic@.len() implies #[trigger] entries_view(basic@)[k]
                        == entries_view(before).push((bname(i as int), c))[k] by {
                        if k < before.len() {
                            assert(basic@[k] == before[k]);
                        }
                    }
                    assert(entries_view(basic@) =~= entries_view(before).push((bname(i as int), c)));
                },
                None => {},
            }
            i = i + 1;
        }
        let mut complex: Vec<(String, u32)> = Vec::new();
        let mut j: usize = 0;
        while j < 6
            invariant
                j <= 6,
                summary.complex_resources@ == bag@.complex,
                bag_wf(bag@),
                cname == (|k: int| complex_type_name(complex_at(k))),
                entries_view(complex@) == named_counts(bag@.complex, cname, j as int),
            decreases 6 - j,
        {
            match summary.complex_resources[j] {
                Some(c) => {
                    let ghost before = complex@;
                    let label = complex_type_label(complex_slot_type(j));
                    assert(label@ == cname(j as int));
                    complex.push((label, c));
                    assert forall|k: int| 0 <= k < complex@.len() implies #[trigger] entries_view(complex@)[k]
                        == entries_view(before).push((cname(j as int), c))[k] by {
                        if k < before.len() {
                            assert(complex@[k] == before[k]);
                        }
                    }
                    assert(entries_view(complex@) =~= entries_view(before).push((cname(j as int), c)));
                },
                None => {},
            }
            j = j + 1;
        }
        ExplorerSnapshot { basic_resources: basic, complex_resources: complex, ai_running }
    }
}

} // verus!

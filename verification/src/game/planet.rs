use vstd::prelude::*;

use crate::game::energy_cell::EnergyCell;
use crate::game::rocket::Rocket;
use crate::game::sunray::Sunray;
use vstd::std_specs::iter::IteratorSpec;

verus! {

/// The rules a planet type imposes on a planet.
pub struct PlanetConstraints {
    pub n_energy_cells: usize,
    pub unbounded_gen_rules: bool,
    pub can_have_rocket: bool,
    pub n_comb_rules: usize,
}

/// The four planet types.
#[derive(Debug, Clone, Copy, PartialEq, Eq, Structural)]
pub enum PlanetType {
    A,
    B,
    C,
    D,
}

/// Type | cells | generation recipes | rockets | combination recipes
/// A    | 5     | at most 1          | yes     | 0
/// B    | 1     | unlimited          | no      | 1
/// C    | 1     | at most 1          | yes     | 6
/// D    | 5     | unlimited          | no      | 0
pub open spec fn spec_constraints(t: PlanetType) -> (usize, bool, bool, usize) {
    match t {
        PlanetType::A => (5, false, true, 0),
        PlanetType::B => (1, true, false, 1),
        PlanetType::C => (1, false, true, 6),
        PlanetType::D => (5, true, false, 0),
    }
}

impl PlanetConstraints {
    pub open spec fn as_tuple(&self) -> (usize, bool, bool, usize) {
        (self.n_energy_cells, self.unbounded_gen_rules, self.can_have_rocket, self.n_comb_rules)
    }
}

impl PlanetType {
    /// The constraints of this planet type (see the table on
    /// [`spec_constraints`]).
    pub fn constraints(&self) -> (c: PlanetConstraints)
        ensures
            c.as_tuple() == spec_constraints(*self),
    {
        match self {
            PlanetType::A => PlanetConstraints {
                n_energy_cells: 5,
                unbounded_gen_rules: false,
                can_have_rocket: true,
                n_comb_rules: 0,
            },
            PlanetType::B => PlanetConstraints {
                n_energy_cells: 1,
                unbounded_gen_rules: true,
                can_have_rocket: false,
                n_comb_rules: 1,
            },
            PlanetType::C => PlanetConstraints {
                n_energy_cells: 1,
                unbounded_gen_rules: false,
                can_have_rocket: true,
                n_comb_rules: 6,
            },
            PlanetType::D => PlanetConstraints {
                n_energy_cells: 5,
                unbounded_gen_rules: true,
                can_have_rocket: false,
                n_comb_rules: 0,
            },
        }
    }
}

/// What a planet's state looks like from outside: its id, the charge of
/// each cell, whether a rocket is stored, and whether its type allows one.
#[verifier::ext_equal]
pub struct PlanetStateView {
    pub id: u32,
    pub cells: Seq<bool>,
    pub has_rocket: bool,
    pub can_have_rocket: bool,
}

/// `i` is the index of the first cell whose charge is `charged`.
pub open spec fn is_first_with(cells: Seq<bool>, charged: bool, i: int) -> bool {
    &&& 0 <= i < cells.len()
    &&& cells[i] == charged
    &&& forall|j: int| 0 <= j < i ==> cells[j] != charged
}

/// Some cell has charge `charged`.
pub open spec fn has_with(cells: Seq<bool>, charged: bool) -> bool {
    exists|j: int| 0 <= j < cells.len() && cells[j] == charged
}

/// Everything but the cells' charges is as it was.
pub open spec fn keeps_cells_frame(before: PlanetStateView, after: PlanetStateView) -> bool {
    &&& after.id == before.id
    &&& after.cells.len() == before.cells.len()
    &&& after.has_rocket == before.has_rocket
    &&& after.can_have_rocket == before.can_have_rocket
}

/// The number of charged cells.
pub open spec fn count_charged(cells: Seq<bool>) -> nat
    decreases cells.len(),
{
    if cells.len() == 0 {
        0
    } else {
        count_charged(cells.drop_last()) + if cells.last() { 1nat } else { 0nat }
    }
}

/// Why [`PlanetState::build_rocket`] refuses, in the order it checks.
pub open spec fn build_rocket_error(s: PlanetStateView, i: int) -> Seq<char> {
    if !s.can_have_rocket {
        "This planet type can't have rockets."@
    } else if s.has_rocket {
        "This planet already has a rocket."@
    } else {
        "EnergyCell not charged!"@
    }
}

/// A lightweight copy of a planet's state, for introspection.
#[derive(Debug, Clone)]
pub struct DummyPlanetState {
    pub energy_cells: Vec<bool>,
    pub charged_cells_count: usize,
    pub has_rocket: bool,
}

/// The planet's cells, its rocket and the rocket permission of its type.
pub struct PlanetState {
    id: u32,
    energy_cells: Vec<EnergyCell>,
    rocket: Option<Rocket>,
    can_have_rocket: bool,
}

impl View for PlanetState {
    type V = PlanetStateView;

    closed spec fn view(&self) -> PlanetStateView {
        PlanetStateView {
            id: self.id,
            cells: self.energy_cells@.map_values(|c: EnergyCell| c@),
            has_rocket: self.rocket is Some,
            can_have_rocket: self.can_have_rocket,
        }
    }
}

impl PlanetState {
    /// A state with `n` empty cells and no rocket.
    pub fn new(id: u32, n: usize, can_have_rocket: bool) -> (s: PlanetState)
        ensures
            s@.id == id,
            s@.cells == Seq::new(n as nat, |i: int| false),
            !s@.has_rocket,
            s@.can_have_rocket == can_have_rocket,
    {
        let mut cells: Vec<EnergyCell> = Vec::new();
        let mut i: usize = 0;
        while i < n
            invariant
                i <= n,
                cells@.len() == i,
                forall|j: int| 0 <= j < i ==> !(#[trigger] cells@[j])@,
            decreases n - i,
        {
            cells.push(EnergyCell::new());
            i = i + 1;
        }
        let s = PlanetState { id, energy_cells: cells, rocket: None, can_have_rocket };
        assert(s@.cells =~= Seq::new(n as nat, |i: int| false));
        s
    }

    pub fn id(&self) -> (r: u32)
        ensures
            r == self@.id,
    {
        self.id
    }

    pub fn cell(&self, i: usize) -> (c: &EnergyCell)
        requires
            i < self@.cells.len(),
        ensures
            c@ == self@.cells[i as int],
    {
        &self.energy_cells[i]
    }

    pub fn cell_mut(&mut self, i: usize) -> (c: &mut EnergyCell)
        requires
            i < old(self)@.cells.len(),
        ensures
            crate::game::planet_core::keeps_shape(old(self)@, final(self)@),
            c@ == old(self)@.cells[i as int],
            final(self)@.cells =~= old(self)@.cells.update(i as int, final(c)@),
            final(self)@.id == old(self)@.id,
            final(self)@.has_rocket == old(self)@.has_rocket,
            final(self)@.can_have_rocket == old(self)@.can_have_rocket,
    {
        &mut self.energy_cells[i]
    }

    pub fn cells_count(&self) -> (n: usize)
        ensures
            n == self@.cells.len(),
    {
        self.energy_cells.len()
    }

    /// The cells, in order, for reading.
    pub fn cells_iter(&self) -> (it: std::slice::Iter<'_, EnergyCell>)
        ensures
            it.remaining().map_values(|c: &EnergyCell| c@) =~= self@.cells,
    {
        let it = self.energy_cells.iter();
        proof {
            assert(it.remaining() == self.energy_cells@.map_values(|c: EnergyCell| &c));
        }
        it
    }

    /// The cells, in order, for charging or emptying in place.
    pub fn cells_iter_mut(&mut self) -> (cells: &mut [EnergyCell])
        ensures
            cells@.map_values(|c: EnergyCell| c@) =~= old(self)@.cells,
            final(self)@.cells =~= final(cells)@.map_values(|c: EnergyCell| c@),
            final(self)@.id == old(self)@.id,
            final(self)@.has_rocket == old(self)@.has_rocket,
            final(self)@.can_have_rocket == old(self)@.can_have_rocket,
    {
        self.energy_cells.as_mut_slice()
    }

    /// The first empty cell, for charging in place, and its index.
    pub fn empty_cell(&mut self) -> (r: Option<(&mut EnergyCell, usize)>)
        ensures
            crate::game::planet_core::keeps_shape(old(self)@, final(self)@),
            r is None <==> !has_with(old(self)@.cells, false),
            r is None ==> final(self)@.cells =~= old(self)@.cells,
            r matches Some(p) ==> is_first_with(old(self)@.cells, false, p.1 as int) && !p.0@
                && final(self)@.cells =~= old(self)@.cells.update(p.1 as int, final(p.0)@),
            final(self)@.id == old(self)@.id,
            final(self)@.has_rocket == old(self)@.has_rocket,
            final(self)@.can_have_rocket == old(self)@.can_have_rocket,
    {
        self.first_cell_with(false)
    }

    /// The first charged cell, for using its charge in place, and its index.
    pub fn full_cell(&mut self) -> (r: Option<(&mut EnergyCell, usize)>)
        ensures
            crate::game::planet_core::keeps_shape(old(self)@, final(self)@),
            r is None <==> !has_with(old(self)@.cells, true),
            r is None ==> final(self)@.cells =~= old(self)@.cells,
            r matches Some(p) ==> is_first_with(old(self)@.cells, true, p.1 as int) && p.0@
                && final(self)@.cells =~= old(self)@.cells.update(p.1 as int, final(p.0)@),
            final(self)@.id == old(self)@.id,
            final(self)@.has_rocket == old(self)@.has_rocket,
            final(self)@.can_have_rocket == old(self)@.can_have_rocket,
    {
        self.first_cell_with(true)
    }

    fn first_cell_with(&mut self, charged: bool) -> (r: Option<(&mut EnergyCell, usize)>)
        ensures
            r is None <==> !has_with(old(self)@.cells, charged),
            r is None ==> final(self)@.cells =~= old(self)@.cells,
            r matches Some(p) ==> is_first_with(old(self)@.cells, charged, p.1 as int) && p.0@ == charged
                && final(self)@.cells =~= old(self)@.cells.update(p.1 as int, final(p.0)@),
            final(self)@.id == old(self)@.id,
            final(self)@.has_rocket == old(self)@.has_rocket,
            final(self)@.can_have_rocket == old(self)@.can_have_rocket,
    {
        let mut i: usize = 0;
        while i < self.energy_cells.len()
            invariant
                i <= self.energy_cells@.len(),
                *self == *old(self),
                forall|j: int| 0 <= j < i ==> old(self)@.cells[j] != charged,
            decreases self.energy_cells@.len() - i,
        {
            if self.energy_cells[i].is_charged() == charged {
                assert(old(self)@.cells[i as int] == charged);
                return Some((&mut self.energy_cells[i], i));
            }
            i = i + 1;
        }
        assert(!has_with(old(self)@.cells, charged));
        None
    }

    /// Charges the first empty cell with the sunray. Where every cell is
    /// charged the sunray is handed back and nothing changes.
    pub fn charge_cell(&mut self, sunray: Sunray) -> (r: Option<Sunray>)
        ensures
            crate::game::planet_core::keeps_shape(old(self)@, final(self)@),
            r is Some <==> !has_with(old(self)@.cells, false),
            r is Some ==> final(self)@ == old(self)@,
            r is None ==> exists|i: int| is_first_with(old(self)@.cells, false, i)
                && final(self)@.cells == old(self)@.cells.update(i, true),
            final(self)@.id == old(self)@.id,
            final(self)@.has_rocket == old(self)@.has_rocket,
            final(self)@.can_have_rocket == old(self)@.can_have_rocket,
    {
        match self.empty_cell() {
            None => {
                assert(self@.cells =~= old(self)@.cells);
                Some(sunray)
            },
            Some((cell, _i)) => {
                cell.charge(sunray);
                None
            },
        }
    }

    pub fn can_have_rocket(&self) -> (b: bool)
        ensures
            b == self@.can_have_rocket,
    {
        self.can_have_rocket
    }

    pub fn has_rocket(&self) -> (b: bool)
        ensures
            b == self@.has_rocket,
    {
        self.rocket.is_some()
    }

    /// Hands out the stored rocket, if any; the planet has none afterwards.
    pub fn take_rocket(&mut self) -> (r: Option<Rocket>)
        ensures
            crate::game::planet_core::keeps_shape(old(self)@, final(self)@),
            r is Some <==> old(self)@.has_rocket,
            !final(self)@.has_rocket,
            final(self)@.cells == old(self)@.cells,
            final(self)@.id == old(self)@.id,
            final(self)@.can_have_rocket == old(self)@.can_have_rocket,
    {
        self.rocket.take()
    }

    /// Builds a rocket with the charge of cell `i` and stores it. Refused,
    /// with nothing changed, when the planet type allows no rocket, when a
    /// rocket is already stored, or when cell `i` is empty.
    pub fn build_rocket(&mut self, i: usize) -> (r: Result<(), String>)
        requires
            i < old(self)@.cells.len(),
        ensures
            crate::game::planet_core::keeps_shape(old(self)@, final(self)@),
            r is Ok <==> (old(self)@.can_have_rocket && !old(self)@.has_rocket && old(self)@.cells[i as int]),
            r is Ok ==> final(self)@.has_rocket && final(self)@.cells == old(self)@.cells.update(i as int, false),
            r matches Err(e) ==> final(self)@ == old(self)@ && e@ == build_rocket_error(old(self)@, i as int),
            final(self)@.id == old(self)@.id,
            final(self)@.can_have_rocket == old(self)@.can_have_rocket,
    {
        if !self.can_have_rocket {
            Err(String::from_str("This planet type can't have rockets."))
        } else if self.has_rocket() {
            Err(String::from_str("This planet already has a rocket."))
        } else {
            let energy_cell = self.cell_mut(i);
            match Rocket::new(energy_cell) {
                Ok(rocket) => {
                    self.rocket = Some(rocket);
                    Ok(())
                },
                Err(e) => {
                    assert(self@.cells =~= old(self)@.cells);
                    Err(e)
                },
            }
        }
    }

    /// A copy of the observable state: each cell's charge, the number of
    /// charged cells, and whether a rocket is stored.
    pub fn to_dummy(&self) -> (d: DummyPlanetState)
        ensures
            d.energy_cells@ == self@.cells,
            d.charged_cells_count == count_charged(self@.cells),
            d.has_rocket == self@.has_rocket,
    {
        let mut cells: Vec<bool> = Vec::new();
        let mut count: usize = 0;
        let mut i: usize = 0;
        while i < self.energy_cells.len()
            invariant
                i <= self.energy_cells@.len(),
                cells@ == self@.cells.take(i as int),
                count == count_charged(self@.cells.take(i as int)),
                count <= i,
            decreases self.energy_cells@.len() - i,
        {
            let c = self.energy_cells[i].is_charged();
            proof {
                assert(self@.cells.take(i as int + 1).drop_last() =~= self@.cells.take(i as int));
            }
            cells.push(c);
            if c {
                count = count + 1;
            }
            i = i + 1;
        }
        assert(self@.cells.take(i as int) =~= self@.cells);
        DummyPlanetState { energy_cells: cells, charged_cells_count: count, has_rocket: self.has_rocket() }
    }
}

} // verus!

use vstd::prelude::*;

use crate::game::energy_cell::EnergyCell;
use crate::game::planet::{PlanetState, PlanetStateView, keeps_cells_frame};
use crate::game::sunray::Sunray;
use crate::planet_ai::errors::SkycartelError;

verus! {

/// A type A planet has five cells.
pub const TOTAL_CELLS: usize = 5;

/// Cells `0..RESOURCE_CELLS` serve generation, the rest defense.
pub const RESOURCE_CELLS: usize = 3;

/// The cells that serve generation.
pub fn resource_range() -> (r: std::ops::Range<usize>)
    ensures
        r.start == 0,
        r.end == RESOURCE_CELLS,
{
    0..RESOURCE_CELLS
}

/// The cells that serve defense.
pub fn defense_range() -> (r: std::ops::Range<usize>)
    ensures
        r.start == RESOURCE_CELLS,
        r.end == TOTAL_CELLS,
{
    RESOURCE_CELLS..TOTAL_CELLS
}

/// `i` is the first index in `lo..hi` whose cell has charge `charged`.
pub open spec fn is_first_in(cells: Seq<bool>, lo: int, hi: int, charged: bool, i: int) -> bool {
    &&& lo <= i < hi
    &&& i < cells.len()
    &&& cells[i] == charged
    &&& forall|j: int| lo <= j < i ==> cells[j] != charged
}

/// No cell in `lo..hi` (below the number of cells) has charge `charged`.
pub open spec fn none_in(cells: Seq<bool>, lo: int, hi: int, charged: bool) -> bool {
    forall|j: int| lo <= j < hi && j < cells.len() ==> cells[j] != charged
}

/// The index of the first cell in `lo..hi` whose charge is `charged`,
/// looking no further than the last cell.
pub fn first_with_in(state: &PlanetState, lo: usize, hi: usize, charged: bool) -> (r: Option<usize>)
    ensures
        r is None <==> none_in(state@.cells, lo as int, hi as int, charged),
        r matches Some(i) ==> is_first_in(state@.cells, lo as int, hi as int, charged, i as int),
{
    let mut i: usize = lo;
    let n = state.cells_count();
    while i < hi && i < n
        invariant
            lo <= i,
            n == state@.cells.len(),
            forall|j: int| lo <= j < i && j < state@.cells.len() ==> state@.cells[j] != charged,
        decreases hi - i,
    {
        if state.cell(i).is_charged() == charged {
            return Some(i);
        }
        i = i + 1;
    }
    None
}

/// The index of the first empty cell in `range`, looking no further than
/// the last cell.
pub fn first_discharged_index(state: &PlanetState, range: std::ops::Range<usize>) -> (r: Option<usize>)
    ensures
        r is None <==> none_in(state@.cells, range.start as int, range.end as int, false),
        r matches Some(i) ==> is_first_in(state@.cells, range.start as int, range.end as int, false, i as int),
{
    first_with_in(state, range.start, range.end, false)
}

/// The number of charged cells in `lo..hi`.
pub open spec fn count_in(cells: Seq<bool>, lo: int, hi: int) -> nat
    decreases hi - lo,
{
    if hi <= lo {
        0
    } else {
        count_in(cells, lo, hi - 1) + if cells[hi - 1] { 1nat } else { 0nat }
    }
}

/// Splits Skycartel's five cells into generation cells and defense cells.
pub struct EnergyManager {
    total_cells: usize,
    resource_cells: usize,
}

impl EnergyManager {
    pub closed spec fn spec_total(&self) -> usize {
        self.total_cells
    }

    pub closed spec fn spec_resource_cells(&self) -> usize {
        self.resource_cells
    }

    /// A manager for a planet with `cell_count` cells, which must be five.
    pub fn new(cell_count: usize) -> (r: Result<EnergyManager, SkycartelError>)
        ensures
            r is Ok <==> cell_count == TOTAL_CELLS,
            r matches Ok(m) ==> m.spec_total() == TOTAL_CELLS && m.spec_resource_cells() == RESOURCE_CELLS,
            r matches Err(e) ==> e matches SkycartelError::Energy(s) && s@ == "Type A requires exactly 5 energy cells, got "@ + crate::text::decimal(cell_count as nat),
    {
        if cell_count != TOTAL_CELLS {
            let mut s = String::from_str("Type A requires exactly 5 energy cells, got ");
            crate::text::push_decimal(&mut s, cell_count as u64);
            return Err(SkycartelError::Energy(s));
        }
        Ok(EnergyManager { total_cells: cell_count, resource_cells: RESOURCE_CELLS })
    }

    pub fn total_cells(&self) -> (n: usize)
        ensures
            n == self.spec_total(),
    {
        self.total_cells
    }

    /// Charges the first empty generation cell, else the first empty
    /// defense cell; with neither, the sunray is lost and the call fails.
    pub fn charge_with_sunray(&self, state: &mut PlanetState, sunray: Sunray) -> (r: Result<(), SkycartelError>)
        ensures
            keeps_cells_frame(old(state)@, final(state)@),
            r is Err <==> none_in(old(state)@.cells, 0, TOTAL_CELLS as int, false),
            r is Err ==> final(state)@.cells == old(state)@.cells,
            r matches Err(e) ==> e matches SkycartelError::Energy(s) && s@ == "No discharged cells available to charge"@,
            r is Ok ==> exists|i: int| (is_first_in(old(state)@.cells, 0, RESOURCE_CELLS as int, false, i)
                || (none_in(old(state)@.cells, 0, RESOURCE_CELLS as int, false)
                    && is_first_in(old(state)@.cells, RESOURCE_CELLS as int, TOTAL_CELLS as int, false, i)))
                && final(state)@.cells == old(state)@.cells.update(i, true),
    {
        if let Some(i) = first_discharged_index(state, resource_range()) {
            state.cell_mut(i).charge(sunray);
            return Ok(());
        }
        if let Some(i) = first_discharged_index(state, defense_range()) {
            state.cell_mut(i).charge(sunray);
            return Ok(());
        }
        Err(SkycartelError::Energy(String::from_str("No discharged cells available to charge")))
    }

    /// The number of charged generation cells.
    pub fn charged_resource_cells(&self, state: &PlanetState) -> (n: usize)
        requires
            self.spec_resource_cells() <= state@.cells.len(),
        ensures
            n == count_in(state@.cells, 0, self.spec_resource_cells() as int),
    {
        self.count_charged_in(state, 0, self.resource_cells)
    }

    /// The number of charged defense cells.
    pub fn charged_defense_cells(&self, state: &PlanetState) -> (n: usize)
        requires
            self.spec_resource_cells() <= self.spec_total() <= state@.cells.len(),
        ensures
            n == count_in(state@.cells, self.spec_resource_cells() as int, self.spec_total() as int),
    {
        self.count_charged_in(state, self.resource_cells, self.total_cells)
    }

    fn count_charged_in(&self, state: &PlanetState, lo: usize, hi: usize) -> (n: usize)
        requires
            lo <= hi <= state@.cells.len(),
        ensures
            n == count_in(state@.cells, lo as int, hi as int),
    {
        let mut n: usize = 0;
        let mut i: usize = lo;
        while i < hi
            invariant
                lo <= i <= hi <= state@.cells.len(),
                n == count_in(state@.cells, lo as int, i as int),
                n <= i - lo,
            decreases hi - i,
        {
            if state.cell(i).is_charged() {
                n = n + 1;
            }
            i = i + 1;
        }
        n
    }
}

/// The refusal when a range holds no charged cell.
pub open spec fn no_charged_cell_message() -> Seq<char> {
    "No charged energy cells available in selected range"@
}

/// What the cells become when an operation runs on cell `i` only: the
/// frame is kept and every other cell keeps its charge.
pub open spec fn only_cell_touched(before: PlanetStateView, after: PlanetStateView, i: int) -> bool {
    &&& keeps_cells_frame(before, after)
    &&& forall|j: int| 0 <= j < before.cells.len() && j != i ==> after.cells[j] == before.cells[j]
}

/// Runs `f` on the first charged cell in `lo..hi` and gives back what it
/// returns; with no charged cell there, fails and changes nothing.
fn with_charged_cell_in<F, T>(state: &mut PlanetState, lo: usize, hi: usize, f: F) -> (r: Result<T, String>)
    where
        F: FnOnce(&mut EnergyCell) -> Result<T, String>,
    requires
        hi <= old(state)@.cells.len(),
        forall|c: &mut EnergyCell| #[trigger] f.requires((c,)),
    ensures
        none_in(old(state)@.cells, lo as int, hi as int, true) ==> (r matches Err(e)
            && e@ == no_charged_cell_message() && final(state)@ == old(state)@),
        forall|i: int| #[trigger] is_first_in(old(state)@.cells, lo as int, hi as int, true, i)
            ==> only_cell_touched(old(state)@, final(state)@, i),
{
    match first_with_in(state, lo, hi, true) {
        Some(i) => {
            let ghost before = state@;
            let cell = state.cell_mut(i);
            let r = f(cell);
            proof {
                assert forall|k: int| #[trigger] is_first_in(before.cells, lo as int, hi as int, true, k)
                    implies k == i as int by {
                    if k < i as int {
                        assert(before.cells[k] == true);
                    } else if k > i as int {
                        assert(before.cells[i as int] == true);
                    }
                }
            }
            r
        },
        None => {
            let e = String::from_str("No charged energy cells available in selected range");
            proof { reveal_strlit("No charged energy cells available in selected range"); }
            Err(e)
        },
    }
}

impl EnergyManager {
    /// Runs `f` on the first charged generation cell and gives back what it
    /// returns; its failure, or the lack of a charged generation cell, is an
    /// energy error.
    pub fn with_resource_cell<F, T>(&self, state: &mut PlanetState, f: F) -> (r: Result<T, SkycartelError>)
        where
            F: FnOnce(&mut EnergyCell) -> Result<T, String>,
        requires
            RESOURCE_CELLS <= old(state)@.cells.len(),
            forall|c: &mut EnergyCell| #[trigger] f.requires((c,)),
        ensures
            r matches Err(e) ==> e is Energy,
            none_in(old(state)@.cells, 0, RESOURCE_CELLS as int, true) ==> (r matches Err(SkycartelError::Energy(m))
                && m@ == no_charged_cell_message() && final(state)@ == old(state)@),
            forall|i: int| #[trigger] is_first_in(old(state)@.cells, 0, RESOURCE_CELLS as int, true, i)
                ==> only_cell_touched(old(state)@, final(state)@, i),
    {
        match with_charged_cell_in(state, 0, RESOURCE_CELLS, f) {
            Ok(t) => Ok(t),
            Err(m) => Err(SkycartelError::Energy(m)),
        }
    }

    /// Runs `f` on the first charged defense cell and gives back what it
    /// returns; its failure, or the lack of a charged defense cell, is an
    /// energy error.
    pub fn with_defense_cell<F, T>(&self, state: &mut PlanetState, f: F) -> (r: Result<T, SkycartelError>)
        where
            F: FnOnce(&mut EnergyCell) -> Result<T, String>,
        requires
            TOTAL_CELLS <= old(state)@.cells.len(),
            forall|c: &mut EnergyCell| #[trigger] f.requires((c,)),
        ensures
            r matches Err(e) ==> e is Energy,
            none_in(old(state)@.cells, RESOURCE_CELLS as int, TOTAL_CELLS as int, true) ==> (r matches Err(
                SkycartelError::Energy(m),
            ) && m@ == no_charged_cell_message() && final(state)@ == old(state)@),
            forall|i: int| #[trigger] is_first_in(old(state)@.cells, RESOURCE_CELLS as int, TOTAL_CELLS as int, true, i)
                ==> only_cell_touched(old(state)@, final(state)@, i),
    {
        match with_charged_cell_in(state, RESOURCE_CELLS, TOTAL_CELLS, f) {
            Ok(t) => Ok(t),
            Err(m) => Err(SkycartelError::Energy(m)),
        }
    }
}

} // verus!

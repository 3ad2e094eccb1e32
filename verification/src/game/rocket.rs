use vstd::prelude::*;

use crate::game::energy_cell::{EnergyCell, not_charged_message};

verus! {

/// A planet's defense against an asteroid; building one takes the charge
/// of one energy cell.
pub struct Rocket {
    _private: (),
}

impl Rocket {
    /// Builds a rocket from a charged cell, which is emptied. With an empty
    /// cell nothing is built and the cell stays empty.
    pub fn new(energy_cell: &mut EnergyCell) -> (r: Result<Rocket, String>)
        ensures
            r is Ok <==> old(energy_cell)@,
            !final(energy_cell)@,
            r matches Err(e) ==> e@ == not_charged_message(),
    {
        match energy_cell.discharge() {
            Ok(()) => Ok(Rocket { _private: () }),
            Err(e) => Err(e),
        }
    }
}

} // verus!

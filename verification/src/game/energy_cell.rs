use vstd::prelude::*;

use crate::game::sunray::Sunray;

verus! {

/// A cell that is either charged or empty.
pub struct EnergyCell {
    charge: bool,
}

impl View for EnergyCell {
    type V = bool;

    /// `true` when the cell holds a charge.
    closed spec fn view(&self) -> bool {
        self.charge
    }
}

/// The message a failed discharge reports.
pub open spec fn not_charged_message() -> Seq<char> {
    "EnergyCell not charged!"@
}

impl EnergyCell {
    /// A new cell is empty.
    pub fn new() -> (c: EnergyCell)
        ensures
            !c@,
    {
        EnergyCell { charge: false }
    }

    /// Consumes the sunray; the cell is charged afterwards (a sunray sent to
    /// a charged cell is wasted).
    pub fn charge(&mut self, _sunray: Sunray)
        ensures
            final(self)@,
    {
        if !self.charge {
            self.charge = true;
        }
    }

    /// Empties a charged cell; an empty cell is left as it is and the call
    /// fails.
    pub fn discharge(&mut self) -> (r: Result<(), String>)
        ensures
            r is Ok <==> old(self)@,
            !final(self)@,
            r matches Err(e) ==> e@ == not_charged_message(),
    {
        if self.charge {
            self.charge = false;
            Ok(())
        } else {
            Err(String::from_str("EnergyCell not charged!"))
        }
    }

    pub fn is_charged(&self) -> (b: bool)
        ensures
            b == self@,
    {
        self.charge
    }
}

impl Default for EnergyCell {
    fn default() -> (c: EnergyCell)
        ensures
            !c@,
    {
        EnergyCell::new()
    }
}

} // verus!

use vstd::prelude::*;

verus! {

/// A unit of solar energy, the only thing that charges an energy cell.
pub struct Sunray {
    _private: (),
}

impl Sunray {
    pub fn new() -> (s: Sunray) {
        Sunray { _private: () }
    }
}

impl Default for Sunray {
    fn default() -> (s: Sunray) {
        Sunray::new()
    }
}

} // verus!

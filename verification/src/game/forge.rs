use vstd::prelude::*;

use crate::game::sunray::Sunray;

verus! {

/// Records whether a forge currently exists: at most one may exist at a
/// time.
pub struct ForgeRegistry {
    created: bool,
}

impl View for ForgeRegistry {
    type V = bool;

    /// `true` while a forge exists.
    closed spec fn view(&self) -> bool {
        self.created
    }
}

impl ForgeRegistry {
    /// A registry with no forge.
    pub fn new() -> (r: ForgeRegistry)
        ensures
            !r@,
    {
        ForgeRegistry { created: false }
    }

    pub fn is_taken(&self) -> (b: bool)
        ensures
            b == self@,
    {
        self.created
    }

    /// Forgets any forge, as if none had been made.
    pub fn reset(&mut self)
        ensures
            !final(self)@,
    {
        self.created = false;
    }
}

/// The message a second forge is refused with.
pub open spec fn second_forge_message() -> Seq<char> {
    "Another Forge has already been created"@
}

/// The only source of sunrays.
pub struct Forge {
    _private: (),
}

impl Forge {
    /// Makes the forge, which succeeds only while no other forge exists.
    pub fn new(registry: &mut ForgeRegistry) -> (r: Result<Forge, String>)
        ensures
            r is Ok <==> !old(registry)@,
            final(registry)@,
            r matches Err(e) ==> e@ == second_forge_message(),
    {
        if !registry.created {
            registry.created = true;
            Ok(Forge { _private: () })
        } else {
            Err(String::from_str("Another Forge has already been created"))
        }
    }

    pub fn generate_sunray(&self) -> (s: Sunray) {
        Sunray::new()
    }

    /// Ends the forge; another one can be made afterwards.
    pub fn release(self, registry: &mut ForgeRegistry)
        ensures
            !final(registry)@,
    {
        registry.created = false;
    }
}

} // verus!

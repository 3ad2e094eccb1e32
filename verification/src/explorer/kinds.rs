use vstd::prelude::*;

use crate::game::resource::{BasicResourceType, ComplexResourceType};

verus! {

/// The slot of a basic resource type in a table of four.
pub open spec fn bidx(t: BasicResourceType) -> int {
    match t {
        BasicResourceType::Oxygen => 0,
        BasicResourceType::Hydrogen => 1,
        BasicResourceType::Carbon => 2,
        BasicResourceType::Silicon => 3,
    }
}

/// The slot of a complex resource type in a table of six.
pub open spec fn cidx(t: ComplexResourceType) -> int {
    match t {
        ComplexResourceType::Water => 0,
        ComplexResourceType::Diamond => 1,
        ComplexResourceType::Life => 2,
        ComplexResourceType::Robot => 3,
        ComplexResourceType::Dolphin => 4,
        ComplexResourceType::AIPartner => 5,
    }
}

pub fn basic_index(t: BasicResourceType) -> (i: usize)
    ensures
        i == bidx(t),
        i < 4,
{
    match t {
        BasicResourceType::Oxygen => 0,
        BasicResourceType::Hydrogen => 1,
        BasicResourceType::Carbon => 2,
        BasicResourceType::Silicon => 3,
    }
}

pub fn complex_index(t: ComplexResourceType) -> (i: usize)
    ensures
        i == cidx(t),
        i < 6,
{
    match t {
        ComplexResourceType::Water => 0,
        ComplexResourceType::Diamond => 1,
        ComplexResourceType::Life => 2,
        ComplexResourceType::Robot => 3,
        ComplexResourceType::Dolphin => 4,
        ComplexResourceType::AIPartner => 5,
    }
}

/// How many of a basic resource the bag holds at most.
pub open spec fn spec_basic_bag_limit(t: BasicResourceType) -> u32 {
    20
}

/// How many of a complex resource the bag holds at most: five dolphins or
/// AI partners, ten of anything else.
pub open spec fn spec_complex_bag_limit(t: ComplexResourceType) -> u32 {
    match t {
        ComplexResourceType::Dolphin | ComplexResourceType::AIPartner => 5,
        _ => 10,
    }
}

pub fn basic_bag_limit(t: BasicResourceType) -> (n: u32)
    ensures
        n == spec_basic_bag_limit(t),
{
    20
}

pub fn complex_bag_limit(t: ComplexResourceType) -> (n: u32)
    ensures
        n == spec_complex_bag_limit(t),
{
    match t {
        ComplexResourceType::Dolphin | ComplexResourceType::AIPartner => 5,
        _ => 10,
    }
}

pub fn contains_basic(v: &Vec<BasicResourceType>, t: BasicResourceType) -> (b: bool)
    ensures
        b == v@.contains(t),
{
    let mut i: usize = 0;
    while i < v.len()
        invariant
            i <= v@.len(),
            forall|j: int| 0 <= j < i ==> v@[j] != t,
        decreases v@.len() - i,
    {
        if v[i] == t {
            return true;
        }
        i = i + 1;
    }
    false
}

pub fn contains_complex(v: &Vec<ComplexResourceType>, t: ComplexResourceType) -> (b: bool)
    ensures
        b == v@.contains(t),
{
    let mut i: usize = 0;
    while i < v.len()
        invariant
            i <= v@.len(),
            forall|j: int| 0 <= j < i ==> v@[j] != t,
        decreases v@.len() - i,
    {
        if v[i] == t {
            return true;
        }
        i = i + 1;
    }
    false
}

} // verus!

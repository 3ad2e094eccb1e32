use vstd::prelude::*;

use crate::game::energy_cell::EnergyCell;

verus! {

/// The basic resources a planet can generate from one energy cell.
#[derive(Clone, Copy, Debug, PartialEq, Eq, Hash, Structural)]
pub enum BasicResourceType {
    Oxygen,
    Hydrogen,
    Carbon,
    Silicon,
}

/// The complex resources a planet can combine from two ingredients.
#[derive(Clone, Copy, Debug, PartialEq, Eq, Hash, Structural)]
pub enum ComplexResourceType {
    Water,
    Diamond,
    Life,
    Robot,
    Dolphin,
    AIPartner,
}

/// One unit of a basic resource.
#[derive(Clone, Copy, Debug, PartialEq, Eq, Structural)]
pub enum BasicResource {
    Oxygen,
    Hydrogen,
    Carbon,
    Silicon,
}

/// One unit of a complex resource.
#[derive(Clone, Copy, Debug, PartialEq, Eq, Structural)]
pub enum ComplexResource {
    Water,
    Diamond,
    Life,
    Robot,
    Dolphin,
    AIPartner,
}

/// Any resource unit.
#[derive(Clone, Copy, Debug, PartialEq, Eq, Structural)]
pub enum GenericResource {
    BasicResources(BasicResource),
    ComplexResources(ComplexResource),
}

/// A request to combine two ingredients into a complex resource; the
/// ingredients of each recipe are fixed (see [`request_ingredients`]).
#[derive(Clone, Copy, Debug, PartialEq, Eq, Structural)]
pub enum ComplexResourceRequest {
    /// hydrogen + oxygen
    Water,
    /// carbon + carbon
    Diamond,
    /// water + carbon
    Life,
    /// silicon + life
    Robot,
    /// water + life
    Dolphin,
    /// robot + diamond
    AIPartner,
}

pub open spec fn basic_of(t: BasicResourceType) -> BasicResource {
    match t {
        BasicResourceType::Oxygen => BasicResource::Oxygen,
        BasicResourceType::Hydrogen => BasicResource::Hydrogen,
        BasicResourceType::Carbon => BasicResource::Carbon,
        BasicResourceType::Silicon => BasicResource::Silicon,
    }
}

pub open spec fn complex_of(t: ComplexResourceType) -> ComplexResource {
    match t {
        ComplexResourceType::Water => ComplexResource::Water,
        ComplexResourceType::Diamond => ComplexResource::Diamond,
        ComplexResourceType::Life => ComplexResource::Life,
        ComplexResourceType::Robot => ComplexResource::Robot,
        ComplexResourceType::Dolphin => ComplexResource::Dolphin,
        ComplexResourceType::AIPartner => ComplexResource::AIPartner,
    }
}

pub open spec fn request_kind(r: ComplexResourceRequest) -> ComplexResourceType {
    match r {
        ComplexResourceRequest::Water => ComplexResourceType::Water,
        ComplexResourceRequest::Diamond => ComplexResourceType::Diamond,
        ComplexResourceRequest::Life => ComplexResourceType::Life,
        ComplexResourceRequest::Robot => ComplexResourceType::Robot,
        ComplexResourceRequest::Dolphin => ComplexResourceType::Dolphin,
        ComplexResourceRequest::AIPartner => ComplexResourceType::AIPartner,
    }
}

/// Different requests ask for different kinds: no two requests make the
/// same complex resource.
pub proof fn lemma_request_kind_one_to_one()
    ensures
        forall|a: ComplexResourceRequest, b: ComplexResourceRequest|
            #[trigger] request_kind(a) == #[trigger] request_kind(b) ==> a == b,
{
}

/// The two ingredients a combination request hands over, in order.
pub open spec fn request_ingredients(r: ComplexResourceRequest) -> (GenericResource, GenericResource) {
    match r {
        ComplexResourceRequest::Water => (
            GenericResource::BasicResources(BasicResource::Hydrogen),
            GenericResource::BasicResources(BasicResource::Oxygen),
        ),
        ComplexResourceRequest::Diamond => (
            GenericResource::BasicResources(BasicResource::Carbon),
            GenericResource::BasicResources(BasicResource::Carbon),
        ),
        ComplexResourceRequest::Life => (
            GenericResource::ComplexResources(ComplexResource::Water),
            GenericResource::BasicResources(BasicResource::Carbon),
        ),
        ComplexResourceRequest::Robot => (
            GenericResource::BasicResources(BasicResource::Silicon),
            GenericResource::ComplexResources(ComplexResource::Life),
        ),
        ComplexResourceRequest::Dolphin => (
            GenericResource::ComplexResources(ComplexResource::Water),
            GenericResource::ComplexResources(ComplexResource::Life),
        ),
        ComplexResourceRequest::AIPartner => (
            GenericResource::ComplexResources(ComplexResource::Robot),
            GenericResource::ComplexResources(ComplexResource::Diamond),
        ),
    }
}

/// The type of a basic resource unit.
pub open spec fn type_of_basic(r: BasicResource) -> BasicResourceType {
    match r {
        BasicResource::Oxygen => BasicResourceType::Oxygen,
        BasicResource::Hydrogen => BasicResourceType::Hydrogen,
        BasicResource::Carbon => BasicResourceType::Carbon,
        BasicResource::Silicon => BasicResourceType::Silicon,
    }
}

/// The type of a complex resource unit.
pub open spec fn type_of_complex(r: ComplexResource) -> ComplexResourceType {
    match r {
        ComplexResource::Water => ComplexResourceType::Water,
        ComplexResource::Diamond => ComplexResourceType::Diamond,
        ComplexResource::Life => ComplexResourceType::Life,
        ComplexResource::Robot => ComplexResourceType::Robot,
        ComplexResource::Dolphin => ComplexResourceType::Dolphin,
        ComplexResource::AIPartner => ComplexResourceType::AIPartner,
    }
}

impl BasicResource {
    pub fn get_type(&self) -> (t: BasicResourceType)
        ensures
            basic_of(t) == *self,
            t == type_of_basic(*self),
    {
        match self {
            BasicResource::Oxygen => BasicResourceType::Oxygen,
            BasicResource::Hydrogen => BasicResourceType::Hydrogen,
            BasicResource::Carbon => BasicResourceType::Carbon,
            BasicResource::Silicon => BasicResourceType::Silicon,
        }
    }
}

impl ComplexResource {
    pub fn get_type(&self) -> (t: ComplexResourceType)
        ensures
            complex_of(t) == *self,
            t == type_of_complex(*self),
    {
        match self {
            ComplexResource::Water => ComplexResourceType::Water,
            ComplexResource::Diamond => ComplexResourceType::Diamond,
            ComplexResource::Life => ComplexResourceType::Life,
            ComplexResource::Robot => ComplexResourceType::Robot,
            ComplexResource::Dolphin => ComplexResourceType::Dolphin,
            ComplexResource::AIPartner => ComplexResourceType::AIPartner,
        }
    }
}

impl ComplexResourceRequest {
    pub fn kind(&self) -> (t: ComplexResourceType)
        ensures
            t == request_kind(*self),
    {
        match self {
            ComplexResourceRequest::Water => ComplexResourceType::Water,
            ComplexResourceRequest::Diamond => ComplexResourceType::Diamond,
            ComplexResourceRequest::Life => ComplexResourceType::Life,
            ComplexResourceRequest::Robot => ComplexResourceType::Robot,
            ComplexResourceRequest::Dolphin => ComplexResourceType::Dolphin,
            ComplexResourceRequest::AIPartner => ComplexResourceType::AIPartner,
        }
    }
}

/// Hands back the two ingredients of a combination request, in order.
pub fn to_generic_pair(msg: ComplexResourceRequest) -> (p: (GenericResource, GenericResource))
    ensures
        p == request_ingredients(msg),
{
    match msg {
        ComplexResourceRequest::Water => (
            GenericResource::BasicResources(BasicResource::Hydrogen),
            GenericResource::BasicResources(BasicResource::Oxygen),
        ),
        ComplexResourceRequest::Diamond => (
            GenericResource::BasicResources(BasicResource::Carbon),
            GenericResource::BasicResources(BasicResource::Carbon),
        ),
        ComplexResourceRequest::Life => (
            GenericResource::ComplexResources(ComplexResource::Water),
            GenericResource::BasicResources(BasicResource::Carbon),
        ),
        ComplexResourceRequest::Robot => (
            GenericResource::BasicResources(BasicResource::Silicon),
            GenericResource::ComplexResources(ComplexResource::Life),
        ),
        ComplexResourceRequest::Dolphin => (
            GenericResource::ComplexResources(ComplexResource::Water),
            GenericResource::ComplexResources(ComplexResource::Life),
        ),
        ComplexResourceRequest::AIPartner => (
            GenericResource::ComplexResources(ComplexResource::Robot),
            GenericResource::ComplexResources(ComplexResource::Diamond),
        ),
    }
}

/// The generation recipes of a planet: the basic resources it can make.
pub struct Generator {
    recipes: Vec<BasicResourceType>,
}

impl View for Generator {
    type V = Seq<BasicResourceType>;

    closed spec fn view(&self) -> Seq<BasicResourceType> {
        self.recipes@
    }
}

/// The combination recipes of a planet: the complex resources it can make.
pub struct Combinator {
    recipes: Vec<ComplexResourceType>,
}

impl View for Combinator {
    type V = Seq<ComplexResourceType>;

    closed spec fn view(&self) -> Seq<ComplexResourceType> {
        self.recipes@
    }
}

/// The message a generation for a missing recipe reports.
pub open spec fn missing_recipe_message() -> Seq<char> {
    "Recipe not available on this planet"@
}

/// The message a generation or combination without a charged cell reports.
pub open spec fn no_charge_message() -> Seq<char> {
    "EnergyCell not charged!"@
}

/// The message adding a recipe twice reports.
pub open spec fn duplicate_recipe_message() -> Seq<char> {
    "Recipe already present"@
}

impl Generator {
    pub fn new() -> (g: Generator)
        ensures
            g@ == Seq::<BasicResourceType>::empty(),
    {
        Generator { recipes: Vec::new() }
    }

    pub fn contains(&self, r: BasicResourceType) -> (b: bool)
        ensures
            b == self@.contains(r),
    {
        let mut i: usize = 0;
        while i < self.recipes.len()
            invariant
                i <= self.recipes@.len(),
                forall|j: int| 0 <= j < i ==> self.recipes@[j] != r,
            decreases self.recipes@.len() - i,
        {
            if self.recipes[i] == r {
                return true;
            }
            i = i + 1;
        }
        false
    }

    /// Adds a recipe; one already present is refused and nothing changes.
    pub fn add(&mut self, r: BasicResourceType) -> (res: Result<(), String>)
        ensures
            res is Ok <==> !old(self)@.contains(r),
            res is Ok ==> final(self)@ == old(self)@.push(r),
            res matches Err(e) ==> final(self)@ == old(self)@ && e@ == duplicate_recipe_message(),
    {
        if self.contains(r) {
            Err(String::from_str("Recipe already present"))
        } else {
            self.recipes.push(r);
            Ok(())
        }
    }

    /// The recipes, in the order they were added.
    pub fn all_available_recipes(&self) -> (v: Vec<BasicResourceType>)
        ensures
            v@ == self@,
    {
        self.recipes.clone()
    }

    /// Makes one unit of `r` with the charge of `cell`. It fails, leaving the
    /// cell as it was, when `r` is not a recipe or the cell is empty.
    pub fn try_make(&self, r: BasicResourceType, cell: &mut EnergyCell) -> (res: Result<
        BasicResource,
        String,
    >)
        ensures
            res is Ok <==> (self@.contains(r) && old(cell)@),
            res matches Ok(b) ==> b == basic_of(r) && !final(cell)@,
            res is Err ==> final(cell)@ == old(cell)@,
            res matches Err(e) ==> (if !self@.contains(r) {
                e@ == missing_recipe_message()
            } else {
                e@ == no_charge_message()
            }),
    {
        if !self.contains(r) {
            return Err(String::from_str("Recipe not available on this planet"));
        }
        if !cell.is_charged() {
            return Err(String::from_str("EnergyCell not charged!"));
        }
        let _ = cell.discharge();
        match r {
            BasicResourceType::Oxygen => Ok(BasicResource::Oxygen),
            BasicResourceType::Hydrogen => Ok(BasicResource::Hydrogen),
            BasicResourceType::Carbon => Ok(BasicResource::Carbon),
            BasicResourceType::Silicon => Ok(BasicResource::Silicon),
        }
    }
}

impl Combinator {
    pub fn new() -> (c: Combinator)
        ensures
            c@ == Seq::<ComplexResourceType>::empty(),
    {
        Combinator { recipes: Vec::new() }
    }

    pub fn contains(&self, r: ComplexResourceType) -> (b: bool)
        ensures
            b == self@.contains(r),
    {
        let mut i: usize = 0;
        while i < self.recipes.len()
            invariant
                i <= self.recipes@.len(),
                forall|j: int| 0 <= j < i ==> self.recipes@[j] != r,
            decreases self.recipes@.len() - i,
        {
            if self.recipes[i] == r {
                return true;
            }
            i = i + 1;
        }
        false
    }

    /// Adds a recipe; one already present is refused and nothing changes.
    pub fn add(&mut self, r: ComplexResourceType) -> (res: Result<(), String>)
        ensures
            res is Ok <==> !old(self)@.contains(r),
            res is Ok ==> final(self)@ == old(self)@.push(r),
            res matches Err(e) ==> final(self)@ == old(self)@ && e@ == duplicate_recipe_message(),
    {
        if self.contains(r) {
            Err(String::from_str("Recipe already present"))
        } else {
            self.recipes.push(r);
            Ok(())
        }
    }

    /// The recipes, in the order they were added.
    pub fn all_available_recipes(&self) -> (v: Vec<ComplexResourceType>)
        ensures
            v@ == self@,
    {
        self.recipes.clone()
    }

    /// Combines the ingredients of `req` with the charge of `cell`. On
    /// failure (no such recipe, or an empty cell) the cell is left as it was
    /// and both ingredients are handed back.
    pub fn try_make(&self, req: ComplexResourceRequest, cell: &mut EnergyCell) -> (res: Result<
        ComplexResource,
        (String, GenericResource, GenericResource),
    >)
        ensures
            res is Ok <==> (self@.contains(request_kind(req)) && old(cell)@),
            res matches Ok(c) ==> c == complex_of(request_kind(req)) && !final(cell)@,
            res is Err ==> final(cell)@ == old(cell)@,
            res matches Err(e) ==> (e.1, e.2) == request_ingredients(req) && (if !self@.contains(
                request_kind(req),
            ) {
                e.0@ == missing_recipe_message()
            } else {
                e.0@ == no_charge_message()
            }),
    {
        let kind = req.kind();
        let (a, b) = to_generic_pair(req);
        if !self.contains(kind) {
            return Err((String::from_str("Recipe not available on this planet"), a, b));
        }
        if !cell.is_charged() {
            return Err((String::from_str("EnergyCell not charged!"), a, b));
        }
        let _ = cell.discharge();
        match kind {
            ComplexResourceType::Water => Ok(ComplexResource::Water),
            ComplexResourceType::Diamond => Ok(ComplexResource::Diamond),
            ComplexResourceType::Life => Ok(ComplexResource::Life),
            ComplexResourceType::Robot => Ok(ComplexResource::Robot),
            ComplexResourceType::Dolphin => Ok(ComplexResource::Dolphin),
            ComplexResourceType::AIPartner => Ok(ComplexResource::AIPartner),
        }
    }
}

} // verus!

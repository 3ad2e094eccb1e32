use vstd::prelude::*;

use crate::explorer::kinds::{
    basic_index, bidx, cidx, complex_index, spec_basic_bag_limit, spec_complex_bag_limit,
    basic_bag_limit, complex_bag_limit,
};
use crate::game::resource::{type_of_basic, type_of_complex,
    BasicResource, BasicResourceType, ComplexResource, ComplexResourceRequest, ComplexResourceType, GenericResource, basic_of,
    complex_of,
};

verus! {

/// What a bag reports: for each type (in slot order, see `bidx` and
/// `cidx`), the count, or `None` for a type never put in the bag.
pub struct BagSummary {
    pub basic_resources: Vec<Option<u32>>,
    pub complex_resources: Vec<Option<u32>>,
}

/// The contents of a bag: the reported count per type (`None` for a type
/// never put in), and the units actually held per type.
#[verifier::ext_equal]
pub struct BagView {
    pub basic: Seq<Option<u32>>,
    pub complex: Seq<Option<u32>>,
    pub basic_held: Seq<u32>,
    pub complex_held: Seq<u32>,
}

pub open spec fn count_of(c: Option<u32>) -> u32 {
    match c {
        Some(n) => n,
        None => 0,
    }
}

impl BagView {
    pub open spec fn basic_count(self, t: BasicResourceType) -> u32 {
        count_of(self.basic[bidx(t)])
    }

    pub open spec fn complex_count(self, t: ComplexResourceType) -> u32 {
        count_of(self.complex[cidx(t)])
    }

    /// The bag after one unit of `t` is put in.
    pub open spec fn put_basic(self, t: BasicResourceType) -> BagView {
        BagView {
            basic: self.basic.update(bidx(t), Some((self.basic_count(t) + 1) as u32)),
            basic_held: self.basic_held.update(bidx(t), (self.basic_held[bidx(t)] + 1) as u32),
            ..self
        }
    }

    /// The bag after one unit of `t` is put in.
    pub open spec fn put_complex(self, t: ComplexResourceType) -> BagView {
        BagView {
            complex: self.complex.update(cidx(t), Some((self.complex_count(t) + 1) as u32)),
            complex_held: self.complex_held.update(cidx(t), (self.complex_held[cidx(t)] + 1) as u32),
            ..self
        }
    }

    /// The bag after one held unit of `t` is taken out.
    pub open spec fn drop_basic(self, t: BasicResourceType) -> BagView {
        BagView {
            basic: self.basic.update(
                bidx(t),
                match self.basic[bidx(t)] {
                    Some(n) => Some((n - 1) as u32),
                    None => None,
                },
            ),
            basic_held: self.basic_held.update(bidx(t), (self.basic_held[bidx(t)] - 1) as u32),
            ..self
        }
    }

    /// The bag after one held unit of `t` is taken out.
    pub open spec fn drop_complex(self, t: ComplexResourceType) -> BagView {
        BagView {
            complex: self.complex.update(
                cidx(t),
                match self.complex[cidx(t)] {
                    Some(n) => Some((n - 1) as u32),
                    None => None,
                },
            ),
            complex_held: self.complex_held.update(cidx(t), (self.complex_held[cidx(t)] - 1) as u32),
            ..self
        }
    }

    /// The counts with absent types as zero.
    pub open spec fn basic_counts(self) -> Seq<u32> {
        self.basic.map_values(|c: Option<u32>| count_of(c))
    }

    pub open spec fn complex_counts(self) -> Seq<u32> {
        self.complex.map_values(|c: Option<u32>| count_of(c))
    }
}

/// An empty bag.
pub open spec fn empty_bag() -> BagView {
    BagView {
        basic: Seq::new(4, |i: int| None),
        complex: Seq::new(6, |i: int| None),
        basic_held: Seq::new(4, |i: int| 0u32),
        complex_held: Seq::new(6, |i: int| 0u32),
    }
}

/// An explorer's bag of resources.
pub struct Bag {
    basic: Vec<Option<u32>>,
    complex: Vec<Option<u32>>,
    basic_held: Vec<u32>,
    complex_held: Vec<u32>,
}

impl View for Bag {
    type V = BagView;

    closed spec fn view(&self) -> BagView {
        BagView {
            basic: self.basic@,
            complex: self.complex@,
            basic_held: self.basic_held@,
            complex_held: self.complex_held@,
        }
    }
}

/// The shape of a bag, and no more units held of a type than it counts.
pub open spec fn bag_wf(v: BagView) -> bool {
    &&& v.basic.len() == 4
    &&& v.complex.len() == 6
    &&& v.basic_held.len() == 4
    &&& v.complex_held.len() == 6
    &&& forall|i: int| 0 <= i < 4 ==> v.basic_held[i] <= count_of(#[trigger] v.basic[i])
    &&& forall|i: int| 0 <= i < 6 ==> v.complex_held[i] <= count_of(#[trigger] v.complex[i])
}

impl Bag {

    /// An empty bag.
    pub fn new() -> (b: Bag)
        ensures
            b@ == empty_bag(),
            bag_wf(b@),
    {
        let mut basic = Vec::new();
        let mut basic_held = Vec::new();
        let mut i: usize = 0;
        while i < 4
            invariant
                i <= 4,
                basic@ == Seq::new(i as nat, |j: int| None::<u32>),
                basic_held@ == Seq::new(i as nat, |j: int| 0u32),
            decreases 4 - i,
        {
            basic.push(None);
            basic_held.push(0);
            i = i + 1;
            assert(basic@ =~= Seq::new(i as nat, |j: int| None::<u32>));
            assert(basic_held@ =~= Seq::new(i as nat, |j: int| 0u32));
        }
        let mut complex = Vec::new();
        let mut complex_held = Vec::new();
        let mut k: usize = 0;
        while k < 6
            invariant
                k <= 6,
                complex@ == Seq::new(k as nat, |j: int| None::<u32>),
                complex_held@ == Seq::new(k as nat, |j: int| 0u32),
            decreases 6 - k,
        {
            complex.push(None);
            complex_held.push(0);
            k = k + 1;
            assert(complex@ =~= Seq::new(k as nat, |j: int| None::<u32>));
            assert(complex_held@ =~= Seq::new(k as nat, |j: int| 0u32));
        }
        Bag { basic, complex, basic_held, complex_held }
    }

    /// Empties the bag.
    pub fn reset(&mut self)
        ensures
            final(self)@ == empty_bag(),
            bag_wf(final(self)@),
    {
        *self = Bag::new();
    }

    /// The count of `t` (zero for a type never put in).
    pub fn basic_count(&self, t: BasicResourceType) -> (n: u32)
        requires
            bag_wf(self@),
        ensures
            n == self@.basic_count(t),
    {
        match self.basic[basic_index(t)] {
            Some(n) => n,
            None => 0,
        }
    }

    /// The count of `t` (zero for a type never put in).
    pub fn complex_count(&self, t: ComplexResourceType) -> (n: u32)
        requires
            bag_wf(self@),
        ensures
            n == self@.complex_count(t),
    {
        match self.complex[complex_index(t)] {
            Some(n) => n,
            None => 0,
        }
    }

    /// Puts one unit in.
    pub fn insert_basic_resource_in_bag(&mut self, resource: BasicResource)
        requires
            bag_wf(old(self)@),
            old(self)@.basic_count(type_of_basic(resource)) < u32::MAX,
        ensures
            bag_wf(final(self)@),
            final(self)@ == old(self)@.put_basic(type_of_basic(resource)),
    {
        let t = resource.get_type();
        let i = basic_index(t);
        let n = self.basic_count(t);
        let h = self.basic_held[i];
        self.basic.set(i, Some(n + 1));
        self.basic_held.set(i, h + 1);
        assert(self@ =~= old(self)@.put_basic(t));
    }

    /// Puts one unit in.
    pub fn insert_complex_resource_in_bag(&mut self, resource: ComplexResource)
        requires
            bag_wf(old(self)@),
            old(self)@.complex_count(type_of_complex(resource)) < u32::MAX,
        ensures
            bag_wf(final(self)@),
            final(self)@ == old(self)@.put_complex(type_of_complex(resource)),
    {
        let t = resource.get_type();
        let i = complex_index(t);
        let n = self.complex_count(t);
        let h = self.complex_held[i];
        self.complex.set(i, Some(n + 1));
        self.complex_held.set(i, h + 1);
        assert(self@ =~= old(self)@.put_complex(t));
    }

    /// Takes out one held unit of `t`; with none held, nothing changes.
    pub fn take_basic_resource(&mut self, resource_type: BasicResourceType) -> (r: Option<BasicResource>)
        requires
            bag_wf(old(self)@),
        ensures
            bag_wf(final(self)@),
            r is Some <==> old(self)@.basic_held[bidx(resource_type)] > 0,
            r is None ==> final(self)@ == old(self)@,
            r matches Some(x) ==> x == basic_of(resource_type) && final(self)@ == old(self)@.drop_basic(resource_type),
    {
        let i = basic_index(resource_type);
        let h = self.basic_held[i];
        if h == 0 {
            return None;
        }
        self.basic_held.set(i, h - 1);
        let c = self.basic[i];
        match c {
            Some(n) => {
                self.basic.set(i, Some(n - 1));
            },
            None => {},
        }
        assert(self@ =~= old(self)@.drop_basic(resource_type));
        Some(match resource_type {
            BasicResourceType::Oxygen => BasicResource::Oxygen,
            BasicResourceType::Hydrogen => BasicResource::Hydrogen,
            BasicResourceType::Carbon => BasicResource::Carbon,
            BasicResourceType::Silicon => BasicResource::Silicon,
        })
    }

    /// Takes out one held unit of `t`; with none held, nothing changes.
    pub fn take_complex_resource(&mut self, resource_type: ComplexResourceType) -> (r: Option<ComplexResource>)
        requires
            bag_wf(old(self)@),
        ensures
            bag_wf(final(self)@),
            r is Some <==> old(self)@.complex_held[cidx(resource_type)] > 0,
            r is None ==> final(self)@ == old(self)@,
            r matches Some(x) ==> x == complex_of(resource_type) && final(self)@ == old(self)@.drop_complex(resource_type),
    {
        let i = complex_index(resource_type);
        let h = self.complex_held[i];
        if h == 0 {
            return None;
        }
        self.complex_held.set(i, h - 1);
        let c = self.complex[i];
        match c {
            Some(n) => {
                self.complex.set(i, Some(n - 1));
            },
            None => {},
        }
        assert(self@ =~= old(self)@.drop_complex(resource_type));
        Some(match resource_type {
            ComplexResourceType::Water => ComplexResource::Water,
            ComplexResourceType::Diamond => ComplexResource::Diamond,
            ComplexResourceType::Life => ComplexResource::Life,
            ComplexResourceType::Robot => ComplexResource::Robot,
            ComplexResourceType::Dolphin => ComplexResource::Dolphin,
            ComplexResourceType::AIPartner => ComplexResource::AIPartner,
        })
    }

    /// The reported counts.
    pub fn to_summary(&self) -> (s: BagSummary)
        ensures
            s.basic_resources@ == self@.basic,
            s.complex_resources@ == self@.complex,
    {
        BagSummary { basic_resources: self.basic.clone(), complex_resources: self.complex.clone() }
    }

    /// A bag counting what `summary` reports, holding no units.
    pub fn from_summary(summary: BagSummary) -> (b: Bag)
        requires
            summary.basic_resources@.len() == 4,
            summary.complex_resources@.len() == 6,
        ensures
            bag_wf(b@),
            b@.basic == summary.basic_resources@,
            b@.complex == summary.complex_resources@,
            b@.basic_held == Seq::new(4, |i: int| 0u32),
            b@.complex_held == Seq::new(6, |i: int| 0u32),
    {
        let empty = Bag::new();
        Bag {
            basic: summary.basic_resources,
            complex: summary.complex_resources,
            basic_held: empty.basic_held,
            complex_held: empty.complex_held,
        }
    }

    /// Puts back a unit handed back by a planet.
    pub fn restore_resource(&mut self, resource: GenericResource)
        requires
            bag_wf(old(self)@),
            resource matches GenericResource::BasicResources(r) ==> old(self)@.basic_count(type_of_basic(r)) < u32::MAX,
            resource matches GenericResource::ComplexResources(r) ==> old(self)@.complex_count(type_of_complex(r)) < u32::MAX,
        ensures
            bag_wf(final(self)@),
            resource matches GenericResource::BasicResources(r) ==> final(self)@ == old(self)@.put_basic(type_of_basic(r)),
            resource matches GenericResource::ComplexResources(r) ==> final(self)@ == old(self)@.put_complex(type_of_complex(r)),
    {
        match resource {
            GenericResource::BasicResources(br) => self.insert_basic_resource_in_bag(br),
            GenericResource::ComplexResources(cr) => self.insert_complex_resource_in_bag(cr),
        }
    }

    /// The bag holds its limit of `rt` or more.
    pub fn is_basic_full(&self, rt: BasicResourceType) -> (b: bool)
        requires
            bag_wf(self@),
        ensures
            b == (self@.basic_count(rt) >= spec_basic_bag_limit(rt)),
    {
        self.basic_count(rt) >= basic_bag_limit(rt)
    }

    /// The bag holds its limit of `rt` or more.
    pub fn is_complex_full(&self, rt: ComplexResourceType) -> (b: bool)
        requires
            bag_wf(self@),
        ensures
            b == (self@.complex_count(rt) >= spec_complex_bag_limit(rt)),
    {
        self.complex_count(rt) >= complex_bag_limit(rt)
    }

    /// The basic counts, absent types as zero, in slot order.
    pub fn basic_counts(&self) -> (v: Vec<u32>)
        requires
            bag_wf(self@),
        ensures
            v@ == self@.basic_counts(),
    {
        let mut v = Vec::new();
        let mut i: usize = 0;
        while i < 4
            invariant
                i <= 4,
                self.basic@.len() == 4,
                v@ == self.basic@.take(i as int).map_values(|c: Option<u32>| count_of(c)),
            decreases 4 - i,
        {
            let c = match self.basic[i] {
                Some(n) => n,
                None => 0,
            };
            v.push(c);
            i = i + 1;
            assert(v@ =~= self.basic@.take(i as int).map_values(|c: Option<u32>| count_of(c)));
        }
        assert(self.basic@.take(4) =~= self.basic@);
        v
    }

    /// The complex counts, absent types as zero, in slot order.
    pub fn complex_counts(&self) -> (v: Vec<u32>)
        requires
            bag_wf(self@),
        ensures
            v@ == self@.complex_counts(),
    {
        let mut v = Vec::new();
        let mut i: usize = 0;
        while i < 6
            invariant
                i <= 6,
                self.complex@.len() == 6,
                v@ == self.complex@.take(i as int).map_values(|c: Option<u32>| count_of(c)),
            decreases 6 - i,
        {
            let c = match self.complex[i] {
                Some(n) => n,
                None => 0,
            };
            v.push(c);
            i = i + 1;
            assert(v@ =~= self.complex@.take(i as int).map_values(|c: Option<u32>| count_of(c)));
        }
        assert(self.complex@.take(6) =~= self.complex@);
        v
    }
}

/// A unit of a basic resource put in the bag can be taken out again, and
/// that leaves every count and every holding as it was (a type never put in
/// before then reports zero rather than nothing).
pub proof fn lemma_put_then_take_basic(v: BagView, t: BasicResourceType)
    requires
        bag_wf(v),
        v.basic_count(t) < u32::MAX,
    ensures
        bag_wf(v.put_basic(t)),
        v.put_basic(t).basic_held[bidx(t)] > 0,
        v.put_basic(t).drop_basic(t).basic_counts() == v.basic_counts(),
        v.put_basic(t).drop_basic(t).basic_held == v.basic_held,
        v.put_basic(t).drop_basic(t).complex == v.complex,
        v.put_basic(t).drop_basic(t).complex_held == v.complex_held,
{
    let w = v.put_basic(t).drop_basic(t);
    assert(w.basic_counts() =~= v.basic_counts());
    assert(w.basic_held =~= v.basic_held);
}

/// A unit of a complex resource put in the bag can be taken out again, and
/// that leaves every count and every holding as it was (a type never put in
/// before then reports zero rather than nothing).
pub proof fn lemma_put_then_take_complex(v: BagView, t: ComplexResourceType)
    requires
        bag_wf(v),
        v.complex_count(t) < u32::MAX,
    ensures
        bag_wf(v.put_complex(t)),
        v.put_complex(t).complex_held[cidx(t)] > 0,
        v.put_complex(t).drop_complex(t).complex_counts() == v.complex_counts(),
        v.put_complex(t).drop_complex(t).complex_held == v.complex_held,
        v.put_complex(t).drop_complex(t).basic == v.basic,
        v.put_complex(t).drop_complex(t).basic_held == v.basic_held,
{
    let w = v.put_complex(t).drop_complex(t);
    assert(w.complex_counts() =~= v.complex_counts());
    assert(w.complex_held =~= v.complex_held);
}

/// An ingredient kind: a basic or a complex resource type.
#[derive(Clone, Copy, Debug, PartialEq, Eq, Structural)]
pub enum Ingredient {
    Basic(BasicResourceType),
    Complex(ComplexResourceType),
}

/// The two ingredients of a recipe, in the order they are taken.
pub open spec fn recipe_ingredients(c: ComplexResourceType) -> (Ingredient, Ingredient) {
    match c {
        ComplexResourceType::Water => (Ingredient::Basic(BasicResourceType::Hydrogen), Ingredient::Basic(BasicResourceType::Oxygen)),
        ComplexResourceType::Diamond => (Ingredient::Basic(BasicResourceType::Carbon), Ingredient::Basic(BasicResourceType::Carbon)),
        ComplexResourceType::Life => (Ingredient::Complex(ComplexResourceType::Water), Ingredient::Basic(BasicResourceType::Carbon)),
        ComplexResourceType::Robot => (Ingredient::Basic(BasicResourceType::Silicon), Ingredient::Complex(ComplexResourceType::Life)),
        ComplexResourceType::Dolphin => (Ingredient::Complex(ComplexResourceType::Water), Ingredient::Complex(ComplexResourceType::Life)),
        ComplexResourceType::AIPartner => (Ingredient::Complex(ComplexResourceType::Robot), Ingredient::Complex(ComplexResourceType::Diamond)),
    }
}

/// The request for a recipe.
pub open spec fn request_for(c: ComplexResourceType) -> ComplexResourceRequest {
    match c {
        ComplexResourceType::Water => ComplexResourceRequest::Water,
        ComplexResourceType::Diamond => ComplexResourceRequest::Diamond,
        ComplexResourceType::Life => ComplexResourceRequest::Life,
        ComplexResourceType::Robot => ComplexResourceRequest::Robot,
        ComplexResourceType::Dolphin => ComplexResourceRequest::Dolphin,
        ComplexResourceType::AIPartner => ComplexResourceRequest::AIPartner,
    }
}

/// A request is of the kind it names: the request for `t` makes `t`, and
/// every request is the request for what it makes.
pub proof fn lemma_request_for_kind()
    ensures
        forall|t: ComplexResourceType| #[trigger] crate::game::resource::request_kind(request_for(t)) == t,
        forall|r: ComplexResourceRequest| #[trigger] request_for(crate::game::resource::request_kind(r)) == r,
{
}

impl BagView {
    pub open spec fn held(self, i: Ingredient) -> u32 {
        match i {
            Ingredient::Basic(t) => self.basic_held[bidx(t)],
            Ingredient::Complex(t) => self.complex_held[cidx(t)],
        }
    }

    pub open spec fn drop_ingredient(self, i: Ingredient) -> BagView {
        match i {
            Ingredient::Basic(t) => self.drop_basic(t),
            Ingredient::Complex(t) => self.drop_complex(t),
        }
    }
}

/// What assembling a request for `combo` gives and leaves in the bag. The
/// ingredients are taken one after the other; when the second is missing
/// no request is made, and the first, already taken, stays out of the bag.
pub open spec fn build_spec(v: BagView, combo: ComplexResourceType) -> (Option<ComplexResourceRequest>, BagView) {
    let (a, b) = recipe_ingredients(combo);
    if v.held(a) == 0 {
        (None, v)
    } else {
        let v1 = v.drop_ingredient(a);
        if v1.held(b) == 0 {
            (None, v1)
        } else {
            (Some(request_for(combo)), v1.drop_ingredient(b))
        }
    }
}

impl Bag {
    fn take_ingredient(&mut self, i: Ingredient) -> (ok: bool)
        requires
            bag_wf(old(self)@),
        ensures
            bag_wf(final(self)@),
            ok == (old(self)@.held(i) > 0),
            ok ==> final(self)@ == old(self)@.drop_ingredient(i),
            !ok ==> final(self)@ == old(self)@,
    {
        match i {
            Ingredient::Basic(t) => self.take_basic_resource(t).is_some(),
            Ingredient::Complex(t) => self.take_complex_resource(t).is_some(),
        }
    }
}

/// Takes the two ingredients of `combo` out of the bag and makes the
/// request to combine them (see [`build_spec`]).
pub fn build_request(bag: &mut Bag, combo: ComplexResourceType) -> (r: Option<ComplexResourceRequest>)
    requires
        bag_wf(old(bag)@),
    ensures
        bag_wf(final(bag)@),
        (r, final(bag)@) == build_spec(old(bag)@, combo),
{
    let (a, b) = match combo {
        ComplexResourceType::Water => (Ingredient::Basic(BasicResourceType::Hydrogen), Ingredient::Basic(BasicResourceType::Oxygen)),
        ComplexResourceType::Diamond => (Ingredient::Basic(BasicResourceType::Carbon), Ingredient::Basic(BasicResourceType::Carbon)),
        ComplexResourceType::Life => (Ingredient::Complex(ComplexResourceType::Water), Ingredient::Basic(BasicResourceType::Carbon)),
        ComplexResourceType::Robot => (Ingredient::Basic(BasicResourceType::Silicon), Ingredient::Complex(ComplexResourceType::Life)),
        ComplexResourceType::Dolphin => (Ingredient::Complex(ComplexResourceType::Water), Ingredient::Complex(ComplexResourceType::Life)),
        ComplexResourceType::AIPartner => (Ingredient::Complex(ComplexResourceType::Robot), Ingredient::Complex(ComplexResourceType::Diamond)),
    };
    if !bag.take_ingredient(a) {
        return None;
    }
    if !bag.take_ingredient(b) {
        return None;
    }
    Some(match combo {
        ComplexResourceType::Water => ComplexResourceRequest::Water,
        ComplexResourceType::Diamond => ComplexResourceRequest::Diamond,
        ComplexResourceType::Life => ComplexResourceRequest::Life,
        ComplexResourceType::Robot => ComplexResourceRequest::Robot,
        ComplexResourceType::Dolphin => ComplexResourceRequest::Dolphin,
        ComplexResourceType::AIPartner => ComplexResourceRequest::AIPartner,
    })
}

} // verus!

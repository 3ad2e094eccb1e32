use vstd::prelude::*;

use crate::explorer::bag::{Bag, BagSummary, BagView, bag_wf, build_spec, build_request, count_of};
use crate::explorer::kinds::{bidx, cidx};
use crate::game::messages::{
    ExplorerToOrchestrator, ExplorerToPlanet, OrchestratorToExplorer, PlanetToExplorer, spec_explorer_id,
    spec_explorer_id_of,
};
use crate::game::resource::{
    BasicResourceType, ComplexResourceType, GenericResource, request_ingredients, type_of_basic, type_of_complex,
};

verus! {

/// What a command handler does next: answer the orchestrator at once, or
/// ask the planet first and finish with its answer.
pub enum Step {
    Reply(ExplorerToOrchestrator<BagSummary>),
    AskPlanet(ExplorerToPlanet),
}

/// What serving one message of the orchestrator comes to.
pub enum Service {
    /// Answer the orchestrator with this.
    Answer(ExplorerToOrchestrator<BagSummary>),
    /// Ask the planet this; [`Explorer::finish`] gives the answer to send.
    Ask(ExplorerToPlanet),
    /// No answer: the neighbours were noted.
    Silent,
    /// Answer the orchestrator with this and serve nothing more.
    End(ExplorerToOrchestrator<BagSummary>),
}

impl Step {
    /// The step as a service: a reply is answered, a request is asked.
    pub fn into_service(self) -> (h: Service)
        ensures
            match self {
                Step::Reply(r) => h == Service::Answer(r),
                Step::AskPlanet(m) => h == Service::Ask(m),
            },
    {
        match self {
            Step::Reply(r) => Service::Answer(r),
            Step::AskPlanet(m) => Service::Ask(m),
        }
    }
}

/// Every count in the bag is below `u32::MAX`, so one more unit fits.
pub open spec fn bag_has_room(v: BagView) -> bool {
    &&& forall|i: int| 0 <= i < 4 ==> crate::explorer::bag::count_of(#[trigger] v.basic[i]) < u32::MAX
    &&& forall|i: int| 0 <= i < 6 ==> crate::explorer::bag::count_of(#[trigger] v.complex[i]) < u32::MAX
}

pub open spec fn ai_running_generate_message() -> Seq<char> {
    "Explorer AI is running; manual generation not permitted"@
}

pub open spec fn ai_running_combine_message() -> Seq<char> {
    "Explorer AI is running; manual combination not permitted"@
}

/// The answer of explorer `id` once the planet answered a request for its
/// basic recipes with `answer`: the planet's list, or an empty one.
pub open spec fn resources_reply(id: u32, answer: Option<PlanetToExplorer>, r: ExplorerToOrchestrator<BagSummary>) -> bool {
    r matches ExplorerToOrchestrator::SupportedResourceResult { explorer_id, supported_resources } && explorer_id == id
        && (match answer {
            Some(PlanetToExplorer::SupportedResourceResponse { resource_list }) => supported_resources == resource_list,
            _ => supported_resources@ == Seq::<BasicResourceType>::empty(),
        })
}

/// The answer of explorer `id` once the planet answered a request for its
/// combination recipes with `answer`: the planet's list, or an empty one.
pub open spec fn combinations_reply(id: u32, answer: Option<PlanetToExplorer>, r: ExplorerToOrchestrator<BagSummary>) -> bool {
    r matches ExplorerToOrchestrator::SupportedCombinationResult { explorer_id, combination_list } && explorer_id == id
        && (match answer {
            Some(PlanetToExplorer::SupportedCombinationResponse { combination_list: l }) => combination_list == l,
            _ => combination_list@ == Seq::<ComplexResourceType>::empty(),
        })
}

/// The answer of explorer `id`, and its bag going from `before` to `after`,
/// once the planet answered a generation request with `answer`.
pub open spec fn generate_reply(
    id: u32,
    before: BagView,
    after: BagView,
    answer: Option<PlanetToExplorer>,
    r: ExplorerToOrchestrator<BagSummary>,
) -> bool {
    r matches ExplorerToOrchestrator::GenerateResourceResponse { explorer_id, generated } && explorer_id == id
        && match answer {
            Some(PlanetToExplorer::GenerateResourceResponse { resource: Some(res) }) => generated is Ok
                && after == before.put_basic(type_of_basic(res)),
            Some(PlanetToExplorer::GenerateResourceResponse { resource: None }) => generated matches Err(e)
                && e@ == "Planet failed to generate"@ && after == before,
            _ => generated matches Err(e) && e@ == "No response from Planet"@ && after == before,
        }
}

/// The answer of explorer `id`, and its bag going from `before` to `after`,
/// once the planet answered a combination request with `answer`.
pub open spec fn combine_reply(
    id: u32,
    before: BagView,
    after: BagView,
    answer: Option<PlanetToExplorer>,
    r: ExplorerToOrchestrator<BagSummary>,
) -> bool {
    r matches ExplorerToOrchestrator::CombineResourceResponse { explorer_id, generated } && explorer_id == id
        && match answer {
            Some(PlanetToExplorer::CombineResourceResponse { complex_response: Ok(c) }) => generated is Ok
                && after == before.put_complex(type_of_complex(c)),
            Some(PlanetToExplorer::CombineResourceResponse { complex_response: Err(e) }) => generated matches Err(m)
                && m == e.0 && after == put_generic(put_generic(before, e.1), e.2),
            _ => generated matches Err(m) && m@ == "No response from planet"@ && after == before,
        }
}

/// An explorer's own state: where it is, its neighbours, its bag, and
/// whether its autonomous AI runs.
pub struct Explorer {
    id: u32,
    current_planet_id: u32,
    neighbors: Vec<u32>,
    bag: Bag,
    ai_running: bool,
}

impl Explorer {
    pub closed spec fn spec_id(&self) -> u32 {
        self.id
    }

    pub closed spec fn spec_planet(&self) -> u32 {
        self.current_planet_id
    }

    pub closed spec fn spec_neighbors(&self) -> Seq<u32> {
        self.neighbors@
    }

    pub closed spec fn spec_bag(&self) -> BagView {
        self.bag@
    }

    pub closed spec fn spec_ai_running(&self) -> bool {
        self.ai_running
    }

    pub closed spec fn wf(&self) -> bool {
        bag_wf(self.bag@)
    }

    /// An explorer on planet `current_planet_id` with an empty bag and its
    /// AI stopped.
    pub fn new(id: u32, current_planet_id: u32) -> (e: Explorer)
        ensures
            e.wf(),
            e.spec_id() == id,
            e.spec_planet() == current_planet_id,
            e.spec_neighbors() == Seq::<u32>::empty(),
            e.spec_bag() == crate::explorer::bag::empty_bag(),
            !e.spec_ai_running(),
    {
        Explorer { id, current_planet_id, neighbors: Vec::new(), bag: Bag::new(), ai_running: false }
    }

    pub fn id(&self) -> (id: u32)
        ensures
            id == self.spec_id(),
    {
        self.id
    }

    pub fn current_planet_id(&self) -> (p: u32)
        ensures
            p == self.spec_planet(),
    {
        self.current_planet_id
    }

    pub fn bag(&self) -> (b: &Bag)
        ensures
            b@ == self.spec_bag(),
    {
        &self.bag
    }

    /// The bag, to be changed in place (by the autonomous AI); everything
    /// else stays as it is.
    pub fn bag_mut(&mut self) -> (b: &mut Bag)
        ensures
            b@ == old(self).spec_bag(),
            final(self).spec_bag() == final(b)@,
            final(self).spec_id() == old(self).spec_id(),
            final(self).spec_planet() == old(self).spec_planet(),
            final(self).spec_neighbors() == old(self).spec_neighbors(),
            final(self).spec_ai_running() == old(self).spec_ai_running(),
    {
        &mut self.bag
    }

    pub fn ai_running(&self) -> (b: bool)
        ensures
            b == self.spec_ai_running(),
    {
        self.ai_running
    }

    pub fn handle_neighbors_response(&mut self, neighbors: Vec<u32>)
        ensures
            final(self).spec_neighbors() == neighbors@,
            final(self).spec_bag() == old(self).spec_bag(),
            final(self).spec_planet() == old(self).spec_planet(),
            final(self).spec_id() == old(self).spec_id(),
            final(self).spec_ai_running() == old(self).spec_ai_running(),
            final(self).wf() == old(self).wf(),
    {
        self.neighbors = neighbors;
    }

    pub fn handle_current_planet_request(&self) -> (r: ExplorerToOrchestrator<BagSummary>)
        ensures
            (r == ExplorerToOrchestrator::<BagSummary>::CurrentPlanetResult {
                explorer_id: self.spec_id(),
                planet_id: self.spec_planet(),
            }),
    {
        ExplorerToOrchestrator::CurrentPlanetResult { explorer_id: self.id, planet_id: self.current_planet_id }
    }

    /// The explorer is now on `planet_id` (also when the move was not
    /// approved, in which case the caller keeps the old channel).
    pub fn handle_move_to_planet(&mut self, planet_id: u32) -> (r: ExplorerToOrchestrator<BagSummary>)
        ensures
            final(self).spec_planet() == planet_id,
            (r == ExplorerToOrchestrator::<BagSummary>::MovedToPlanetResult { explorer_id: old(self).spec_id(), planet_id }),
            final(self).spec_bag() == old(self).spec_bag(),
            final(self).spec_neighbors() == old(self).spec_neighbors(),
            final(self).spec_id() == old(self).spec_id(),
            final(self).spec_ai_running() == old(self).spec_ai_running(),
            final(self).wf() == old(self).wf(),
    {
        self.current_planet_id = planet_id;
        ExplorerToOrchestrator::MovedToPlanetResult { explorer_id: self.id, planet_id: self.current_planet_id }
    }

    /// The bag's reported counts.
    pub fn handle_bag_content_request(&self) -> (r: ExplorerToOrchestrator<BagSummary>)
        ensures
            (r matches ExplorerToOrchestrator::BagContentResponse { explorer_id, bag_content } && explorer_id
                == self.spec_id() && bag_content.basic_resources@ == self.spec_bag().basic
                && bag_content.complex_resources@ == self.spec_bag().complex),
    {
        ExplorerToOrchestrator::BagContentResponse { explorer_id: self.id, bag_content: self.bag.to_summary() }
    }

    /// Starts the AI if it is stopped; `true` when it was started now (the
    /// caller then launches it), `false` when it already ran.
    pub fn handle_start_explorer_ai(&mut self) -> (r: (ExplorerToOrchestrator<BagSummary>, bool))
        ensures
            (r.0 == ExplorerToOrchestrator::<BagSummary>::StartExplorerAIResult { explorer_id: old(self).spec_id() }),
            r.1 == !old(self).spec_ai_running(),
            final(self).spec_ai_running(),
            final(self).spec_bag() == old(self).spec_bag(),
            final(self).spec_planet() == old(self).spec_planet(),
            final(self).spec_neighbors() == old(self).spec_neighbors(),
            final(self).spec_id() == old(self).spec_id(),
            final(self).wf() == old(self).wf(),
    {
        let started = !self.ai_running;
        self.ai_running = true;
        (ExplorerToOrchestrator::StartExplorerAIResult { explorer_id: self.id }, started)
    }

    /// Stops the AI.
    pub fn handle_stop_explorer_ai(&mut self) -> (r: ExplorerToOrchestrator<BagSummary>)
        ensures
            (r == ExplorerToOrchestrator::<BagSummary>::StopExplorerAIResult { explorer_id: old(self).spec_id() }),
            !final(self).spec_ai_running(),
            final(self).spec_bag() == old(self).spec_bag(),
            final(self).spec_planet() == old(self).spec_planet(),
            final(self).spec_neighbors() == old(self).spec_neighbors(),
            final(self).spec_id() == old(self).spec_id(),
            final(self).wf() == old(self).wf(),
    {
        self.ai_running = false;
        ExplorerToOrchestrator::StopExplorerAIResult { explorer_id: self.id }
    }

    /// Empties the bag and (re)starts the AI.
    pub fn handle_reset_explorer_ai(&mut self) -> (r: ExplorerToOrchestrator<BagSummary>)
        ensures
            (r == ExplorerToOrchestrator::<BagSummary>::ResetExplorerAIResult { explorer_id: old(self).spec_id() }),
            final(self).spec_ai_running(),
            final(self).wf(),
            final(self).spec_bag() == crate::explorer::bag::empty_bag(),
            final(self).spec_planet() == old(self).spec_planet(),
            final(self).spec_neighbors() == old(self).spec_neighbors(),
            final(self).spec_id() == old(self).spec_id(),
    {
        self.ai_running = false;
        self.bag.reset();
        self.ai_running = true;
        ExplorerToOrchestrator::ResetExplorerAIResult { explorer_id: self.id }
    }

    /// While the AI runs, an empty list; otherwise the planet is asked.
    pub fn begin_supported_resource_request(&self) -> (s: Step)
        ensures
            (self.spec_ai_running() ==> (s matches Step::Reply(ExplorerToOrchestrator::SupportedResourceResult { explorer_id, supported_resources })
                && explorer_id == self.spec_id() && supported_resources@ == Seq::<BasicResourceType>::empty())),
            (!self.spec_ai_running() ==> s == Step::AskPlanet(ExplorerToPlanet::SupportedResourceRequest { explorer_id: self.spec_id() })),
    {
        if self.ai_running {
            Step::Reply(ExplorerToOrchestrator::SupportedResourceResult { explorer_id: self.id, supported_resources: Vec::new() })
        } else {
            Step::AskPlanet(ExplorerToPlanet::SupportedResourceRequest { explorer_id: self.id })
        }
    }

    /// The planet's list, or an empty one when it answered anything else
    /// (`None`: it did not answer).
    pub fn finish_supported_resource_request(&self, answer: Option<PlanetToExplorer>) -> (r: ExplorerToOrchestrator<BagSummary>)
        ensures
            resources_reply(self.spec_id(), answer, r),
    {
        match answer {
            Some(PlanetToExplorer::SupportedResourceResponse { resource_list }) => {
                ExplorerToOrchestrator::SupportedResourceResult { explorer_id: self.id, supported_resources: resource_list }
            },
            _ => ExplorerToOrchestrator::SupportedResourceResult { explorer_id: self.id, supported_resources: Vec::new() },
        }
    }

    /// While the AI runs, an empty list; otherwise the planet is asked.
    pub fn begin_supported_combination_request(&self) -> (s: Step)
        ensures
            (self.spec_ai_running() ==> (s matches Step::Reply(ExplorerToOrchestrator::SupportedCombinationResult { explorer_id, combination_list })
                && explorer_id == self.spec_id() && combination_list@ == Seq::<ComplexResourceType>::empty())),
            (!self.spec_ai_running() ==> s == Step::AskPlanet(ExplorerToPlanet::SupportedCombinationRequest { explorer_id: self.spec_id() })),
    {
        if self.ai_running {
            Step::Reply(ExplorerToOrchestrator::SupportedCombinationResult { explorer_id: self.id, combination_list: Vec::new() })
        } else {
            Step::AskPlanet(ExplorerToPlanet::SupportedCombinationRequest { explorer_id: self.id })
        }
    }

    /// The planet's list, or an empty one when it answered anything else.
    pub fn finish_supported_combination_request(&self, answer: Option<PlanetToExplorer>) -> (r: ExplorerToOrchestrator<BagSummary>)
        ensures
            combinations_reply(self.spec_id(), answer, r),
    {
        match answer {
            Some(PlanetToExplorer::SupportedCombinationResponse { combination_list }) => {
                ExplorerToOrchestrator::SupportedCombinationResult { explorer_id: self.id, combination_list }
            },
            _ => ExplorerToOrchestrator::SupportedCombinationResult { explorer_id: self.id, combination_list: Vec::new() },
        }
    }

    /// Refused while the AI runs; otherwise the planet is asked to generate.
    pub fn begin_generate_resource_request(&self, to_generate: BasicResourceType) -> (s: Step)
        ensures
            (self.spec_ai_running() ==> (s matches Step::Reply(ExplorerToOrchestrator::GenerateResourceResponse { explorer_id, generated: Err(e) })
                && explorer_id == self.spec_id() && e@ == ai_running_generate_message())),
            (!self.spec_ai_running() ==> s == Step::AskPlanet(ExplorerToPlanet::GenerateResourceRequest {
                explorer_id: self.spec_id(),
                resource: to_generate,
            })),
    {
        if self.ai_running {
            Step::Reply(ExplorerToOrchestrator::GenerateResourceResponse {
                explorer_id: self.id,
                generated: Err(String::from_str("Explorer AI is running; manual generation not permitted")),
            })
        } else {
            Step::AskPlanet(ExplorerToPlanet::GenerateResourceRequest { explorer_id: self.id, resource: to_generate })
        }
    }

    /// A generated unit goes into the bag; anything else is reported as a
    /// failure.
    pub fn finish_generate_resource_request(&mut self, answer: Option<PlanetToExplorer>) -> (r: ExplorerToOrchestrator<BagSummary>)
        requires
            old(self).wf(),
            bag_has_room(old(self).spec_bag()),
        ensures
            final(self).wf(),
            final(self).spec_planet() == old(self).spec_planet(),
            final(self).spec_id() == old(self).spec_id(),
            final(self).spec_ai_running() == old(self).spec_ai_running(),
            final(self).spec_neighbors() == old(self).spec_neighbors(),
            generate_reply(old(self).spec_id(), old(self).spec_bag(), final(self).spec_bag(), answer, r),
    {
        match answer {
            Some(PlanetToExplorer::GenerateResourceResponse { resource }) => match resource {
                Some(r) => {
                    proof {
                        let i = bidx(type_of_basic(r));
                        assert(crate::explorer::bag::count_of(self.spec_bag().basic[i]) < u32::MAX);
                    }
                    self.bag.insert_basic_resource_in_bag(r);
                    ExplorerToOrchestrator::GenerateResourceResponse { explorer_id: self.id, generated: Ok(()) }
                },
                None => ExplorerToOrchestrator::GenerateResourceResponse {
                    explorer_id: self.id,
                    generated: Err(String::from_str("Planet failed to generate")),
                },
            },
            _ => ExplorerToOrchestrator::GenerateResourceResponse {
                explorer_id: self.id,
                generated: Err(String::from_str("No response from Planet")),
            },
        }
    }

    /// Refused while the AI runs, or when the bag lacks an ingredient (the
    /// ingredients are taken as [`build_spec`] says); otherwise the planet
    /// is asked to combine them.
    pub fn begin_combine_resource_request(&mut self, to_generate: ComplexResourceType) -> (s: Step)
        requires
            old(self).wf(),
        ensures
            final(self).wf(),
            final(self).spec_planet() == old(self).spec_planet(),
            final(self).spec_id() == old(self).spec_id(),
            final(self).spec_ai_running() == old(self).spec_ai_running(),
            (old(self).spec_ai_running() ==> final(self).spec_bag() == old(self).spec_bag()),
            (old(self).spec_ai_running() ==> (s matches Step::Reply(ExplorerToOrchestrator::CombineResourceResponse { explorer_id, generated: Err(e) })
                && explorer_id == old(self).spec_id() && e@ == ai_running_combine_message())),
            (!old(self).spec_ai_running() ==> {
                let (req, bag) = build_spec(old(self).spec_bag(), to_generate);
                &&& final(self).spec_bag() == bag
                &&& req is None ==> (s matches Step::Reply(ExplorerToOrchestrator::CombineResourceResponse { explorer_id, generated: Err(e) })
                    && explorer_id == old(self).spec_id() && e@ == "Not enough resources in bag"@)
                &&& req matches Some(m) ==> s == Step::AskPlanet(ExplorerToPlanet::CombineResourceRequest {
                    explorer_id: old(self).spec_id(),
                    msg: m,
                })
            }),
    {
        if self.ai_running {
            return Step::Reply(ExplorerToOrchestrator::CombineResourceResponse {
                explorer_id: self.id,
                generated: Err(String::from_str("Explorer AI is running; manual combination not permitted")),
            });
        }
        match build_request(&mut self.bag, to_generate) {
            None => Step::Reply(ExplorerToOrchestrator::CombineResourceResponse {
                explorer_id: self.id,
                generated: Err(String::from_str("Not enough resources in bag")),
            }),
            Some(req) => Step::AskPlanet(ExplorerToPlanet::CombineResourceRequest { explorer_id: self.id, msg: req }),
        }
    }

    /// A combined unit goes into the bag; ingredients handed back are put
    /// back; anything else is reported as a failure.
    pub fn finish_combine_resource_request(&mut self, answer: Option<PlanetToExplorer>) -> (r: ExplorerToOrchestrator<BagSummary>)
        requires
            old(self).wf(),
            bag_has_room(old(self).spec_bag()),
            forall|i: int| 0 <= i < 4 ==> crate::explorer::bag::count_of(#[trigger] old(self).spec_bag().basic[i]) < u32::MAX - 1,
            forall|i: int| 0 <= i < 6 ==> crate::explorer::bag::count_of(#[trigger] old(self).spec_bag().complex[i]) < u32::MAX - 1,
        ensures
            final(self).wf(),
            final(self).spec_planet() == old(self).spec_planet(),
            final(self).spec_id() == old(self).spec_id(),
            final(self).spec_ai_running() == old(self).spec_ai_running(),
            final(self).spec_neighbors() == old(self).spec_neighbors(),
            combine_reply(old(self).spec_id(), old(self).spec_bag(), final(self).spec_bag(), answer, r),
    {
        match answer {
            Some(PlanetToExplorer::CombineResourceResponse { complex_response }) => match complex_response {
                Ok(cr) => {
                    proof {
                        let i = cidx(type_of_complex(cr));
                        assert(crate::explorer::bag::count_of(self.spec_bag().complex[i]) < u32::MAX);
                    }
                    self.bag.insert_complex_resource_in_bag(cr);
                    ExplorerToOrchestrator::CombineResourceResponse { explorer_id: self.id, generated: Ok(()) }
                },
                Err((e, r1, r2)) => {
                    self.put_back(r1);
                    proof {
                        let v = self.spec_bag();
                        let o = old(self).spec_bag();
                        assert forall|i: int| 0 <= i < 4 implies crate::explorer::bag::count_of(#[trigger] v.basic[i]) < u32::MAX by {
                            assert(crate::explorer::bag::count_of(o.basic[i]) < u32::MAX - 1);
                        }
                        assert forall|i: int| 0 <= i < 6 implies crate::explorer::bag::count_of(#[trigger] v.complex[i]) < u32::MAX by {
                            assert(crate::explorer::bag::count_of(o.complex[i]) < u32::MAX - 1);
                        }
                    }
                    self.put_back(r2);
                    ExplorerToOrchestrator::CombineResourceResponse { explorer_id: self.id, generated: Err(e) }
                },
            },
            _ => ExplorerToOrchestrator::CombineResourceResponse {
                explorer_id: self.id,
                generated: Err(String::from_str("No response from planet")),
            },
        }
    }

    fn put_back(&mut self, r: GenericResource)
        requires
            old(self).wf(),
            bag_has_room(old(self).spec_bag()),
        ensures
            final(self).wf(),
            final(self).spec_bag() == put_generic(old(self).spec_bag(), r),
            final(self).spec_planet() == old(self).spec_planet(),
            final(self).spec_id() == old(self).spec_id(),
            final(self).spec_ai_running() == old(self).spec_ai_running(),
            final(self).spec_neighbors() == old(self).spec_neighbors(),
    {
        proof {
            match r {
                GenericResource::BasicResources(b) => {
                    let i = bidx(type_of_basic(b));
                    assert(crate::explorer::bag::count_of(self.spec_bag().basic[i]) < u32::MAX);
                },
                GenericResource::ComplexResources(c) => {
                    let i = cidx(type_of_complex(c));
                    assert(crate::explorer::bag::count_of(self.spec_bag().complex[i]) < u32::MAX);
                },
            }
        }
        self.bag.restore_resource(r);
    }

    /// Serves one message of the orchestrator. A kill ends the service with
    /// its acknowledgement; neighbours are noted without an answer; every
    /// other message is answered once, at once or after asking the planet,
    /// and every answer and request carries the explorer's id.
    pub fn serve(&mut self, msg: OrchestratorToExplorer) -> (h: Service)
        requires
            old(self).wf(),
        ensures
            final(self).wf(),
            ({
                let o = *old(self);
                let f = *final(self);
                let id = o.spec_id();
                match msg {
                    OrchestratorToExplorer::KillExplorer => h == Service::End(
                        ExplorerToOrchestrator::<BagSummary>::KillExplorerResult { explorer_id: id },
                    ) && f == o,
                    OrchestratorToExplorer::NeighborsResponse { neighbors } => {
                        &&& h is Silent
                        &&& f.spec_neighbors() == neighbors@
                        &&& f.spec_bag() == o.spec_bag() && f.spec_planet() == o.spec_planet()
                        &&& f.spec_id() == id && f.spec_ai_running() == o.spec_ai_running()
                    },
                    OrchestratorToExplorer::BagContentRequest => {
                        &&& f == o
                        &&& h matches Service::Answer(ExplorerToOrchestrator::BagContentResponse { explorer_id, bag_content })
                            && explorer_id == id && bag_content.basic_resources@ == o.spec_bag().basic
                            && bag_content.complex_resources@ == o.spec_bag().complex
                    },
                    OrchestratorToExplorer::CurrentPlanetRequest => f == o && h == Service::Answer(
                        ExplorerToOrchestrator::<BagSummary>::CurrentPlanetResult { explorer_id: id, planet_id: o.spec_planet() },
                    ),
                    OrchestratorToExplorer::MoveToPlanet { planet_id, .. } => {
                        &&& h == Service::Answer(
                            ExplorerToOrchestrator::<BagSummary>::MovedToPlanetResult { explorer_id: id, planet_id },
                        )
                        &&& f.spec_planet() == planet_id
                        &&& f.spec_bag() == o.spec_bag() && f.spec_neighbors() == o.spec_neighbors()
                        &&& f.spec_id() == id && f.spec_ai_running() == o.spec_ai_running()
                    },
                    OrchestratorToExplorer::StartExplorerAI => {
                        &&& h == Service::Answer(ExplorerToOrchestrator::<BagSummary>::StartExplorerAIResult { explorer_id: id })
                        &&& f.spec_ai_running()
                        &&& f.spec_bag() == o.spec_bag() && f.spec_neighbors() == o.spec_neighbors()
                        &&& f.spec_id() == id && f.spec_planet() == o.spec_planet()
                    },
                    OrchestratorToExplorer::StopExplorerAI => {
                        &&& h == Service::Answer(ExplorerToOrchestrator::<BagSummary>::StopExplorerAIResult { explorer_id: id })
                        &&& !f.spec_ai_running()
                        &&& f.spec_bag() == o.spec_bag() && f.spec_neighbors() == o.spec_neighbors()
                        &&& f.spec_id() == id && f.spec_planet() == o.spec_planet()
                    },
                    OrchestratorToExplorer::ResetExplorerAI => {
                        &&& h == Service::Answer(ExplorerToOrchestrator::<BagSummary>::ResetExplorerAIResult { explorer_id: id })
                        &&& f.spec_ai_running()
                        &&& f.spec_bag() == crate::explorer::bag::empty_bag()
                        &&& f.spec_neighbors() == o.spec_neighbors()
                        &&& f.spec_id() == id && f.spec_planet() == o.spec_planet()
                    },
                    OrchestratorToExplorer::SupportedResourceRequest => {
                        &&& f == o
                        &&& if o.spec_ai_running() {
                            h matches Service::Answer(ExplorerToOrchestrator::SupportedResourceResult { explorer_id, supported_resources })
                                && explorer_id == id && supported_resources@ == Seq::<BasicResourceType>::empty()
                        } else {
                            h == Service::Ask(ExplorerToPlanet::SupportedResourceRequest { explorer_id: id })
                        }
                    },
                    OrchestratorToExplorer::SupportedCombinationRequest => {
                        &&& f == o
                        &&& if o.spec_ai_running() {
                            h matches Service::Answer(ExplorerToOrchestrator::SupportedCombinationResult { explorer_id, combination_list })
                                && explorer_id == id && combination_list@ == Seq::<ComplexResourceType>::empty()
                        } else {
                            h == Service::Ask(ExplorerToPlanet::SupportedCombinationRequest { explorer_id: id })
                        }
                    },
                    OrchestratorToExplorer::GenerateResourceRequest { to_generate } => {
                        &&& f == o
                        &&& if o.spec_ai_running() {
                            h matches Service::Answer(ExplorerToOrchestrator::GenerateResourceResponse { explorer_id, generated: Err(e) })
                                && explorer_id == id && e@ == ai_running_generate_message()
                        } else {
                            h == Service::Ask(ExplorerToPlanet::GenerateResourceRequest { explorer_id: id, resource: to_generate })
                        }
                    },
                    OrchestratorToExplorer::CombineResourceRequest { to_generate } => {
                        &&& f.spec_id() == id && f.spec_planet() == o.spec_planet()
                        &&& f.spec_ai_running() == o.spec_ai_running()
                        &&& if o.spec_ai_running() {
                            &&& f.spec_bag() == o.spec_bag()
                            &&& h matches Service::Answer(ExplorerToOrchestrator::CombineResourceResponse { explorer_id, generated: Err(e) })
                                && explorer_id == id && e@ == ai_running_combine_message()
                        } else {
                            let (req, bag) = build_spec(o.spec_bag(), to_generate);
                            &&& f.spec_bag() == bag
                            &&& req is None ==> (h matches Service::Answer(ExplorerToOrchestrator::CombineResourceResponse { explorer_id, generated: Err(e) })
                                && explorer_id == id && e@ == "Not enough resources in bag"@)
                            &&& req matches Some(m) ==> h == Service::Ask(ExplorerToPlanet::CombineResourceRequest { explorer_id: id, msg: m })
                        }
                    },
                }
            }),
    {
        match msg {
            OrchestratorToExplorer::KillExplorer => {
                Service::End(ExplorerToOrchestrator::KillExplorerResult { explorer_id: self.id })
            },
            OrchestratorToExplorer::NeighborsResponse { neighbors } => {
                self.handle_neighbors_response(neighbors);
                Service::Silent
            },
            OrchestratorToExplorer::BagContentRequest => Service::Answer(self.handle_bag_content_request()),
            OrchestratorToExplorer::CurrentPlanetRequest => Service::Answer(self.handle_current_planet_request()),
            OrchestratorToExplorer::MoveToPlanet { approved: _, planet_id } => {
                Service::Answer(self.handle_move_to_planet(planet_id))
            },
            OrchestratorToExplorer::StartExplorerAI => {
                let (r, _started) = self.handle_start_explorer_ai();
                Service::Answer(r)
            },
            OrchestratorToExplorer::StopExplorerAI => Service::Answer(self.handle_stop_explorer_ai()),
            OrchestratorToExplorer::ResetExplorerAI => Service::Answer(self.handle_reset_explorer_ai()),
            OrchestratorToExplorer::SupportedResourceRequest => self.begin_supported_resource_request().into_service(),
            OrchestratorToExplorer::SupportedCombinationRequest => {
                self.begin_supported_combination_request().into_service()
            },
            OrchestratorToExplorer::GenerateResourceRequest { to_generate } => {
                self.begin_generate_resource_request(to_generate).into_service()
            },
            OrchestratorToExplorer::CombineResourceRequest { to_generate } => {
                self.begin_combine_resource_request(to_generate).into_service()
            },
        }
    }

    /// The answer to send once the planet answered `asked` (a request that
    /// [`Explorer::serve`] makes) with `answer`: what the finishing handler
    /// of that request gives.
    pub fn finish(&mut self, asked: &ExplorerToPlanet, answer: Option<PlanetToExplorer>) -> (r: ExplorerToOrchestrator<BagSummary>)
        requires
            !(*asked is AvailableEnergyCellRequest),
            old(self).wf(),
            bag_has_room(old(self).spec_bag()),
            forall|i: int| 0 <= i < 4 ==> crate::explorer::bag::count_of(#[trigger] old(self).spec_bag().basic[i]) < u32::MAX - 1,
            forall|i: int| 0 <= i < 6 ==> crate::explorer::bag::count_of(#[trigger] old(self).spec_bag().complex[i]) < u32::MAX - 1,
        ensures
            final(self).wf(),
            final(self).spec_id() == old(self).spec_id(),
            final(self).spec_planet() == old(self).spec_planet(),
            final(self).spec_ai_running() == old(self).spec_ai_running(),
            final(self).spec_neighbors() == old(self).spec_neighbors(),
            (match *asked {
                ExplorerToPlanet::SupportedResourceRequest { .. } => resources_reply(old(self).spec_id(), answer, r)
                    && final(self).spec_bag() == old(self).spec_bag(),
                ExplorerToPlanet::SupportedCombinationRequest { .. } => combinations_reply(old(self).spec_id(), answer, r)
                    && final(self).spec_bag() == old(self).spec_bag(),
                ExplorerToPlanet::GenerateResourceRequest { .. } => generate_reply(
                    old(self).spec_id(),
                    old(self).spec_bag(),
                    final(self).spec_bag(),
                    answer,
                    r,
                ),
                ExplorerToPlanet::CombineResourceRequest { .. } => combine_reply(
                    old(self).spec_id(),
                    old(self).spec_bag(),
                    final(self).spec_bag(),
                    answer,
                    r,
                ),
                ExplorerToPlanet::AvailableEnergyCellRequest { .. } => false,
            }),
    {
        match asked {
            ExplorerToPlanet::SupportedResourceRequest { .. } => self.finish_supported_resource_request(answer),
            ExplorerToPlanet::SupportedCombinationRequest { .. } => self.finish_supported_combination_request(answer),
            ExplorerToPlanet::GenerateResourceRequest { .. } => self.finish_generate_resource_request(answer),
            ExplorerToPlanet::CombineResourceRequest { .. } => self.finish_combine_resource_request(answer),
            ExplorerToPlanet::AvailableEnergyCellRequest { .. } => vstd::pervasive::unreached(),
        }
    }
}

/// The bag after a unit of any kind is put back.
pub open spec fn put_generic(v: BagView, r: GenericResource) -> BagView {
    match r {
        GenericResource::BasicResources(b) => v.put_basic(type_of_basic(b)),
        GenericResource::ComplexResources(c) => v.put_complex(type_of_complex(c)),
    }
}

/// A combination the planet refuses costs nothing: once the two
/// ingredients it hands back are put back, the bag is as it was before the
/// request was assembled.
pub proof fn lemma_refused_combination_restores(v: BagView, c: ComplexResourceType)
    requires
        bag_wf(v),
        build_spec(v, c).0 is Some,
    ensures
        ({
            let (req, after) = build_spec(v, c);
            let (a, b) = request_ingredients(req.unwrap());
            put_generic(put_generic(after, a), b) == v
        }),
{
    let (req, after) = build_spec(v, c);
    let (a, b) = request_ingredients(req.unwrap());
    assert(put_generic(put_generic(after, a), b) =~= v);
}

} // verus!

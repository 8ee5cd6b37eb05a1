//! Mosaik types as defined in the Mosaik API (version 3).

use std::collections::HashMap;
use vstd::prelude::*;

verus! {

/// Time is represented as the number of simulation steps since the
/// simulation started. One step represents `time_resolution` seconds.
pub type Time = u64;

/// An attribute name.
pub type Attr = String;

/// The name of a model.
pub type ModelName = String;

/// A simulator ID.
pub type SimId = String;

/// An entity ID.
pub type EntityId = String;

/// A full ID of the form "`sim_id.entity_id`".
pub type FullId = String;

/// The compatible Mosaik version with this edition of the API.
pub const API_VERSION: &'static str = "3.0";

/// Description of a single model in `Meta`.
#[derive(Debug, PartialEq, Clone)]
pub struct ModelDescription {
    /// Whether the model can be created directly.
    pub public: bool,
    /// The parameters given during creating of this model.
    pub params: &'static [&'static str],
    /// The input and output attributes of this model.
    pub attrs: &'static [&'static str],
    /// Whether this model accepts inputs other than those specified in `attrs`.
    pub any_inputs: Option<bool>,
    /// The input attributes that trigger a step of the associated simulator.
    pub trigger: Option<&'static [&'static str]>,
    /// The output attributes that are persistent.
    pub persistent: Option<&'static [&'static str]>,
}

impl ModelDescription {
    /// Creates a new `ModelDescription` with fields `any_inputs`, `trigger` and `persistent` set to `None`.
    pub fn new(public: bool, params: &'static [&'static str], attrs: &'static [&'static str]) -> (r:
        Self)
        ensures
            r.public == public,
            r.params == params,
            r.attrs == attrs,
            r.any_inputs is None,
            r.trigger is None,
            r.persistent is None,
    {
        ModelDescription { public, params, attrs, any_inputs: None, trigger: None, persistent: None }
    }
}

impl Default for ModelDescription {
    /// A model that cannot be created directly, with no parameters and no attributes.
    fn default() -> (r: Self)
        ensures
            !r.public,
            r.params@.len() == 0,
            r.attrs@.len() == 0,
            r.any_inputs is None,
            r.trigger is None,
            r.persistent is None,
    {
        let params: &'static [&'static str] = &[];
        let attrs: &'static [&'static str] = &[];
        ModelDescription { public: false, params, attrs, any_inputs: None, trigger: None, persistent: None }
    }
}

/// The meta-data for a simulator.
#[derive(Debug, PartialEq, Clone)]
pub struct Meta {
    /// The API version that this simulator supports in the format "major.minor".
    api_version: &'static str,
    /// The simulator's stepping type.
    pub simulator_type: SimulatorType,
    /// The descriptions of this simulator's models.
    pub models: HashMap<ModelName, ModelDescription>,
    /// The names of the extra methods this simulator supports.
    pub extra_methods: Option<Vec<String>>,
}

impl Meta {
    /// The API version of this meta-data.
    pub closed spec fn spec_api_version(&self) -> &'static str {
        self.api_version
    }

    /// The simulator's stepping type.
    pub closed spec fn spec_simulator_type(&self) -> SimulatorType {
        self.simulator_type
    }

    /// The descriptions of the simulator's models.
    pub closed spec fn spec_models(&self) -> HashMap<ModelName, ModelDescription> {
        self.models
    }

    /// The names of the simulator's extra methods.
    pub closed spec fn spec_extra_methods(&self) -> Option<Vec<String>> {
        self.extra_methods
    }

    /// Creates the meta-data of a simulator that supports [`API_VERSION`].
    pub fn new(
        simulator_type: SimulatorType,
        models: HashMap<ModelName, ModelDescription>,
        extra_methods: Option<Vec<String>>,
    ) -> (r: Self)
        ensures
            r.spec_api_version() == API_VERSION,
            r.spec_simulator_type() == simulator_type,
            r.spec_models() == models,
            r.spec_extra_methods() == extra_methods,
    {
        Meta { api_version: API_VERSION, simulator_type, models, extra_methods }
    }

    /// The API version that this simulator supports.
    pub fn get_version(&self) -> (r: &str)
        ensures
            r == self.spec_api_version(),
    {
        self.api_version
    }
}

impl Default for Meta {
    /// The meta-data of a hybrid simulator without models and without extra methods.
    fn default() -> (r: Self)
        ensures
            r.spec_api_version() == API_VERSION,
            r.spec_simulator_type() == SimulatorType::Hybrid,
            r.spec_models()@ == Map::<ModelName, ModelDescription>::empty(),
            r.spec_extra_methods() is None,
    {
        Meta {
            api_version: API_VERSION,
            simulator_type: SimulatorType::default(),
            models: HashMap::new(),
            extra_methods: None,
        }
    }
}

/// The three types of simulators, with `Hybrid` being the default.
#[derive(Debug, PartialEq, Eq, Clone, Copy)]
pub enum SimulatorType {
    TimeBased,
    EventBased,
    Hybrid,
}

impl Default for SimulatorType {
    /// A simulator is hybrid unless it says otherwise.
    fn default() -> (r: Self)
        ensures
            r == SimulatorType::Hybrid,
    {
        SimulatorType::Hybrid
    }
}

/// An element of the list returned by `create` calls.
#[derive(Debug, PartialEq)]
pub struct CreateResult {
    /// The entity ID of this entity.
    pub eid: EntityId,
    /// The model name (as given in the simulator's meta) of this entity.
    pub model_type: ModelName,
    /// The entity IDs of the entities of this simulator that are related to this entity.
    pub rel: Option<Vec<EntityId>>,
    /// The child entities of this entity.
    pub children: Option<Vec<CreateResult>>,
    /// Any additional information about the entity that the simulator wants to pass back to the scenario.
    pub extra_info: Option<HashMap<String, String>>,
}

impl CreateResult {
    /// An entity with the given ID and model, with no relations, children or extra information.
    pub fn new(eid: EntityId, model_type: ModelName) -> (r: Self)
        ensures
            r.eid == eid,
            r.model_type == model_type,
            r.rel is None,
            r.children is None,
            r.extra_info is None,
    {
        CreateResult { eid, model_type, rel: None, children: None, extra_info: None }
    }
}

/// `b` is the same entity as `a`: equal IDs, model, relations and extra
/// information, and children that are in turn the same entities, in order.
pub open spec fn same_entity(a: CreateResult, b: CreateResult) -> bool
    decreases a,
{
    &&& b.eid == a.eid
    &&& b.model_type == a.model_type
    &&& (b.rel is Some <==> a.rel is Some)
    &&& (b.rel matches Some(v) ==> v@ == a.rel->0@)
    &&& (b.extra_info is Some <==> a.extra_info is Some)
    &&& (b.extra_info matches Some(m) ==> m@ == a.extra_info->0@)
    &&& match a.children {
        None => b.children is None,
        Some(x) => b.children matches Some(y) && y@.len() == x@.len() && forall|i: int|
            #![trigger x@[i]]
            0 <= i < x@.len() ==> same_entity(x@[i], y@[i]),
    }
}

/// A copy of `c`, its children copied in turn.
fn clone_create_result(c: &CreateResult) -> (r: CreateResult)
    ensures
        same_entity(*c, r),
    decreases c,
{
    let rel = match &c.rel {
        Some(v) => {
            let w = v.clone();
            assert(w@ =~= v@);
            Some(w)
        },
        None => None,
    };
    let children = match &c.children {
        Some(v) => {
            let mut out: Vec<CreateResult> = Vec::new();
            let mut i: usize = 0;
            while i < v.len()
                invariant
                    i <= v@.len(),
                    out@.len() == i,
                    c.children == Some(*v),
                    forall|k: int| #![trigger v@[k]] 0 <= k < i ==> same_entity(v@[k], out@[k]),
                decreases v@.len() - i,
            {
                proof {
                    broadcast use vstd::std_specs::vec::axiom_vec_decreases_to_view;

                    let opt = c.children;
                    assert(decreases_to!(c => opt));
                    assert(decreases_to!(opt => opt->0));
                    assert(decreases_to!(*v => v@));
                    assert(decreases_to!(v@ => v@[i as int]));
                }
                let child = clone_create_result(&v[i]);
                out.push(child);
                i = i + 1;
            }
            Some(out)
        },
        None => None,
    };
    let extra_info = match &c.extra_info {
        Some(m) => Some(m.clone()),
        None => None,
    };
    CreateResult { eid: c.eid.clone(), model_type: c.model_type.clone(), rel, children, extra_info }
}

impl Clone for CreateResult {
    /// A copy of this entity, its children copied in turn.
    fn clone(&self) -> (r: Self)
        ensures
            same_entity(*self, r),
    {
        clone_create_result(self)
    }
}

} // verus!

//! Simulator meta-data with an advance type, whose model description lists
//! its attributes and methods as owned strings.

use vstd::prelude::*;

verus! {

/// How a simulator advances in time.
#[derive(Debug, PartialEq, Eq, Clone, Copy)]
pub enum AdvanceType {
    TimeBased,
    EventBased,
    Hybrid,
}

impl Default for AdvanceType {
    /// A simulator is hybrid unless it says otherwise.
    fn default() -> (r: Self)
        ensures
            r == AdvanceType::Hybrid,
    {
        AdvanceType::Hybrid
    }
}

/// The description of a model.
#[derive(Debug)]
pub struct ModelMeta {
    /// Whether the model can be created directly.
    pub public: bool,
    /// The parameters given during creating of this model.
    pub params: Vec<String>,
    /// The attributes of this model.
    pub attrs: Vec<String>,
    /// Whether this model accepts inputs other than those specified in `attrs`.
    pub any_inputs: bool,
    /// The input attributes that trigger a step of the simulator.
    pub trigger: Option<Vec<String>>,
    /// The output attributes that are not persistent.
    pub non_persistent: Option<Vec<String>>,
}

impl Default for ModelMeta {
    /// A public model without parameters, attributes, extra inputs or triggers.
    fn default() -> (r: Self)
        ensures
            r.public,
            r.params@.len() == 0,
            r.attrs@.len() == 0,
            !r.any_inputs,
            r.trigger is None,
            r.non_persistent is None,
    {
        ModelMeta {
            public: true,
            params: Vec::new(),
            attrs: Vec::new(),
            any_inputs: false,
            trigger: None,
            non_persistent: None,
        }
    }
}

} // verus!

//! The random data generator, a placeholder tool that shows only its name.
use vstd::prelude::*;
use crate::tool::RANDOM_DATA_GENERATOR_NAME;

verus! {

/// State of the random data generator.
pub struct RandomDataGenerator {
    pub tool_name: String,
}

impl RandomDataGenerator {
    /// The state of a freshly opened generator.
    pub open spec fn is_initial(&self) -> bool {
        self.tool_name@ == RANDOM_DATA_GENERATOR_NAME@
    }

    /// A fresh generator.
    pub fn new() -> (r: RandomDataGenerator)
        ensures
            r.is_initial(),
    {
        RandomDataGenerator { tool_name: RANDOM_DATA_GENERATOR_NAME.to_owned() }
    }

    /// The tool's display name.
    pub fn title(&self) -> (r: String)
        ensures
            r@ == self.tool_name@,
    {
        self.tool_name.clone()
    }
}

} // verus!

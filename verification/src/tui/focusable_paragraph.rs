//! State for a paragraph widget that can take focus: the optional text it
//! currently shows.

use vstd::prelude::*;

verus! {

/// The paragraph's current value, if one has been set.
#[derive(Debug, Clone, Default)]
pub struct OwnStates {
    pub value: Option<String>,
}

impl OwnStates {
    /// Replace the shown value.
    pub fn update_value(&mut self, new_val: Option<String>)
        ensures
            final(self).value == new_val,
    {
        self.value = new_val;
    }
}

} // verus!

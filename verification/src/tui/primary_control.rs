//! Properties of the primary single-item control: a titled box that shows
//! one value and may be selected.

use vstd::prelude::*;

verus! {

/// What the single-item control displays.
#[derive(Debug, Clone, Default)]
pub struct SingleItemProps {
    pub is_selected: bool,
    pub title: String,
    pub value: String,
}

} // verus!

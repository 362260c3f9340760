//! Display sizes.

use vstd::prelude::*;

verus! {

/// The size tiers in which a widget is drawn.
#[derive(Debug, Clone, Copy, PartialEq, Eq, Structural)]
pub enum Size {
    XSmall,
    Small,
    Medium,
    Large,
}

impl Default for Size {
    fn default() -> (r: Size)
        ensures
            r == Size::Medium,
    {
        Size::Medium
    }
}

impl Size {
    /// The size of the step buttons beside a field of this size: the two small
    /// tiers take the smallest button, every other tier the next one up.
    pub open spec fn spec_button_size(self) -> Size {
        match self {
            Size::XSmall | Size::Small => Size::XSmall,
            _ => Size::Small,
        }
    }

    #[verifier::when_used_as_spec(spec_button_size)]
    pub fn button_size(self) -> (r: Size)
        ensures
            r == self.spec_button_size(),
    {
        match self {
            Size::XSmall | Size::Small => Size::XSmall,
            _ => Size::Small,
        }
    }
}

} // verus!

//! The interface part of the saved configuration.

use vstd::prelude::*;

verus! {

/// How the player targets and attacks with the mouse.
#[derive(PartialEq, Eq, Structural, Clone, Copy)]
pub enum TargetingType {
    /// The first click targets, the second attacks.
    DoubleClick,
    /// One click targets and attacks.
    SingleClick,
}

/// The interface settings that are saved with the configuration.
#[derive(Clone, Copy)]
pub struct InterfaceConfig {
    pub targeting: TargetingType,
}

impl Default for InterfaceConfig {
    fn default() -> (res: Self)
        ensures
            res.targeting == TargetingType::DoubleClick,
    {
        Self { targeting: TargetingType::DoubleClick }
    }
}

} // verus!

//! The interface settings in effect while the game runs.

use vstd::prelude::*;

verus! {

/// How the player targets and attacks with the mouse.
#[derive(PartialEq, Eq, Structural, Clone, Copy)]
pub enum TargetingType {
    /// The first click targets, the second attacks.
    DoubleClick,
    /// One click targets and attacks.
    SingleClick,
}

/// The interface settings in effect.
pub struct InterfaceSettings {
    pub targeting: TargetingType,
}

} // verus!

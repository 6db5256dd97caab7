//! The per-item gate: an inspector panel runs on a tick exactly when the
//! command surface is shown and its own flag is on.

use crate::registry::RegistryState;
use vstd::prelude::*;

verus! {

/// The run condition of one item's panel. It carries only an index:
/// the prompt flag and the item flag may each change from tick to
/// tick, so every evaluation reads the current values afresh.
pub struct ActivationCondition {
    /// Index of the gated item in its family's [`RegistryState`].
    pub index: usize,
}

impl ActivationCondition {
    /// Decides whether the gated sub-system runs this tick: true exactly
    /// when the command surface is visible and the item's own flag is on.
    ///
    /// The conjunction is deliberate: dismissing the whole command surface
    /// must hide every panel, even those whose individual toggle stays on.
    pub fn evaluate(&self, prompt_visible: bool, state: &RegistryState) -> (r: bool)
        requires
            self.index < state.visible@.len(),
        ensures
            r == (prompt_visible && state.visible@[self.index as int]),
    {
        prompt_visible && state.is_visible(self.index)
    }
}

} // verus!

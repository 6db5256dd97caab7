//! The application-wide inspection panel: one panel, one act, no registry.

use vstd::prelude::*;

verus! {

/// Visibility of the application-wide panel, a two-state slot the host
/// keeps alongside the command surface's own visibility.
pub enum PanelVisibility {
    /// The panel is hidden.
    Invisible,
    /// The panel is shown.
    Visible,
}

/// Adds the `inspect_world` act: a single panel over the whole application,
/// toggled directly — there is nothing to pick, so no prompt is involved.
pub struct WorldActs {
    /// Visibility slot of the panel, starting hidden.
    pub panel: PanelVisibility,
}

impl WorldActs {
    /// A fresh instance with the panel hidden.
    pub fn new() -> (r: Self)
        ensures
            r.panel is Invisible,
    {
        WorldActs { panel: PanelVisibility::Invisible }
    }

    /// The act itself: flips the panel's visibility. The host clears the
    /// prompt line afterwards.
    pub fn inspect_world(&mut self)
        ensures
            old(self).panel is Invisible <==> final(self).panel is Visible,
    {
        self.panel = match self.panel {
            PanelVisibility::Invisible => PanelVisibility::Visible,
            PanelVisibility::Visible => PanelVisibility::Invisible,
        };
    }

    /// Whether the panel's sub-system runs this tick: true exactly when the
    /// command surface is visible and the panel's own flag is on, so the
    /// panel never outlives a dismissed command surface.
    pub fn active(&self, prompt_visible: bool) -> (r: bool)
        ensures
            r == (prompt_visible && self.panel is Visible),
    {
        prompt_visible && matches!(self.panel, PanelVisibility::Visible)
    }
}

impl Default for WorldActs {
    /// The same fresh instance [`WorldActs::new`] makes: panel hidden.
    fn default() -> (r: Self)
        ensures
            r.panel is Invisible,
    {
        Self::new()
    }
}

} // verus!

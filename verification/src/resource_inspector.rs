//! The tagged-resource inspector family: one panel per registered resource,
//! toggled through the `inspect_resource` act.

use crate::command::ToggleCommand;
use crate::registry::{FinalizePlan, Registry};
use vstd::prelude::*;

verus! {

/// Adds the `inspect_resource` act and one gated panel per registered
/// resource. Resources are registered by display name; the host supplies
/// the panel renderer for each when it consumes the finalize plan.
pub struct ResourceActs {
    /// Pending registrations, consumed once at build time.
    pub plugins: Registry,
    /// The family's single toggle command, made here and never duplicated
    /// by registration.
    pub command: ToggleCommand,
}

impl ResourceActs {
    /// An empty family with its one command ready.
    pub fn new() -> (r: Self)
        ensures
            r.plugins.wf(),
            r.plugins.pending@.len() == 0,
            r.command.mode is Idle,
            r.command.prompt_label@ == "resource: "@,
            r.command.empty_message@ == "No resources registered."@,
    {
        ResourceActs {
            plugins: Registry::new(),
            command: ToggleCommand::new(
                String::from_str("resource: "),
                String::from_str("No resources registered."),
            ),
        }
    }

    /// Registers one resource under the next index and returns the family
    /// for chaining. The command is left untouched, however often this is
    /// called.
    pub fn add(self, name: String) -> (r: Self)
        requires
            self.plugins.wf(),
        ensures
            r.plugins.wf(),
            r.plugins.names() == self.plugins.names().push(name),
            r.plugins.pending@.len() == self.plugins.pending@.len() + 1,
            r.command == self.command,
    {
        ResourceActs { plugins: self.plugins.add(name), command: self.command }
    }

    /// Consumes the family into its finalize plan: one build request per
    /// registered resource, the names frozen with every flag off, and the
    /// one command handed through.
    pub fn build(self) -> (plan: FinalizePlan)
        requires
            self.plugins.wf(),
        ensures
            plan.state.wf(),
            plan.state.names@ == self.plugins.names(),
            plan.state.visible@.len() == self.plugins.pending@.len(),
            forall|i: int| 0 <= i < plan.state.visible@.len() ==> !plan.state.visible@[i],
            plan.attach@.len() == self.plugins.pending@.len(),
            forall|j: int|
                0 <= j < plan.attach@.len() ==> (#[trigger] plan.attach@[j]).index == j,
            plan.command == self.command,
            plan.empty_warning <==> self.plugins.pending@.len() == 0,
    {
        self.plugins.build(self.command)
    }
}

impl Default for ResourceActs {
    /// The same empty family [`ResourceActs::new`] makes.
    fn default() -> (r: Self)
        ensures
            r.plugins.wf(),
            r.plugins.pending@.len() == 0,
            r.command.mode is Idle,
            r.command.prompt_label@ == "resource: "@,
            r.command.empty_message@ == "No resources registered."@,
    {
        Self::new()
    }
}

} // verus!

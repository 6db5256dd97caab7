//! Per-family runtime data: ordered display names beside visibility flags,
//! and the pending builder that produces them.

use crate::activation::ActivationCondition;
use crate::command::ToggleCommand;
use vstd::prelude::*;

verus! {

/// Runtime data for one inspector family: an ordered list of display names
/// and an index-aligned list of visibility flags.
///
/// `names` is frozen once the family is built; `visible` is meant to change
/// only through [`RegistryState::toggle`], driven by the family's toggle
/// command.
pub struct RegistryState {
    /// Display names in registration order.
    pub names: Vec<String>,
    /// Visibility flag of each item, aligned with `names`.
    pub visible: Vec<bool>,
}

impl RegistryState {
    /// The two lists stay index-aligned at all times.
    pub open spec fn wf(&self) -> bool {
        self.names@.len() == self.visible@.len()
    }

    /// An empty state: no items, no flags.
    pub fn new() -> (r: Self)
        ensures
            r.wf(),
            r.names@.len() == 0,
            r.visible@.len() == 0,
    {
        RegistryState { names: Vec::new(), visible: Vec::new() }
    }

    /// The number of registered items.
    pub fn len(&self) -> (n: usize)
        requires
            self.wf(),
        ensures
            n == self.names@.len(),
            n == self.visible@.len(),
    {
        self.names.len()
    }

    /// The visibility flag of one item.
    pub fn is_visible(&self, index: usize) -> (r: bool)
        requires
            index < self.visible@.len(),
        ensures
            r == self.visible@[index as int],
    {
        self.visible[index]
    }

    /// The display name of one item.
    pub fn name_at(&self, index: usize) -> (r: &String)
        requires
            index < self.names@.len(),
        ensures
            r == self.names@[index as int],
    {
        &self.names[index]
    }

    /// Flips exactly one visibility flag; every other entry and all names
    /// stay as they were.
    pub fn toggle(&mut self, index: usize)
        requires
            old(self).wf(),
            index < old(self).visible@.len(),
        ensures
            final(self).wf(),
            final(self).names@ == old(self).names@,
            final(self).visible@ == old(self).visible@.update(
                index as int,
                !old(self).visible@[index as int],
            ),
    {
        let flag = self.visible[index];
        self.visible.set(index, !flag);
    }
}

/// One pending registration: the index the item was assigned at `add` time
/// and the display name it was registered under. The record stands in for
/// the deferred construction of that item's gated sub-system, which the
/// host performs when it receives the build request back at finalize time.
pub struct BuildEntry {
    /// Dense index assigned in registration order, never reused.
    pub index: usize,
    /// Display name the item was registered under; duplicates are allowed
    /// and keep their own index.
    pub name: String,
}

/// The fluent builder of one inspector family: it accumulates pending
/// registrations and is consumed exactly once by [`Registry::build`].
pub struct Registry {
    /// Pending registrations in registration order.
    pub pending: Vec<BuildEntry>,
}

/// Everything one finalize step hands back to the host: the frozen runtime
/// state, one gate per item to attach its sub-system under, the family's
/// single toggle command, and whether the family was empty.
pub struct FinalizePlan {
    /// The family's runtime state: names frozen, every flag off.
    pub state: RegistryState,
    /// One gate per registered item, in registration order; the host
    /// attaches the item's sub-system under it.
    pub attach: Vec<ActivationCondition>,
    /// The family's single toggle command, handed through unchanged.
    pub command: ToggleCommand,
    /// True exactly when nothing was registered: a diagnostic worth a
    /// logged warning, never a reason to abort startup.
    pub empty_warning: bool,
}

impl Registry {
    /// Indices are dense and assigned in registration order.
    pub open spec fn wf(&self) -> bool {
        forall|i: int|
            0 <= i < self.pending@.len() ==> (#[trigger] self.pending@[i]).index == i
    }

    /// The registered names in registration order.
    pub open spec fn names(&self) -> Seq<String> {
        self.pending@.map_values(|e: BuildEntry| e.name)
    }

    /// An empty registry: nothing pending.
    pub fn new() -> (r: Self)
        ensures
            r.wf(),
            r.pending@.len() == 0,
    {
        Registry { pending: Vec::new() }
    }

    /// Appends one registration under the next dense index and returns the
    /// registry for chaining. Names need not be unique.
    pub fn add(self, name: String) -> (r: Self)
        requires
            self.wf(),
        ensures
            r.wf(),
            r.pending@ == self.pending@.push(
                (BuildEntry { index: self.pending@.len() as usize, name }),
            ),
            r.names() == self.names().push(name),
    {
        let mut pending = self.pending;
        let index = pending.len();
        pending.push(BuildEntry { index, name });
        let r = Registry { pending };
        assert(r.names() =~= self.names().push(name));
        r
    }

    /// Consumes the registry: in registration order, each pending entry
    /// becomes one build request — a gate to attach that item's sub-system
    /// under — and the names are frozen into the runtime state with every
    /// flag off. The family's single command is handed through unchanged;
    /// this step never makes another. An empty registry is reported as a
    /// warning, not a failure.
    pub fn build(self, command: ToggleCommand) -> (plan: FinalizePlan)
        requires
            self.wf(),
        ensures
            plan.state.wf(),
            plan.state.names@ == self.names(),
            plan.state.visible@.len() == self.pending@.len(),
            forall|i: int| 0 <= i < plan.state.visible@.len() ==> !plan.state.visible@[i],
            plan.attach@.len() == self.pending@.len(),
            forall|j: int| 0 <= j < plan.attach@.len() ==> (#[trigger] plan.attach@[j]).index == j,
            plan.command == command,
            plan.empty_warning <==> self.pending@.len() == 0,
    {
        let ghost all = self.pending@;
        let n = self.pending.len();
        let empty_warning = n == 0;
        let mut names: Vec<String> = Vec::new();
        let mut visible: Vec<bool> = Vec::new();
        let mut attach: Vec<ActivationCondition> = Vec::new();
        let mut pending = self.pending;
        let mut i: usize = 0;
        while i < n
            invariant
                n == all.len(),
                pending@ == all.skip(i as int),
                i <= n,
                names@ == all.map_values(|e: BuildEntry| e.name).take(i as int),
                visible@.len() == i,
                forall|k: int| 0 <= k < i ==> !visible@[k],
                attach@.len() == i,
                forall|j: int| 0 <= j < i ==> (#[trigger] attach@[j]).index == j,
            decreases n - i,
        {
            let entry = pending.remove(0);
            names.push(entry.name);
            visible.push(false);
            attach.push(ActivationCondition { index: i });
            assert(names@ =~= all.map_values(|e: BuildEntry| e.name).take(i as int + 1));
            assert(pending@ =~= all.skip(i as int + 1));
            i = i + 1;
        }
        assert(all.map_values(|e: BuildEntry| e.name).take(n as int) =~= all.map_values(
            |e: BuildEntry| e.name,
        ));
        FinalizePlan {
            state: RegistryState { names, visible },
            attach,
            command,
            empty_warning,
        }
    }
}

/// The toggle step is its own inverse: if `once` came out of `before` the
/// way [`RegistryState::toggle`] describes, and `twice` out of `once` at
/// the same index, then `twice` is `before` again.
pub proof fn lemma_toggle_involutive(
    before: RegistryState,
    once: RegistryState,
    twice: RegistryState,
    i: int,
)
    requires
        0 <= i < before.visible@.len(),
        once.names@ == before.names@,
        once.visible@ == before.visible@.update(i, !before.visible@[i]),
        twice.names@ == once.names@,
        twice.visible@ == once.visible@.update(i, !once.visible@[i]),
    ensures
        twice.names@ == before.names@,
        twice.visible@ == before.visible@,
{
    assert(twice.visible@ =~= before.visible@);
}

} // verus!

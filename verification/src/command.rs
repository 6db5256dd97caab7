//! The interactive toggle command of one inspector family: it opens a
//! completion prompt over the registered names and flips the chosen flag.

use crate::registry::RegistryState;
use vstd::prelude::*;

verus! {

/// Where the command stands between host events: waiting to be invoked, or
/// waiting for the prompt to resolve.
pub enum PromptMode {
    /// No prompt of this family is open.
    Idle,
    /// A completion prompt of this family is open and owes one outcome.
    PromptOpen,
}

/// What the host must do right after an invocation.
pub enum InvokeAction {
    /// Open a completion prompt with this label, seeded with these names in
    /// registration order.
    OpenPrompt { label: String, names: Vec<String> },
    /// Show this message; no prompt is opened.
    ShowMessage { text: String },
}

/// The one-shot outcome the prompt engine delivers for an open prompt.
pub enum SelectionOutcome {
    /// The chosen text resolved to this index of the seeded name list.
    Selected { index: usize },
    /// The prompt was cancelled or the input matched nothing; cancellation
    /// and invalid input are treated alike.
    Failed { message: String },
}

/// What the host must do once an open prompt has resolved.
pub enum ResolveAction {
    /// Dismiss the prompt; the chosen flag was flipped.
    Dismiss,
    /// Surface this failure to the user; nothing was changed and the prompt
    /// is not dismissed silently.
    ShowError { text: String },
    /// The resolved index lies outside the flag list: the prompt and the
    /// registry fell out of step. This is an internal invariant violation,
    /// not a user-facing error; nothing was changed, and only this
    /// operation halts.
    InternalFault,
}

/// The single interactive command of one inspector family.
///
/// Exactly one of these exists per family, made once when the family is
/// created and never duplicated by item registration.
pub struct ToggleCommand {
    /// Where the command stands between host events.
    pub mode: PromptMode,
    /// Label shown at the head of the completion prompt.
    pub prompt_label: String,
    /// Message shown when the family has no items.
    pub empty_message: String,
}

impl ToggleCommand {
    /// A fresh command in its initial state.
    pub fn new(prompt_label: String, empty_message: String) -> (r: Self)
        ensures
            r.mode is Idle,
            r.prompt_label == prompt_label,
            r.empty_message == empty_message,
    {
        ToggleCommand { mode: PromptMode::Idle, prompt_label, empty_message }
    }

    /// Invoking the command: with no items registered it only reports that,
    /// and no prompt opens; otherwise it opens a completion prompt seeded
    /// with the names in registration order.
    pub fn invoke(&mut self, state: &RegistryState) -> (a: InvokeAction)
        requires
            old(self).mode is Idle,
        ensures
            final(self).prompt_label == old(self).prompt_label,
            final(self).empty_message == old(self).empty_message,
            state.names@.len() == 0 ==> {
                &&& final(self).mode is Idle
                &&& a matches InvokeAction::ShowMessage { text } && text == old(self).empty_message
            },
            state.names@.len() > 0 ==> {
                &&& final(self).mode is PromptOpen
                &&& a matches InvokeAction::OpenPrompt { label, names }
                    && label == old(self).prompt_label
                    && names@ == state.names@
            },
    {
        if state.names.len() == 0 {
            InvokeAction::ShowMessage { text: self.empty_message.clone() }
        } else {
            self.mode = PromptMode::PromptOpen;
            let names = clone_names(&state.names);
            InvokeAction::OpenPrompt { label: self.prompt_label.clone(), names }
        }
    }

    /// Resolving an open prompt: a selection in range flips exactly that
    /// flag and dismisses the prompt; a failure is surfaced and changes
    /// nothing; an out-of-range index changes nothing and is reported as an
    /// internal fault. Every outcome returns the command to idle.
    pub fn resolve(&mut self, state: &mut RegistryState, outcome: SelectionOutcome) -> (a:
        ResolveAction)
        requires
            old(self).mode is PromptOpen,
            old(state).wf(),
        ensures
            final(self).mode is Idle,
            final(self).prompt_label == old(self).prompt_label,
            final(self).empty_message == old(self).empty_message,
            final(state).wf(),
            final(state).names@ == old(state).names@,
            match outcome {
                SelectionOutcome::Selected { index } => {
                    if index < old(state).visible@.len() {
                        &&& final(state).visible@ == old(state).visible@.update(
                            index as int,
                            !old(state).visible@[index as int],
                        )
                        &&& a is Dismiss
                    } else {
                        &&& final(state).visible@ == old(state).visible@
                        &&& a is InternalFault
                    }
                },
                SelectionOutcome::Failed { message } => {
                    &&& final(state).visible@ == old(state).visible@
                    &&& a matches ResolveAction::ShowError { text } && text == message
                },
            },
    {
        self.mode = PromptMode::Idle;
        match outcome {
            SelectionOutcome::Selected { index } => {
                if index < state.visible.len() {
                    state.toggle(index);
                    ResolveAction::Dismiss
                } else {
                    ResolveAction::InternalFault
                }
            },
            SelectionOutcome::Failed { message } => {
                ResolveAction::ShowError { text: message }
            },
        }
    }
}

/// Maps chosen text back to its index in the seeded name list: the first
/// name equal to the choice wins, so resolution is deterministic even among
/// duplicate names; `None` exactly when no name matches.
pub fn index_of_name(names: &Vec<String>, choice: &String) -> (r: Option<usize>)
    ensures
        match r {
            Some(i) => {
                &&& i < names@.len()
                &&& names@[i as int]@ == choice@
                &&& forall|j: int| 0 <= j < i ==> names@[j]@ != choice@
            },
            None => forall|j: int| 0 <= j < names@.len() ==> names@[j]@ != choice@,
        },
{
    let n = names.len();
    let mut i: usize = 0;
    while i < n
        invariant
            n == names@.len(),
            i <= n,
            forall|j: int| 0 <= j < i ==> names@[j]@ != choice@,
        decreases n - i,
    {
        if names[i].eq(choice) {
            return Some(i);
        }
        i = i + 1;
    }
    None
}

/// A fresh copy of the name list with the very same entries, used to seed
/// the prompt without giving it the registry's own list.
fn clone_names(names: &Vec<String>) -> (r: Vec<String>)
    ensures
        r@ == names@,
{
    let n = names.len();
    let mut out: Vec<String> = Vec::new();
    let mut i: usize = 0;
    while i < n
        invariant
            n == names@.len(),
            i <= n,
            out@ == names@.take(i as int),
        decreases n - i,
    {
        out.push(names[i].clone());
        assert(out@ =~= names@.take(i as int + 1));
        i = i + 1;
    }
    assert(names@.take(n as int) =~= names@);
    out
}

} // verus!

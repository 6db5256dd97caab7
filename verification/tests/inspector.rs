use minibuffer_inspector::activation::ActivationCondition;
use minibuffer_inspector::command::{
    index_of_name, InvokeAction, PromptMode, ResolveAction, SelectionOutcome, ToggleCommand,
};
use minibuffer_inspector::registry::{Registry, RegistryState};
use minibuffer_inspector::resource_inspector::ResourceActs;

fn three_names() -> ResourceActs {
    ResourceActs::new()
        .add("Alpha".to_string())
        .add("Beta".to_string())
        .add("Gamma".to_string())
}

#[test]
fn finalize_aligns_names_and_flags() {
    let plan = three_names().build();
    assert_eq!(plan.state.names.len(), 3);
    assert_eq!(plan.state.visible.len(), 3);
    assert_eq!(plan.state.names, vec!["Alpha", "Beta", "Gamma"]);
    assert_eq!(plan.state.visible, vec![false, false, false]);
    assert!(!plan.empty_warning);
}

#[test]
fn finalize_of_empty_registry_warns() {
    let plan = ResourceActs::new().build();
    assert_eq!(plan.state.names.len(), 0);
    assert_eq!(plan.state.visible.len(), 0);
    assert_eq!(plan.attach.len(), 0);
    assert!(plan.empty_warning);
}

#[test]
fn duplicate_names_each_get_their_own_index() {
    let plan = ResourceActs::new()
        .add("Twin".to_string())
        .add("Twin".to_string())
        .build();
    assert_eq!(plan.state.names, vec!["Twin", "Twin"]);
    assert_eq!(plan.attach.len(), 2);
    assert_eq!(plan.attach[0].index, 0);
    assert_eq!(plan.attach[1].index, 1);
}

#[test]
fn toggle_flips_exactly_one_flag() {
    let mut state = three_names().build().state;
    state.toggle(1);
    assert_eq!(state.visible, vec![false, true, false]);
    assert_eq!(state.names, vec!["Alpha", "Beta", "Gamma"]);
    state.toggle(0);
    assert_eq!(state.visible, vec![true, true, false]);
}

#[test]
fn toggle_is_its_own_inverse() {
    let mut state = three_names().build().state;
    state.toggle(2);
    state.toggle(2);
    assert_eq!(state.visible, vec![false, false, false]);
    assert_eq!(state.names, vec!["Alpha", "Beta", "Gamma"]);
}

#[test]
fn activation_truth_table() {
    let mut state = three_names().build().state;
    state.toggle(0);
    let on = ActivationCondition { index: 0 };
    let off = ActivationCondition { index: 1 };
    assert!(on.evaluate(true, &state));
    assert!(!on.evaluate(false, &state));
    assert!(!off.evaluate(true, &state));
    assert!(!off.evaluate(false, &state));
}

#[test]
fn invoking_with_empty_registry_never_opens_a_prompt() {
    let plan = ResourceActs::new().build();
    let mut cmd = plan.command;
    let action = cmd.invoke(&plan.state);
    match action {
        InvokeAction::ShowMessage { text } => {
            assert_eq!(text, "No resources registered.");
        }
        InvokeAction::OpenPrompt { .. } => panic!("a prompt was opened for an empty registry"),
    }
    assert!(matches!(cmd.mode, PromptMode::Idle));
}

#[test]
fn invoking_opens_a_prompt_seeded_with_the_names() {
    let plan = three_names().build();
    let mut cmd = plan.command;
    let action = cmd.invoke(&plan.state);
    match action {
        InvokeAction::OpenPrompt { label, names } => {
            assert_eq!(label, "resource: ");
            assert_eq!(names, vec!["Alpha", "Beta", "Gamma"]);
        }
        InvokeAction::ShowMessage { .. } => panic!("no prompt was opened"),
    }
    assert!(matches!(cmd.mode, PromptMode::PromptOpen));
}

#[test]
fn selecting_beta_flips_only_beta() {
    let mut plan = three_names().build();
    let mut cmd = plan.command;
    let action = cmd.invoke(&plan.state);
    let names = match action {
        InvokeAction::OpenPrompt { names, .. } => names,
        InvokeAction::ShowMessage { .. } => panic!("no prompt was opened"),
    };
    let index = index_of_name(&names, &"Beta".to_string()).expect("Beta is registered");
    let outcome = SelectionOutcome::Selected { index };
    let action = cmd.resolve(&mut plan.state, outcome);
    assert!(matches!(action, ResolveAction::Dismiss));
    assert_eq!(plan.state.visible, vec![false, true, false]);
    assert!(matches!(cmd.mode, PromptMode::Idle));
}

#[test]
fn cancelling_the_prompt_changes_nothing_and_surfaces_the_error() {
    let mut plan = three_names().build();
    let mut cmd = plan.command;
    let _ = cmd.invoke(&plan.state);
    let outcome = SelectionOutcome::Failed { message: "cancelled".to_string() };
    let action = cmd.resolve(&mut plan.state, outcome);
    match action {
        ResolveAction::ShowError { text } => assert_eq!(text, "cancelled"),
        _ => panic!("the failure was not surfaced"),
    }
    assert_eq!(plan.state.visible, vec![false, false, false]);
    assert!(matches!(cmd.mode, PromptMode::Idle));
}

#[test]
fn out_of_range_selection_is_an_internal_fault() {
    let mut plan = three_names().build();
    let mut cmd = plan.command;
    let _ = cmd.invoke(&plan.state);
    let action = cmd.resolve(&mut plan.state, SelectionOutcome::Selected { index: 7 });
    assert!(matches!(action, ResolveAction::InternalFault));
    assert_eq!(plan.state.visible, vec![false, false, false]);
    assert!(matches!(cmd.mode, PromptMode::Idle));
}

#[test]
fn finalize_attaches_one_gate_per_item_and_one_command() {
    let acts = three_names();
    let before = acts.command.prompt_label.clone();
    let plan = acts.build();
    assert_eq!(plan.attach.len(), 3);
    for (i, gate) in plan.attach.iter().enumerate() {
        assert_eq!(gate.index, i);
    }
    assert_eq!(plan.command.prompt_label, before);
    assert!(matches!(plan.command.mode, PromptMode::Idle));
}

#[test]
fn adding_items_never_touches_the_command() {
    let acts = ResourceActs::new();
    assert_eq!(acts.command.prompt_label, "resource: ");
    assert_eq!(acts.command.empty_message, "No resources registered.");
    let acts = acts.add("One".to_string()).add("Two".to_string());
    assert_eq!(acts.command.prompt_label, "resource: ");
    assert_eq!(acts.command.empty_message, "No resources registered.");
    assert!(matches!(acts.command.mode, PromptMode::Idle));
}

#[test]
fn index_of_name_takes_the_first_match() {
    let names = vec!["A".to_string(), "B".to_string(), "B".to_string()];
    assert_eq!(index_of_name(&names, &"B".to_string()), Some(1));
    assert_eq!(index_of_name(&names, &"A".to_string()), Some(0));
    assert_eq!(index_of_name(&names, &"C".to_string()), None);
}

#[test]
fn registry_can_be_driven_directly() {
    let registry = Registry::new().add("only".to_string());
    let command = ToggleCommand::new("item: ".to_string(), "No items registered.".to_string());
    let plan = registry.build(command);
    assert_eq!(plan.state.names, vec!["only"]);
    assert_eq!(plan.command.prompt_label, "item: ");
    assert!(!plan.empty_warning);
}

#[test]
fn registry_state_accessors_agree_with_the_lists() {
    let mut state = RegistryState::new();
    assert_eq!(state.len(), 0);
    state = three_names().build().state;
    assert_eq!(state.len(), 3);
    assert_eq!(state.name_at(1), "Beta");
    assert!(!state.is_visible(1));
    state.toggle(1);
    assert!(state.is_visible(1));
}

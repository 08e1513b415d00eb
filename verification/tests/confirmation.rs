use pane_confirm::controller::ConfirmState;
use pane_confirm::controller::ConfirmationController;
use pane_confirm::controller::FlowVariant;
use pane_confirm::controller::HostAction;
use pane_confirm::dispatch::HostEvent;
use pane_confirm::dispatch::PluginCore;
use pane_confirm::keys::KeyBindings;
use pane_confirm::keys::KeyCode;
use pane_confirm::keys::KeyIdentity;
use pane_confirm::registry::PaneInfo;

fn key(code: KeyCode) -> KeyIdentity {
    KeyIdentity::plain(code)
}

fn pane(id: u32, title: &str, focused: bool) -> PaneInfo {
    PaneInfo { id, title: title.to_string(), is_focused: focused }
}

#[test]
fn default_bindings_values() {
    let b = KeyBindings::defaults();
    assert_eq!(b.confirm, key(KeyCode::Enter));
    assert_eq!(b.cancel, key(KeyCode::Esc));
    assert_eq!(b.accept, key(KeyCode::Char('y')));
}

#[test]
fn two_key_default_bindings_values() {
    let b = KeyBindings::two_key_defaults();
    assert_eq!(b.confirm, key(KeyCode::Char('y')));
    assert_eq!(b.cancel, key(KeyCode::Char('n')));
}

#[test]
fn overrides_apply_and_missing_ones_fall_back() {
    let b = KeyBindings::defaults().with_overrides(Some(key(KeyCode::Char('q'))), None, None);
    assert_eq!(b.confirm, key(KeyCode::Char('q')));
    assert_eq!(b.cancel, key(KeyCode::Esc));
    assert_eq!(b.accept, key(KeyCode::Char('y')));
}

#[test]
fn three_key_scenario_accept_then_confirm() {
    let mut core = PluginCore::load(FlowVariant::ThreeKey, None, None, None);
    let (actions, redraw) = core.update(&HostEvent::PaneUpdate(vec![(
        0,
        vec![pane(7, "shell", true)],
    )]));
    assert!(actions.is_empty());
    assert!(redraw);
    assert_eq!(core.registry.target(), Some(7));

    let (actions, redraw) = core.update(&HostEvent::Key(key(KeyCode::Char('y'))));
    assert_eq!(core.controller.state, ConfirmState::AwaitingConfirmation);
    assert!(redraw);
    assert!(actions.is_empty());

    let (actions, redraw) = core.update(&HostEvent::Key(key(KeyCode::Enter)));
    assert_eq!(actions, vec![HostAction::ClosePane(7), HostAction::HideSelf]);
    assert_eq!(core.controller.state, ConfirmState::Hidden);
    assert!(redraw);
}

#[test]
fn confirm_with_no_target_is_a_noop_two_key() {
    let bindings = KeyBindings::two_key_defaults();
    let mut c = ConfirmationController::new(FlowVariant::TwoKey);
    let (actions, redraw) = c.handle_key(&bindings, &key(KeyCode::Char('y')), None);
    assert!(actions.is_empty());
    assert!(!redraw);
    assert_eq!(c.state, ConfirmState::Idle);
}

#[test]
fn accept_with_no_target_closes_nothing_three_key() {
    let bindings = KeyBindings::defaults();
    let mut c = ConfirmationController::new(FlowVariant::ThreeKey);
    let (actions, redraw) = c.handle_key(&bindings, &key(KeyCode::Char('y')), None);
    assert!(actions.is_empty());
    assert!(redraw);
    assert_eq!(c.state, ConfirmState::AwaitingConfirmation);
    let (actions, _) = c.handle_key(&bindings, &key(KeyCode::Enter), None);
    assert!(actions.is_empty());
    assert_eq!(c.state, ConfirmState::AwaitingConfirmation);
}

#[test]
fn two_key_confirm_with_target_closes_and_hides() {
    let bindings = KeyBindings::two_key_defaults();
    let mut c = ConfirmationController::new(FlowVariant::TwoKey);
    let (actions, redraw) = c.handle_key(&bindings, &key(KeyCode::Char('y')), Some(4));
    assert_eq!(actions, vec![HostAction::ClosePane(4), HostAction::HideSelf]);
    assert!(redraw);
    assert_eq!(c.state, ConfirmState::Hidden);
}

#[test]
fn cancel_terminates_from_idle() {
    let bindings = KeyBindings::defaults();
    let mut c = ConfirmationController::new(FlowVariant::TwoKey);
    let (actions, redraw) = c.handle_key(&bindings, &key(KeyCode::Esc), Some(4));
    assert_eq!(actions, vec![HostAction::HideSelf]);
    assert!(!redraw);
    assert_eq!(c.state, ConfirmState::Hidden);
}

#[test]
fn cancel_terminates_from_awaiting_confirmation() {
    let bindings = KeyBindings::defaults();
    let mut c = ConfirmationController::new(FlowVariant::ThreeKey);
    c.handle_key(&bindings, &key(KeyCode::Char('y')), Some(4));
    assert_eq!(c.state, ConfirmState::AwaitingConfirmation);
    let (actions, _) = c.handle_key(&bindings, &key(KeyCode::Esc), Some(4));
    assert_eq!(actions, vec![HostAction::HideSelf]);
    assert_eq!(c.state, ConfirmState::Hidden);
}

#[test]
fn cancel_terminates_in_diagnostic_flow() {
    let bindings = KeyBindings::defaults();
    let mut c = ConfirmationController::new(FlowVariant::Diagnostic);
    let (actions, _) = c.handle_key(&bindings, &key(KeyCode::Esc), None);
    assert_eq!(actions, vec![HostAction::HideSelf]);
    assert_eq!(c.state, ConfirmState::Hidden);
}

#[test]
fn hidden_state_ignores_every_key() {
    let bindings = KeyBindings::defaults();
    let mut c = ConfirmationController::new(FlowVariant::ThreeKey);
    c.handle_key(&bindings, &key(KeyCode::Esc), Some(4));
    assert_eq!(c.state, ConfirmState::Hidden);
    let (actions, redraw) = c.handle_key(&bindings, &key(KeyCode::Enter), Some(4));
    assert!(actions.is_empty());
    assert!(!redraw);
    assert_eq!(c.state, ConfirmState::Hidden);
    let (actions, _) = c.handle_key(&bindings, &key(KeyCode::Esc), Some(4));
    assert!(actions.is_empty());
}

#[test]
fn diagnostic_confirm_emits_payload_without_transition() {
    let bindings = KeyBindings::defaults();
    let mut c = ConfirmationController::new(FlowVariant::Diagnostic);
    let (actions, redraw) = c.handle_key(&bindings, &key(KeyCode::Enter), Some(4));
    assert_eq!(actions, vec![HostAction::EmitDiagnostic]);
    assert!(!redraw);
    assert_eq!(c.state, ConfirmState::Idle);
}

#[test]
fn unbound_key_is_ignored_without_redraw() {
    let bindings = KeyBindings::defaults();
    let mut c = ConfirmationController::new(FlowVariant::ThreeKey);
    let (actions, redraw) = c.handle_key(&bindings, &key(KeyCode::Char('x')), Some(4));
    assert!(actions.is_empty());
    assert!(!redraw);
    assert_eq!(c.state, ConfirmState::Idle);
}

#[test]
fn load_applies_overrides_over_defaults() {
    let core = PluginCore::load(
        FlowVariant::ThreeKey,
        Some(key(KeyCode::Char('q'))),
        None,
        Some(key(KeyCode::Char('a'))),
    );
    assert_eq!(core.bindings.confirm, key(KeyCode::Char('q')));
    assert_eq!(core.bindings.cancel, key(KeyCode::Esc));
    assert_eq!(core.bindings.accept, key(KeyCode::Char('a')));
    assert_eq!(core.controller.state, ConfirmState::Idle);
}

#[test]
fn default_core_matches_compiled_in_state() {
    let core = PluginCore::default();
    assert_eq!(core.bindings, KeyBindings::defaults());
    assert_eq!(core.controller.variant, FlowVariant::ThreeKey);
    assert_eq!(core.controller.state, ConfirmState::Idle);
    assert_eq!(core.registry.focused(), None);
    assert_eq!(core.registry.panes.len(), 0);
}

#[test]
fn unknown_events_are_accepted_and_ignored() {
    let mut core = PluginCore::default();
    let (actions, redraw) = core.update(&HostEvent::Other);
    assert!(actions.is_empty());
    assert!(!redraw);
    assert_eq!(core.controller.state, ConfirmState::Idle);
}

#[test]
fn key_event_leaves_registry_untouched() {
    let mut core = PluginCore::load(FlowVariant::ThreeKey, None, None, None);
    core.update(&HostEvent::PaneUpdate(vec![(0, vec![pane(7, "shell", true)])]));
    core.update(&HostEvent::Key(key(KeyCode::Char('y'))));
    assert_eq!(core.registry.target(), Some(7));
    assert_eq!(core.registry.panes.len(), 1);
}

#[test]
fn tab_update_requests_redraw() {
    let mut core = PluginCore::default();
    let (actions, redraw) = core.update(&HostEvent::TabUpdate(vec![]));
    assert!(actions.is_empty());
    assert!(redraw);
}

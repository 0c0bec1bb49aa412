use sparsha::accessibility::AccessibilityAction;
use sparsha::context::EventCommands;
use sparsha::events::StandardAction;
use sparsha::platform::{PlatformEffect, PlatformEffects};
use sparsha::runtime::{
    finish_platform_update, focus_will_change, move_focus_path, remap_path, route_input_event,
    settle_accessibility_action, settle_before_wait, settle_dispatch, settle_focus_navigation,
    InputRoute, RuntimeFlags,
};

fn order() -> Vec<Vec<usize>> {
    vec![vec![0], vec![0, 1], vec![2]]
}

fn flags() -> RuntimeFlags {
    RuntimeFlags { needs_layout: false, needs_repaint: false, ime_composing: true }
}

#[test]
fn focus_moves_forward_and_wraps() {
    let order = order();
    assert_eq!(move_focus_path(None, &order, true), Some(vec![0]));
    assert_eq!(move_focus_path(Some(&[0]), &order, true), Some(vec![0, 1]));
    assert_eq!(move_focus_path(Some(&[2]), &order, true), Some(vec![0]));
}

#[test]
fn focus_moves_backward_and_wraps() {
    let order = order();
    assert_eq!(move_focus_path(None, &order, false), Some(vec![2]));
    assert_eq!(move_focus_path(Some(&[0]), &order, false), Some(vec![2]));
    assert_eq!(move_focus_path(Some(&[0, 1]), &order, false), Some(vec![0]));
}

#[test]
fn focus_from_unknown_path_enters_at_the_ends() {
    let order = order();
    assert_eq!(move_focus_path(Some(&[9]), &order, true), Some(vec![0]));
    assert_eq!(move_focus_path(Some(&[9]), &order, false), Some(vec![2]));
    assert_eq!(move_focus_path(Some(&[0]), &Vec::new(), true), None);
}

#[test]
fn focus_forward_then_backward_returns() {
    let order = order();
    for start in &order {
        let next = move_focus_path(Some(start), &order, true).unwrap();
        assert_eq!(move_focus_path(Some(&next), &order, false).as_ref(), Some(start));
    }
}

#[test]
fn remap_keeps_only_mounted_paths() {
    let active = order();
    assert_eq!(remap_path(Some(vec![0, 1]), &active), Some(vec![0, 1]));
    assert_eq!(remap_path(Some(vec![5]), &active), None);
    assert_eq!(remap_path(None, &active), None);
}

#[test]
fn focus_changes_only_between_different_paths() {
    assert!(!focus_will_change(Some(&[1, 2]), Some(&[1, 2])));
    assert!(focus_will_change(Some(&[1, 2]), Some(&[1])));
    assert!(focus_will_change(None, Some(&[1])));
    assert!(focus_will_change(Some(&[1]), None));
    assert!(!focus_will_change(None, None));
}

#[test]
fn input_routing_handles_focus_keys_and_paste() {
    assert!(matches!(
        route_input_event(Some(StandardAction::FocusNext), false, None),
        InputRoute::MoveFocus { forward: true }
    ));
    assert!(matches!(
        route_input_event(Some(StandardAction::FocusPrevious), true, None),
        InputRoute::MoveFocus { forward: false }
    ));
    assert!(matches!(
        route_input_event(Some(StandardAction::Paste), true, Some("clip".to_owned())),
        InputRoute::DispatchPaste { ref text } if text == "clip"
    ));
    assert!(matches!(route_input_event(Some(StandardAction::Paste), true, None), InputRoute::Drop));
    assert!(matches!(route_input_event(Some(StandardAction::Paste), false, None), InputRoute::Dispatch));
    assert!(matches!(route_input_event(None, true, None), InputRoute::Dispatch));
}

#[test]
fn focus_navigation_syncs_text_input_only_on_change() {
    let mut f = flags();
    let effects = settle_focus_navigation(true, &mut f);
    assert!(matches!(effects.iter(), [PlatformEffect::SyncTextInput]));
    assert!(!f.ime_composing && f.needs_repaint);
    let mut g = flags();
    assert!(settle_focus_navigation(false, &mut g).is_empty());
    assert!(g.ime_composing && !g.needs_repaint);
}

#[test]
fn dispatch_effects_follow_the_commands() {
    let mut commands = EventCommands::none();
    commands.request_focus = true;
    commands.capture_pointer();
    commands.write_clipboard("copied".to_owned());
    commands.request_layout();
    let mut f = flags();
    let effects = settle_dispatch(commands, true, false, &mut f);
    let list = effects.iter();
    assert_eq!(list.len(), 3);
    assert!(matches!(list[0], PlatformEffect::SyncTextInput));
    assert!(matches!(list[1], PlatformEffect::SyncPointerCapture));
    assert!(matches!(list[2], PlatformEffect::WriteClipboard(ref t) if t == "copied"));
    assert!(f.needs_layout && f.needs_repaint && !f.ime_composing);
}

#[test]
fn dispatch_keeps_composition_while_an_editor_holds_focus() {
    let mut commands = EventCommands::none();
    commands.request_focus = true;
    let mut f = flags();
    let effects = settle_dispatch(commands, true, true, &mut f);
    assert_eq!(effects.iter().len(), 1);
    assert!(f.ime_composing && f.needs_repaint);

    let mut g = flags();
    let none = settle_dispatch(EventCommands::none(), false, false, &mut g);
    assert!(none.is_empty());
    assert!(g.ime_composing && !g.needs_repaint && !g.needs_layout);
}

#[test]
fn accessibility_requests_repaint_when_handled() {
    let mut f = flags();
    let effects = settle_accessibility_action(AccessibilityAction::SetValue, false, true, &mut f);
    assert!(effects.is_empty());
    assert!(f.needs_layout && f.needs_repaint);

    let mut g = flags();
    settle_accessibility_action(AccessibilityAction::Click, false, true, &mut g);
    assert!(!g.needs_layout && g.needs_repaint);

    let mut h = flags();
    let effects = settle_accessibility_action(AccessibilityAction::Focus, true, false, &mut h);
    assert!(matches!(effects.iter(), [PlatformEffect::SyncTextInput]));
    assert!(!h.ime_composing && h.needs_repaint);

    let mut k = flags();
    settle_accessibility_action(AccessibilityAction::Click, false, false, &mut k);
    assert!(!k.needs_repaint && !k.needs_layout && k.ime_composing);
}

#[test]
fn every_platform_update_ends_with_accessibility_sync() {
    let mut effects = PlatformEffects::new();
    effects.push(PlatformEffect::SyncPointerCapture);
    let done = finish_platform_update(effects);
    let list = done.iter();
    assert_eq!(list.len(), 2);
    assert!(matches!(list[1], PlatformEffect::SyncAccessibility));
}

#[test]
fn idle_loop_redraws_for_pending_work() {
    let mut f = RuntimeFlags { needs_layout: false, needs_repaint: false, ime_composing: false };
    assert!(!settle_before_wait(&mut f, false, false, false, false, false));
    assert!(settle_before_wait(&mut f, false, false, false, false, true));
    assert!(!f.needs_layout && !f.needs_repaint);
    assert!(settle_before_wait(&mut f, true, false, false, false, false));
    assert!(f.needs_layout && !f.needs_repaint);
    let mut g = RuntimeFlags { needs_layout: false, needs_repaint: false, ime_composing: true };
    assert!(settle_before_wait(&mut g, false, false, false, true, false));
    assert!(g.needs_repaint && g.ime_composing);
}

#[test]
fn tabbing_through_every_widget_returns_to_the_start() {
    let order = order();
    for start in &order {
        let mut current = start.clone();
        for _ in 0..order.len() {
            current = move_focus_path(Some(&current), &order, true).unwrap();
        }
        assert_eq!(&current, start);
    }
}

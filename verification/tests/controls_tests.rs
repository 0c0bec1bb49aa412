use sparsha::accessibility::AccessibilityAction;
use sparsha::context::EventCommands;
use sparsha::control_state::{
    accessibility_click, button_state, handle_checkbox_event, handle_press_event, restored_checked,
    toggled_checked, ButtonState, CheckboxBuildState, ControlState, PressEvent,
};
use sparsha::editor::{restore_editor_build_state, EditorBuildState};

fn dispatch(
    interaction: &mut ControlState,
    commands: &mut EventCommands,
    disabled: bool,
    has_focus: bool,
    event: PressEvent,
) -> bool {
    let response = handle_press_event(interaction, disabled, has_focus, event);
    response.apply(commands);
    response.activated
}

#[test]
fn state_transition_pointer_move_inside_then_hovered() {
    let mut interaction = ControlState::new();
    let mut commands = EventCommands::none();
    dispatch(&mut interaction, &mut commands, false, false, PressEvent::PointerMove { inside: true });
    assert_eq!(button_state(false, &interaction), ButtonState::Hovered);
    assert!(commands.request_paint);
}

#[test]
fn state_transition_pointer_move_outside_then_normal() {
    let mut interaction = ControlState::new();
    let mut commands = EventCommands::none();
    dispatch(&mut interaction, &mut commands, false, false, PressEvent::PointerMove { inside: true });
    assert_eq!(button_state(false, &interaction), ButtonState::Hovered);
    commands = EventCommands::none();
    dispatch(&mut interaction, &mut commands, false, false, PressEvent::PointerMove { inside: false });
    assert_eq!(button_state(false, &interaction), ButtonState::Normal);
}

#[test]
fn click_flow_down_inside_capture_then_up_fires_click() {
    let mut interaction = ControlState::new();
    let mut commands = EventCommands::none();
    let fired = dispatch(&mut interaction, &mut commands, false, false, PressEvent::PointerDown { inside: true });
    assert!(!fired);
    assert_eq!(button_state(false, &interaction), ButtonState::Pressed);
    assert!(commands.capture_pointer);
    assert!(commands.request_paint);
    assert!(commands.stop_propagation);

    commands = EventCommands::none();
    let clicked = dispatch(&mut interaction, &mut commands, false, false, PressEvent::PointerUp { inside: true });
    assert!(clicked);
    assert_eq!(button_state(false, &interaction), ButtonState::Hovered);
    assert!(commands.release_pointer);
    assert!(commands.request_paint);
}

#[test]
fn disabled_button_ignores_events() {
    let mut interaction = ControlState::new();
    let mut commands = EventCommands::none();
    dispatch(&mut interaction, &mut commands, true, false, PressEvent::PointerMove { inside: true });
    assert_eq!(button_state(true, &interaction), ButtonState::Disabled);
    assert_eq!(commands, EventCommands::default());

    dispatch(&mut interaction, &mut commands, true, false, PressEvent::PointerDown { inside: true });
    assert_eq!(button_state(true, &interaction), ButtonState::Disabled);
    assert_eq!(commands, EventCommands::default());
}

#[test]
fn keyboard_activate_with_focus_fires_click() {
    let mut interaction = ControlState::new();
    let mut commands = EventCommands::none();
    let clicked = dispatch(&mut interaction, &mut commands, false, true, PressEvent::KeyDown { activate: true });
    assert!(clicked);
    assert!(commands.stop_propagation);
    assert!(commands.request_paint);
}

#[test]
fn keyboard_activate_without_focus_does_nothing() {
    let mut interaction = ControlState::new();
    let mut commands = EventCommands::none();
    assert!(!dispatch(&mut interaction, &mut commands, false, false, PressEvent::KeyDown { activate: true }));
    assert!(!dispatch(&mut interaction, &mut commands, false, true, PressEvent::KeyDown { activate: false }));
    assert_eq!(commands, EventCommands::default());
}

/// Dispatch one event to a checkbox and run its toggle callback, recording the value.
fn checkbox_event(
    interaction: &mut ControlState,
    checked: &mut bool,
    commands: &mut EventCommands,
    toggled_with: &mut Vec<bool>,
    disabled: bool,
    has_focus: bool,
    event: PressEvent,
) {
    let (response, toggled) = handle_checkbox_event(interaction, checked, disabled, has_focus, event);
    response.apply(commands);
    if let Some(value) = toggled {
        toggled_with.push(value);
    }
}

#[test]
fn pointer_toggle_invokes_callback() {
    let mut interaction = ControlState::new();
    let mut checked = false;
    let mut toggled_with = Vec::new();
    let mut commands = EventCommands::none();
    checkbox_event(&mut interaction, &mut checked, &mut commands, &mut toggled_with, false, false, PressEvent::PointerDown { inside: true });
    assert!(commands.capture_pointer);

    commands = EventCommands::default();
    checkbox_event(&mut interaction, &mut checked, &mut commands, &mut toggled_with, false, false, PressEvent::PointerUp { inside: true });
    assert!(commands.release_pointer);
    assert!(checked);
    assert_eq!(toggled_with, vec![true]);
}

#[test]
fn keyboard_activate_toggles_when_focused() {
    let mut interaction = ControlState::new();
    let mut checked = false;
    let mut toggled_with = Vec::new();
    let mut commands = EventCommands::none();
    checkbox_event(&mut interaction, &mut checked, &mut commands, &mut toggled_with, false, true, PressEvent::KeyDown { activate: true });
    assert!(commands.stop_propagation);
    assert!(checked);
}

#[test]
fn disabled_checkbox_ignores_events() {
    let mut interaction = ControlState::new();
    let mut checked = false;
    let mut toggled_with = Vec::new();
    let mut commands = EventCommands::none();
    checkbox_event(&mut interaction, &mut checked, &mut commands, &mut toggled_with, true, false, PressEvent::PointerDown { inside: true });
    checkbox_event(&mut interaction, &mut checked, &mut commands, &mut toggled_with, true, false, PressEvent::PointerUp { inside: true });
    assert!(!checked);
    assert!(toggled_with.is_empty());
}

#[test]
fn toggling_flips_the_value_only_on_activation() {
    assert_eq!(toggled_checked(false, true), Some(true));
    assert_eq!(toggled_checked(true, true), Some(false));
    assert_eq!(toggled_checked(true, false), None);

    let mut interaction = ControlState::new();
    let mut checked = true;
    let mut toggled_with = Vec::new();
    let mut commands = EventCommands::none();
    checkbox_event(&mut interaction, &mut checked, &mut commands, &mut toggled_with, false, true, PressEvent::KeyDown { activate: true });
    checkbox_event(&mut interaction, &mut checked, &mut commands, &mut toggled_with, false, true, PressEvent::KeyDown { activate: true });
    checkbox_event(&mut interaction, &mut checked, &mut commands, &mut toggled_with, false, true, PressEvent::KeyDown { activate: false });
    assert!(checked);
    assert_eq!(toggled_with, vec![false, true]);
}

#[test]
fn release_outside_cancels_the_click() {
    let mut interaction = ControlState::new();
    let mut commands = EventCommands::none();
    dispatch(&mut interaction, &mut commands, false, false, PressEvent::PointerDown { inside: true });
    commands = EventCommands::none();
    let clicked = dispatch(&mut interaction, &mut commands, false, false, PressEvent::PointerUp { inside: false });
    assert!(!clicked);
    assert!(commands.release_pointer);
    assert_eq!(button_state(false, &interaction), ButtonState::Normal);
    commands = EventCommands::none();
    assert!(!dispatch(&mut interaction, &mut commands, false, false, PressEvent::PointerUp { inside: true }));
    assert_eq!(commands, EventCommands::default());
}

#[test]
fn control_state_tracks_hover_and_press() {
    let mut state = ControlState::new();
    assert!(!state.hovered() && !state.pressed());
    assert!(state.pointer_move(true));
    assert!(!state.pointer_move(true));
    assert!(!state.pointer_down(false));
    assert!(state.pointer_down(true));
    assert!(!state.pointer_down(true));
    assert!(state.pointer_up(true));
    assert!(!state.pointer_up(true));
    state.clear_interaction();
    assert!(!state.hovered() && !state.pressed());
    assert_eq!(ButtonState::default(), ButtonState::Normal);
}

#[test]
fn accessibility_click_requires_enabled_control() {
    assert!(accessibility_click(false, AccessibilityAction::Click));
    assert!(!accessibility_click(true, AccessibilityAction::Click));
    assert!(!accessibility_click(false, AccessibilityAction::Focus));
}

#[test]
fn checkbox_rebuild_keeps_toggle_for_same_declaration() {
    let stored = CheckboxBuildState { checked: true, declared_checked: false };
    assert!(restored_checked(false, false, Some(stored)));
    assert!(restored_checked(true, true, Some(stored)));
    assert!(!restored_checked(false, true, Some(CheckboxBuildState { checked: false, declared_checked: true })));
    assert!(!restored_checked(false, false, None));
}

#[test]
fn matching_editor_build_state_restores_editor() {
    let mut restored = String::new();
    let stored = EditorBuildState { editor: "hello".to_owned(), declared_value: None, multiline: false };
    restore_editor_build_state(&mut restored, &None, false, Some(stored));
    assert_eq!(restored, "hello");
}

#[test]
fn editor_build_state_does_not_restore_across_single_and_multiline_modes() {
    let mut restored = String::new();
    let stored = EditorBuildState { editor: "hello".to_owned(), declared_value: None, multiline: false };
    restore_editor_build_state(&mut restored, &None, true, Some(stored));
    assert_eq!(restored, "");
}

#[test]
fn editor_build_state_does_not_restore_across_declared_values() {
    let mut restored = String::from("fresh");
    let stored = EditorBuildState {
        editor: "typed".to_owned(),
        declared_value: Some("a".to_owned()),
        multiline: true,
    };
    restore_editor_build_state(&mut restored, &Some("b".to_owned()), true, Some(stored));
    assert_eq!(restored, "fresh");
    let stored = EditorBuildState {
        editor: "typed".to_owned(),
        declared_value: Some("a".to_owned()),
        multiline: true,
    };
    restore_editor_build_state(&mut restored, &Some("a".to_owned()), true, Some(stored));
    assert_eq!(restored, "typed");
}

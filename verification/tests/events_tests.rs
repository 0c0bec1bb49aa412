use sparsha::events::{
    ime_composing_after, window_focus_ime, ImeEvent, InputEvent, Key, KeyboardEvent, Modifiers, MouseButton, NamedKey, NativeEventTranslator,
    NativeKey, NativeNamedKey, PointerButton, StandardAction, WebEventTranslator,
};
use sparsha::platform::{PlatformId, ShortcutProfile};

fn key_down(key: Key) -> KeyboardEvent {
    KeyboardEvent { key, modifiers: Modifiers::empty(), repeat: false }
}

#[test]
fn web_shortcut_dispatch_uses_explicit_command_profile() {
    let translator = WebEventTranslator::new();
    let dispatch =
        translator.translate_key_down("c", false, false, false, true, true, Some(StandardAction::Copy));
    assert!(!dispatch.prevent_default);
    assert!(matches!(dispatch.keyboard_event, Some(InputEvent::KeyDown { .. })));
}

#[test]
fn web_tab_focus_navigation_prevents_browser_default_outside_text_editors() {
    let translator = WebEventTranslator::new();
    let dispatch = translator.translate_key_down(
        "Tab",
        false,
        false,
        false,
        false,
        false,
        Some(StandardAction::FocusNext),
    );
    assert!(dispatch.prevent_default);
}

#[test]
fn web_plain_printable_keys_stay_in_browser_for_text_editors() {
    let translator = WebEventTranslator::new();
    let dispatch = translator.translate_key_down("h", false, false, false, false, true, None);
    assert!(dispatch.keyboard_event.is_none());
    assert!(dispatch.text_event.is_none());
}

#[test]
fn web_navigation_keys_still_flow_to_text_editors() {
    let translator = WebEventTranslator::new();
    let dispatch = translator.translate_key_down(
        "ArrowLeft",
        false,
        false,
        false,
        false,
        true,
        Some(StandardAction::MoveLeft),
    );
    assert!(matches!(dispatch.keyboard_event, Some(InputEvent::KeyDown { .. })));
    assert!(dispatch.prevent_default);
}

#[test]
fn web_plain_printable_keys_become_text_outside_editors() {
    let translator = WebEventTranslator::new();
    let dispatch = translator.translate_key_down("h", false, false, false, false, false, None);
    assert!(matches!(dispatch.keyboard_event, Some(InputEvent::KeyDown { .. })));
    assert!(matches!(dispatch.text_event, Some(InputEvent::TextInput { ref text }) if text == "h"));
    assert!(!dispatch.prevent_default);
}

#[test]
fn browser_key_mapping_normalizes_space_to_character() {
    let translator = WebEventTranslator::new();
    assert!(matches!(translator.map_key(" "), Some(Key::Character(ref s)) if s == " "));
}

#[test]
fn browser_key_mapping_keeps_named_navigation_keys() {
    let translator = WebEventTranslator::new();
    assert!(matches!(translator.map_key("Enter"), Some(Key::Named(NamedKey::Enter))));
    assert!(matches!(translator.map_key("ArrowLeft"), Some(Key::Named(NamedKey::ArrowLeft))));
    assert!(translator.map_key("Shift").is_none());
}

#[test]
fn text_editor_keydown_skips_plain_printable_keys_but_keeps_shortcuts() {
    let translator = WebEventTranslator::new();
    assert!(!translator.should_forward_keydown_to_widget_tree(true, " ", false, false, false));
    assert!(!translator.should_forward_keydown_to_widget_tree(true, "h", false, false, false));
    assert!(translator.should_forward_keydown_to_widget_tree(true, "Enter", false, false, false));
    assert!(translator.should_forward_keydown_to_widget_tree(true, "Backspace", false, false, false));
    assert!(translator.should_forward_keydown_to_widget_tree(true, "v", true, false, false));
}

#[test]
fn text_editor_keydown_prevention_leaves_clipboard_shortcuts_to_browser() {
    let translator = WebEventTranslator::new();
    let nav = key_down(Key::Named(NamedKey::Backspace));
    assert!(translator.should_prevent_keydown_for_text_editor_action(&nav, StandardAction::Backspace));
    let mv = key_down(Key::Named(NamedKey::ArrowLeft));
    assert!(translator.should_prevent_keydown_for_text_editor_action(&mv, StandardAction::MoveLeft));
    let copy = key_down(Key::Character("c".to_owned()));
    assert!(!translator.should_prevent_keydown_for_text_editor_action(&copy, StandardAction::Copy));
    let cut = key_down(Key::Character("x".to_owned()));
    assert!(!translator.should_prevent_keydown_for_text_editor_action(&cut, StandardAction::Cut));
    let paste = key_down(Key::Character("v".to_owned()));
    assert!(!translator.should_prevent_keydown_for_text_editor_action(&paste, StandardAction::Paste));
    let enter = key_down(Key::Named(NamedKey::Enter));
    assert!(translator.should_prevent_keydown_for_text_editor_action(&enter, StandardAction::Activate));
    let space = key_down(Key::Character(" ".to_owned()));
    assert!(!translator.should_prevent_keydown_for_text_editor_action(&space, StandardAction::Activate));
}

#[test]
fn web_translator_uses_command_profile_and_maps_buttons() {
    let translator = WebEventTranslator::new();
    assert_eq!(translator.platform_id(), PlatformId::Web);
    assert_eq!(translator.shortcut_profile(), ShortcutProfile::CommandPrimary);
    assert_eq!(translator.map_mouse_button(0), PointerButton::Primary);
    assert_eq!(translator.map_mouse_button(1), PointerButton::Auxiliary);
    assert_eq!(translator.map_mouse_button(2), PointerButton::Secondary);
    assert_eq!(translator.map_mouse_button(7), PointerButton::Primary);
    let m = translator.modifiers_from_flags(true, false, true, false);
    assert!(m.shift && !m.ctrl && m.alt && !m.meta);
}

#[test]
fn web_text_input_events_require_a_focused_editor() {
    let translator = WebEventTranslator::new();
    assert!(matches!(
        translator.translate_before_input("insertText", Some("a".to_owned()), false, true),
        Some(InputEvent::TextInput { ref text }) if text == "a"
    ));
    assert!(translator.translate_before_input("insertText", Some("a".to_owned()), true, true).is_none());
    assert!(translator.translate_before_input("insertText", Some("a".to_owned()), false, false).is_none());
    assert!(translator.translate_before_input("deleteContent", None, false, true).is_none());
    assert!(matches!(translator.translate_composition_start(false, true), Some(InputEvent::CompositionStart)));
    assert!(translator.translate_composition_start(true, true).is_none());
    assert!(matches!(
        translator.translate_composition_end("x".to_owned(), false, true),
        Some(InputEvent::CompositionEnd { ref text }) if text == "x"
    ));
    assert!(matches!(
        translator.translate_paste(Some("p".to_owned()), true),
        Some(InputEvent::Paste { ref text }) if text == "p"
    ));
    assert!(translator.translate_paste(Some("p".to_owned()), false).is_none());
    assert!(translator.translate_paste(None, true).is_none());
}

#[test]
fn native_text_emission_respects_shortcut_profile() {
    let mac = NativeEventTranslator::new(PlatformId::MacOs);
    assert!(!mac.should_emit_text("c", Modifiers::meta_only()));

    let linux = NativeEventTranslator::new(PlatformId::Linux);
    assert!(!linux.should_emit_text("c", Modifiers::control_only()));
    assert!(linux.should_emit_text("c", Modifiers::shift_only()));
}

#[test]
fn native_keyboard_translation_normalizes_space() {
    let translator = NativeEventTranslator::new(PlatformId::Linux);
    let dispatch = translator.translate_keyboard(
        &NativeKey::Named(NativeNamedKey::Space),
        true,
        Modifiers::empty(),
        false,
        Some(" "),
    );
    assert!(matches!(
        dispatch.keyboard_event,
        Some(InputEvent::KeyDown { event: KeyboardEvent { key: Key::Character(ref value), .. } }) if value == " "
    ));
    assert!(matches!(dispatch.text_event, Some(InputEvent::TextInput { ref text }) if text == " "));
}

#[test]
fn native_key_mapping_normalizes_space_to_character() {
    let translator = NativeEventTranslator::new(PlatformId::Linux);
    let mapped = translator.map_key(&NativeKey::Named(NativeNamedKey::Space));
    assert!(matches!(mapped, Some(Key::Character(ref s)) if s == " "));
}

#[test]
fn native_text_emission_allows_plain_space() {
    let translator = NativeEventTranslator::new(PlatformId::Linux);
    assert!(translator.should_emit_text(" ", Modifiers::empty()));
}

#[test]
fn native_text_emission_rejects_primary_shortcuts_and_alt_text() {
    let linux = NativeEventTranslator::new(PlatformId::Linux);
    assert!(!linux.should_emit_text(" ", Modifiers::control_only()));
    assert!(!linux.should_emit_text(" ", Modifiers::alt_only()));
    let mac = NativeEventTranslator::new(PlatformId::MacOs);
    assert!(!mac.should_emit_text(" ", Modifiers::meta_only()));
    assert!(!mac.should_emit_text(" ", Modifiers::alt_only()));
}

#[test]
fn native_text_emission_rejects_empty_and_control_text() {
    let translator = NativeEventTranslator::new(PlatformId::Windows);
    assert!(!translator.should_emit_text("", Modifiers::empty()));
    assert!(!translator.should_emit_text("\u{8}", Modifiers::empty()));
    assert!(translator.should_emit_text("é", Modifiers::shift_only()));
}

#[test]
fn native_key_release_and_repeat_emit_no_text() {
    let translator = NativeEventTranslator::new(PlatformId::Linux);
    let up = translator.translate_keyboard(
        &NativeKey::Character("a".to_owned()),
        false,
        Modifiers::empty(),
        false,
        Some("a"),
    );
    assert!(matches!(up.keyboard_event, Some(InputEvent::KeyUp { .. })));
    assert!(up.text_event.is_none());
    let repeat = translator.translate_keyboard(
        &NativeKey::Character("a".to_owned()),
        true,
        Modifiers::empty(),
        true,
        Some("a"),
    );
    assert!(repeat.text_event.is_none());
    let unknown = translator.translate_keyboard(&NativeKey::Unidentified, true, Modifiers::empty(), false, None);
    assert!(unknown.keyboard_event.is_none());
}

#[test]
fn native_mouse_buttons_map_to_pointer_buttons() {
    let translator = NativeEventTranslator::new(PlatformId::Linux);
    assert_eq!(translator.map_mouse_button(MouseButton::Left), PointerButton::Primary);
    assert_eq!(translator.map_mouse_button(MouseButton::Right), PointerButton::Secondary);
    assert_eq!(translator.map_mouse_button(MouseButton::Middle), PointerButton::Auxiliary);
}

#[test]
fn native_preedit_opens_composition_once() {
    let translator = NativeEventTranslator::new(PlatformId::Linux);
    let opening = translator.translate_ime(&ImeEvent::Preedit("ka".to_owned()), false);
    assert_eq!(opening.len(), 2);
    assert!(matches!(opening[0], InputEvent::CompositionStart));
    assert!(matches!(opening[1], InputEvent::CompositionUpdate { ref text } if text == "ka"));
    let continuing = translator.translate_ime(&ImeEvent::Preedit("kan".to_owned()), true);
    assert_eq!(continuing.len(), 1);
    assert!(translator.translate_ime(&ImeEvent::Enabled, false).is_empty());
}

#[test]
fn ime_composition_state_follows_preedit_and_commit() {
    assert!(ime_composing_after(&ImeEvent::Preedit("a".to_owned()), false));
    assert!(!ime_composing_after(&ImeEvent::Commit("a".to_owned()), true));
    assert!(!ime_composing_after(&ImeEvent::Disabled, true));
    assert!(ime_composing_after(&ImeEvent::Enabled, true));
    assert!(!ime_composing_after(&ImeEvent::Enabled, false));
}

#[test]
fn window_focus_controls_the_input_method() {
    assert_eq!(window_focus_ime(true, true), (true, false));
    assert_eq!(window_focus_ime(true, false), (false, false));
    assert_eq!(window_focus_ime(false, true), (false, true));
}

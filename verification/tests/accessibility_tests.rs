use sparsha::accessibility::{AccessibilityAction, AccessibilityInfo, AccessibilityRole};

#[test]
fn metadata_methods_populate_accessibility_info() {
    let info = AccessibilityInfo::new(AccessibilityRole::Button)
        .label("Button label")
        .description("Helpful context")
        .value("42")
        .hidden(true);

    assert_eq!(info.label.as_deref(), Some("Button label"));
    assert_eq!(info.description.as_deref(), Some("Helpful context"));
    assert_eq!(info.value.as_deref(), Some("42"));
    assert_eq!(info.role, Some(AccessibilityRole::Button));
    assert!(info.hidden);
}

#[test]
fn actions_are_listed_once() {
    let info = AccessibilityInfo::new(AccessibilityRole::CheckBox)
        .checked(true)
        .disabled(false)
        .action(AccessibilityAction::Focus)
        .action(AccessibilityAction::Click)
        .action(AccessibilityAction::Focus);
    assert_eq!(info.actions, vec![AccessibilityAction::Focus, AccessibilityAction::Click]);
    assert_eq!(info.checked, Some(true));
}

#[test]
fn empty_info_has_no_metadata() {
    assert!(!AccessibilityInfo::default().has_metadata());
    assert!(AccessibilityInfo::new(AccessibilityRole::Button).has_metadata());
    let mut info = AccessibilityInfo::default();
    info = info.disabled(true);
    assert!(info.has_metadata());
    assert!(AccessibilityInfo::default().action(AccessibilityAction::Click).has_metadata());
}

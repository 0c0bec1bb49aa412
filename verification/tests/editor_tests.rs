use sparsha::context::EventCommands;
use sparsha::editor::{editor_op_for_action, settle_standard_action, EditorOp};
use sparsha::events::StandardAction;

#[test]
fn actions_map_to_editor_operations() {
    assert_eq!(editor_op_for_action(StandardAction::Delete, false), EditorOp::DeleteForward);
    assert_eq!(
        editor_op_for_action(StandardAction::SelectWordLeft, false),
        EditorOp::MoveWordLeft { extend: true }
    );
    assert_eq!(
        editor_op_for_action(StandardAction::MoveToEnd, true),
        EditorOp::MoveToEnd { extend: false }
    );
    assert_eq!(editor_op_for_action(StandardAction::Paste, true), EditorOp::Ignore);
    assert_eq!(editor_op_for_action(StandardAction::Activate, false), EditorOp::Ignore);
}

#[test]
fn vertical_moves_need_a_multiline_editor() {
    assert_eq!(editor_op_for_action(StandardAction::MoveUp, false), EditorOp::Ignore);
    assert_eq!(editor_op_for_action(StandardAction::SelectDown, false), EditorOp::Ignore);
    assert_eq!(
        editor_op_for_action(StandardAction::MoveUp, true),
        EditorOp::MoveUp { extend: false }
    );
    assert_eq!(
        editor_op_for_action(StandardAction::SelectDown, true),
        EditorOp::MoveDown { extend: true }
    );
}

#[test]
fn copy_writes_clipboard_and_repaints_without_change() {
    let mut commands = EventCommands::none();
    let changed = settle_standard_action(EditorOp::Copy, false, Some("abc".to_owned()), &mut commands);
    assert!(!changed);
    assert_eq!(commands.clipboard_write, Some("abc".to_owned()));
    assert!(commands.request_paint && !commands.request_layout && commands.stop_propagation);

    let mut commands = EventCommands::none();
    assert!(!settle_standard_action(EditorOp::Copy, false, None, &mut commands));
    assert_eq!(commands.clipboard_write, None);
    assert!(commands.request_paint);
}

#[test]
fn cut_changes_text_only_when_a_selection_was_taken() {
    let mut commands = EventCommands::none();
    assert!(settle_standard_action(EditorOp::Cut, false, Some("x".to_owned()), &mut commands));
    assert_eq!(commands.clipboard_write, Some("x".to_owned()));
    assert!(commands.request_layout && commands.request_paint && commands.stop_propagation);

    let mut commands = EventCommands::none();
    assert!(!settle_standard_action(EditorOp::Cut, true, None, &mut commands));
    assert!(!commands.request_layout && !commands.request_paint && commands.stop_propagation);
}

#[test]
fn edits_relayout_only_when_the_editor_reports_a_change() {
    let mut commands = EventCommands::none();
    assert!(settle_standard_action(EditorOp::Backspace, true, None, &mut commands));
    assert!(commands.request_layout && commands.request_paint);

    let mut commands = EventCommands::none();
    assert!(!settle_standard_action(EditorOp::Undo, false, None, &mut commands));
    assert!(!commands.request_layout && !commands.request_paint && commands.stop_propagation);
}

#[test]
fn moves_repaint_and_ignored_actions_only_stop() {
    let mut commands = EventCommands::none();
    assert!(!settle_standard_action(EditorOp::MoveLeft { extend: true }, true, None, &mut commands));
    assert!(commands.request_paint && !commands.request_layout && commands.stop_propagation);

    let mut commands = EventCommands::none();
    assert!(!settle_standard_action(EditorOp::Ignore, true, Some("y".to_owned()), &mut commands));
    let mut expected = EventCommands::none();
    expected.stop_propagation = true;
    assert_eq!(commands, expected);
}

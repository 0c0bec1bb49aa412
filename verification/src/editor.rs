//! What a text input or text area keeps across rebuilds, and how it answers the
//! standard editing and navigation actions.
use vstd::prelude::*;
use crate::chars::str_eq;
use crate::context::EventCommands;
use crate::events::StandardAction;

verus! {

/// The editor state a text input or text area stored in its previous build, with the
/// value it was declared with and whether it was multiline.
pub struct EditorBuildState<E> {
    pub editor: E,
    pub declared_value: Option<String>,
    pub multiline: bool,
}

/// The declared values as character sequences.
pub open spec fn opt_text(v: Option<String>) -> Option<Seq<char>> {
    match v {
        Some(s) => Some(s@),
        None => None,
    }
}

fn opt_string_eq(a: &Option<String>, b: &Option<String>) -> (r: bool)
    ensures
        r == (opt_text(*a) == opt_text(*b)),
{
    match (a, b) {
        (Some(x), Some(y)) => str_eq(x.as_str(), y.as_str()),
        (None, None) => true,
        _ => false,
    }
}

/// Whether a stored editor state is taken over: only by an editor of the same kind
/// (single or multiline) declared with the same value.
pub open spec fn spec_editor_state_matches<E>(
    stored: EditorBuildState<E>,
    declared_value: Option<String>,
    multiline: bool,
) -> bool {
    stored.multiline == multiline && opt_text(stored.declared_value) == opt_text(declared_value)
}

/// Take over the editor state of the previous build when it matches, else keep `editor`.
pub fn restore_editor_build_state<E>(
    editor: &mut E,
    declared_value: &Option<String>,
    multiline: bool,
    stored: Option<EditorBuildState<E>>,
)
    ensures
        *final(editor) == (match stored {
            Some(st) => if spec_editor_state_matches(st, *declared_value, multiline) {
                st.editor
            } else {
                *old(editor)
            },
            None => *old(editor),
        }),
{
    match stored {
        Some(state) => {
            if state.multiline == multiline && opt_string_eq(&state.declared_value, declared_value) {
                *editor = state.editor;
            }
        },
        None => {},
    }
}

/// The editor operation a standard action stands for. The moves carry whether they
/// extend the selection.
#[derive(Clone, Copy, Debug, PartialEq, Eq, Structural)]
pub enum EditorOp {
    SelectAll,
    Copy,
    Cut,
    Undo,
    Redo,
    Backspace,
    DeleteForward,
    MoveLeft { extend: bool },
    MoveRight { extend: bool },
    MoveWordLeft { extend: bool },
    MoveWordRight { extend: bool },
    MoveToStart { extend: bool },
    MoveToEnd { extend: bool },
    MoveUp { extend: bool },
    MoveDown { extend: bool },
    Ignore,
}

/// The operation of an action: vertical moves only in a multiline editor, and the
/// actions an editor does not handle (activation, focus moves, cancel, paste) are ignored.
pub open spec fn spec_editor_op_for_action(action: StandardAction, multiline: bool) -> EditorOp {
    match action {
        StandardAction::SelectAll => EditorOp::SelectAll,
        StandardAction::Copy => EditorOp::Copy,
        StandardAction::Cut => EditorOp::Cut,
        StandardAction::Undo => EditorOp::Undo,
        StandardAction::Redo => EditorOp::Redo,
        StandardAction::Backspace => EditorOp::Backspace,
        StandardAction::Delete => EditorOp::DeleteForward,
        StandardAction::MoveLeft => EditorOp::MoveLeft { extend: false },
        StandardAction::MoveRight => EditorOp::MoveRight { extend: false },
        StandardAction::SelectLeft => EditorOp::MoveLeft { extend: true },
        StandardAction::SelectRight => EditorOp::MoveRight { extend: true },
        StandardAction::MoveWordLeft => EditorOp::MoveWordLeft { extend: false },
        StandardAction::MoveWordRight => EditorOp::MoveWordRight { extend: false },
        StandardAction::SelectWordLeft => EditorOp::MoveWordLeft { extend: true },
        StandardAction::SelectWordRight => EditorOp::MoveWordRight { extend: true },
        StandardAction::MoveToStart => EditorOp::MoveToStart { extend: false },
        StandardAction::MoveToEnd => EditorOp::MoveToEnd { extend: false },
        StandardAction::SelectToStart => EditorOp::MoveToStart { extend: true },
        StandardAction::SelectToEnd => EditorOp::MoveToEnd { extend: true },
        StandardAction::MoveUp => if multiline { EditorOp::MoveUp { extend: false } } else { EditorOp::Ignore },
        StandardAction::MoveDown => if multiline { EditorOp::MoveDown { extend: false } } else { EditorOp::Ignore },
        StandardAction::SelectUp => if multiline { EditorOp::MoveUp { extend: true } } else { EditorOp::Ignore },
        StandardAction::SelectDown => if multiline { EditorOp::MoveDown { extend: true } } else { EditorOp::Ignore },
        _ => EditorOp::Ignore,
    }
}

/// The editor operation that `action` asks for in a single or multiline editor.
pub fn editor_op_for_action(action: StandardAction, multiline: bool) -> (r: EditorOp)
    ensures
        r == spec_editor_op_for_action(action, multiline),
{
    match action {
        StandardAction::SelectAll => EditorOp::SelectAll,
        StandardAction::Copy => EditorOp::Copy,
        StandardAction::Cut => EditorOp::Cut,
        StandardAction::Undo => EditorOp::Undo,
        StandardAction::Redo => EditorOp::Redo,
        StandardAction::Backspace => EditorOp::Backspace,
        StandardAction::Delete => EditorOp::DeleteForward,
        StandardAction::MoveLeft => EditorOp::MoveLeft { extend: false },
        StandardAction::MoveRight => EditorOp::MoveRight { extend: false },
        StandardAction::SelectLeft => EditorOp::MoveLeft { extend: true },
        StandardAction::SelectRight => EditorOp::MoveRight { extend: true },
        StandardAction::MoveWordLeft => EditorOp::MoveWordLeft { extend: false },
        StandardAction::MoveWordRight => EditorOp::MoveWordRight { extend: false },
        StandardAction::SelectWordLeft => EditorOp::MoveWordLeft { extend: true },
        StandardAction::SelectWordRight => EditorOp::MoveWordRight { extend: true },
        StandardAction::MoveToStart => EditorOp::MoveToStart { extend: false },
        StandardAction::MoveToEnd => EditorOp::MoveToEnd { extend: false },
        StandardAction::SelectToStart => EditorOp::MoveToStart { extend: true },
        StandardAction::SelectToEnd => EditorOp::MoveToEnd { extend: true },
        StandardAction::MoveUp if multiline => EditorOp::MoveUp { extend: false },
        StandardAction::MoveDown if multiline => EditorOp::MoveDown { extend: false },
        StandardAction::SelectUp if multiline => EditorOp::MoveUp { extend: true },
        StandardAction::SelectDown if multiline => EditorOp::MoveDown { extend: true },
        _ => EditorOp::Ignore,
    }
}

/// The operations that only move the caret or the selection, or select everything.
pub open spec fn spec_op_moves(op: EditorOp) -> bool {
    match op {
        EditorOp::SelectAll
        | EditorOp::MoveLeft { .. }
        | EditorOp::MoveRight { .. }
        | EditorOp::MoveWordLeft { .. }
        | EditorOp::MoveWordRight { .. }
        | EditorOp::MoveToStart { .. }
        | EditorOp::MoveToEnd { .. }
        | EditorOp::MoveUp { .. }
        | EditorOp::MoveDown { .. } => true,
        _ => false,
    }
}

/// The operations that edit the text when the editor reports a change.
pub open spec fn spec_op_edits(op: EditorOp) -> bool {
    match op {
        EditorOp::Undo | EditorOp::Redo | EditorOp::Backspace | EditorOp::DeleteForward => true,
        _ => false,
    }
}

/// Whether the operation changed the text: a cut that took a selection, or an edit the
/// editor reports as a change. `changed` is what the editor reported for an edit, and
/// `taken` the text a copy or cut took from the selection.
pub open spec fn spec_op_changed(op: EditorOp, changed: bool, taken: Option<String>) -> bool {
    match op {
        EditorOp::Cut => taken is Some,
        _ => spec_op_edits(op) && changed,
    }
}

/// The commands after an operation: a change asks for a relayout (which repaints), a
/// copy or a move repaints, taken text goes to the clipboard, and the action never
/// travels further.
pub open spec fn spec_settle_commands(
    c: EventCommands,
    op: EditorOp,
    changed: bool,
    taken: Option<String>,
) -> EventCommands {
    let relayout = spec_op_changed(op, changed, taken);
    let repaint = relayout || spec_op_moves(op) || op == EditorOp::Copy;
    let clipboard = (op == EditorOp::Copy || op == EditorOp::Cut) && taken is Some;
    EventCommands {
        stop_propagation: true,
        request_layout: c.request_layout || relayout,
        request_paint: c.request_paint || repaint,
        clipboard_write: if clipboard { taken } else { c.clipboard_write },
        ..c
    }
}

/// Record what the editor did for `op`: `changed` is what an undo, redo, backspace or
/// forward delete reported, `taken` the text a copy or cut took from the selection.
/// Returns whether the text changed.
pub fn settle_standard_action(
    op: EditorOp,
    changed: bool,
    taken: Option<String>,
    commands: &mut EventCommands,
) -> (r: bool)
    ensures
        r == spec_op_changed(op, changed, taken),
        *final(commands) == spec_settle_commands(*old(commands), op, changed, taken),
{
    let result = match op {
        EditorOp::Copy => {
            if let Some(text) = taken {
                commands.write_clipboard(text);
            }
            commands.request_paint();
            false
        },
        EditorOp::Cut => {
            if let Some(text) = taken {
                commands.write_clipboard(text);
                commands.request_layout();
                true
            } else {
                false
            }
        },
        EditorOp::Undo | EditorOp::Redo | EditorOp::Backspace | EditorOp::DeleteForward => {
            if changed {
                commands.request_layout();
            }
            changed
        },
        EditorOp::Ignore => false,
        _ => {
            commands.request_paint();
            false
        },
    };
    commands.stop_propagation();
    result
}

/// Every standard action stops at the editor, and one that only moves the caret or the
/// selection repaints without asking for a relayout or changing the text.
pub proof fn lemma_moves_never_relayout(
    c: EventCommands,
    action: StandardAction,
    multiline: bool,
    changed: bool,
    taken: Option<String>,
)
    ensures
        spec_settle_commands(c, spec_editor_op_for_action(action, multiline), changed, taken).stop_propagation,
        spec_op_moves(spec_editor_op_for_action(action, multiline)) ==> {
            let op = spec_editor_op_for_action(action, multiline);
            &&& !spec_op_changed(op, changed, taken)
            &&& spec_settle_commands(c, op, changed, taken).request_layout == c.request_layout
            &&& spec_settle_commands(c, op, changed, taken).request_paint
            &&& spec_settle_commands(c, op, changed, taken).clipboard_write == c.clipboard_write
        },
{
}

/// A vertical move does nothing but stop the action in a single-line editor.
pub proof fn lemma_single_line_ignores_vertical_moves(c: EventCommands, action: StandardAction, changed: bool, taken: Option<String>)
    requires
        action == StandardAction::MoveUp || action == StandardAction::MoveDown
            || action == StandardAction::SelectUp || action == StandardAction::SelectDown,
    ensures
        spec_editor_op_for_action(action, false) == EditorOp::Ignore,
        spec_settle_commands(c, EditorOp::Ignore, changed, taken) == (EventCommands { stop_propagation: true, ..c }),
{
}

/// Each editing action asks for the editor operation of the same name, in a single-line
/// and in a multiline editor alike: undo undoes, redo redoes, delete deletes forward,
/// each move goes its own way and each select-move is the same move extending the
/// selection.
pub proof fn lemma_actions_ask_for_their_operation(multiline: bool)
    ensures
        spec_editor_op_for_action(StandardAction::SelectAll, multiline) == EditorOp::SelectAll,
        spec_editor_op_for_action(StandardAction::Copy, multiline) == EditorOp::Copy,
        spec_editor_op_for_action(StandardAction::Cut, multiline) == EditorOp::Cut,
        spec_editor_op_for_action(StandardAction::Undo, multiline) == EditorOp::Undo,
        spec_editor_op_for_action(StandardAction::Redo, multiline) == EditorOp::Redo,
        spec_editor_op_for_action(StandardAction::Backspace, multiline) == EditorOp::Backspace,
        spec_editor_op_for_action(StandardAction::Delete, multiline) == EditorOp::DeleteForward,
        spec_editor_op_for_action(StandardAction::MoveLeft, multiline) == (EditorOp::MoveLeft { extend: false }),
        spec_editor_op_for_action(StandardAction::MoveRight, multiline) == (EditorOp::MoveRight { extend: false }),
        spec_editor_op_for_action(StandardAction::SelectLeft, multiline) == (EditorOp::MoveLeft { extend: true }),
        spec_editor_op_for_action(StandardAction::SelectRight, multiline) == (EditorOp::MoveRight { extend: true }),
        spec_editor_op_for_action(StandardAction::MoveWordLeft, multiline) == (EditorOp::MoveWordLeft { extend: false }),
        spec_editor_op_for_action(StandardAction::MoveWordRight, multiline) == (EditorOp::MoveWordRight { extend: false }),
        spec_editor_op_for_action(StandardAction::SelectWordLeft, multiline) == (EditorOp::MoveWordLeft { extend: true }),
        spec_editor_op_for_action(StandardAction::SelectWordRight, multiline) == (EditorOp::MoveWordRight { extend: true }),
        spec_editor_op_for_action(StandardAction::MoveToStart, multiline) == (EditorOp::MoveToStart { extend: false }),
        spec_editor_op_for_action(StandardAction::MoveToEnd, multiline) == (EditorOp::MoveToEnd { extend: false }),
        spec_editor_op_for_action(StandardAction::SelectToStart, multiline) == (EditorOp::MoveToStart { extend: true }),
        spec_editor_op_for_action(StandardAction::SelectToEnd, multiline) == (EditorOp::MoveToEnd { extend: true }),
        spec_editor_op_for_action(StandardAction::MoveUp, true) == (EditorOp::MoveUp { extend: false }),
        spec_editor_op_for_action(StandardAction::MoveDown, true) == (EditorOp::MoveDown { extend: false }),
        spec_editor_op_for_action(StandardAction::SelectUp, true) == (EditorOp::MoveUp { extend: true }),
        spec_editor_op_for_action(StandardAction::SelectDown, true) == (EditorOp::MoveDown { extend: true }),
        spec_editor_op_for_action(StandardAction::Activate, multiline) == EditorOp::Ignore,
        spec_editor_op_for_action(StandardAction::Cancel, multiline) == EditorOp::Ignore,
        spec_editor_op_for_action(StandardAction::FocusNext, multiline) == EditorOp::Ignore,
        spec_editor_op_for_action(StandardAction::FocusPrevious, multiline) == EditorOp::Ignore,
        spec_editor_op_for_action(StandardAction::Paste, multiline) == EditorOp::Ignore,
{
}

/// An undo or a redo that changed the text relayouts and reports the change; one that
/// changed nothing leaves layout and paint requests as they were.
pub proof fn lemma_history_edits_follow_the_editor(c: EventCommands, multiline: bool, changed: bool, taken: Option<String>)
    ensures
        ({
            let undo = spec_editor_op_for_action(StandardAction::Undo, multiline);
            let redo = spec_editor_op_for_action(StandardAction::Redo, multiline);
            &&& undo != redo
            &&& spec_op_changed(undo, changed, taken) == changed
            &&& spec_op_changed(redo, changed, taken) == changed
            &&& spec_settle_commands(c, undo, changed, taken).request_layout == (c.request_layout || changed)
            &&& spec_settle_commands(c, undo, changed, taken).request_paint == (c.request_paint || changed)
            &&& spec_settle_commands(c, undo, changed, taken).clipboard_write == c.clipboard_write
        }),
{
}

} // verus!

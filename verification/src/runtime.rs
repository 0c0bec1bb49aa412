//! Focus navigation over the focus order, and the decisions the runtime takes before
//! and after it dispatches an input event or an accessibility request to the widgets.
use vstd::prelude::*;
use crate::accessibility::AccessibilityAction;
use crate::component::{path_eq, path_set, path_to_vec, paths_contain};
use crate::context::EventCommands;
use crate::events::StandardAction;
use crate::platform::{PlatformEffect, PlatformEffects};

verus! {

/// The paths of a focus order, as sequences.
pub open spec fn order_views(order: Seq<Vec<usize>>) -> Seq<Seq<usize>> {
    order.map_values(|p: Vec<usize>| p@)
}

/// `i` is the first position of `path` in `order`.
pub open spec fn is_first_position(order: Seq<Seq<usize>>, path: Seq<usize>, i: int) -> bool {
    &&& 0 <= i < order.len()
    &&& order[i] == path
    &&& forall|j: int| 0 <= j < i ==> order[j] != path
}

/// Whether `path` occurs in `order`.
pub open spec fn occurs_in(order: Seq<Seq<usize>>, path: Seq<usize>) -> bool {
    exists|i: int| is_first_position(order, path, i)
}

/// The first position of `path` in `order` (meaningful when it occurs).
pub open spec fn first_position(order: Seq<Seq<usize>>, path: Seq<usize>) -> int {
    choose|i: int| is_first_position(order, path, i)
}

/// Where focus moves from position `i` of `n` focusable widgets.
pub open spec fn step_index(i: int, n: int, forward: bool) -> int {
    if forward {
        if i + 1 < n { i + 1 } else { 0 }
    } else {
        if i == 0 { n - 1 } else { i - 1 }
    }
}

/// The path focus moves to: nothing when nothing is focusable; from the focused path
/// to its neighbour in the focus order, wrapping around; from no focus (or a path not
/// in the order) to the first widget going forward and the last going backward.
pub open spec fn spec_move_focus(
    order: Seq<Seq<usize>>,
    current: Option<Seq<usize>>,
    forward: bool,
) -> Option<Seq<usize>> {
    let n = order.len() as int;
    if n == 0 {
        None
    } else {
        let next = match current {
            Some(p) => if occurs_in(order, p) {
                step_index(first_position(order, p), n, forward)
            } else if forward {
                0
            } else {
                n - 1
            },
            None => if forward { 0 } else { n - 1 },
        };
        Some(order[next])
    }
}

proof fn lemma_first_position_unique(order: Seq<Seq<usize>>, path: Seq<usize>, i: int, k: int)
    requires
        is_first_position(order, path, i),
        is_first_position(order, path, k),
    ensures
        i == k,
{
    if i < k {
        assert(order[i] != path);
    } else if k < i {
        assert(order[k] != path);
    }
}

/// The position of `path` in `order`, if it occurs.
fn find_path(order: &Vec<Vec<usize>>, path: &[usize]) -> (r: Option<usize>)
    ensures
        match r {
            Some(i) => is_first_position(order_views(order@), path@, i as int),
            None => forall|j: int| 0 <= j < order@.len() ==> order@[j]@ != path@,
        },
{
    let mut i: usize = 0;
    while i < order.len()
        invariant
            i <= order@.len(),
            forall|j: int| 0 <= j < i ==> order@[j]@ != path@,
        decreases order@.len() - i,
    {
        if path_eq(order[i].as_slice(), path) {
            return Some(i);
        }
        i += 1;
    }
    None
}

/// Move focus one step forward or backward through the focus order.
pub fn move_focus_path(
    current: Option<&[usize]>,
    focus_order: &Vec<Vec<usize>>,
    forward: bool,
) -> (r: Option<Vec<usize>>)
    ensures
        match r {
            Some(p) => spec_move_focus(
                order_views(focus_order@),
                match current {
                    Some(c) => Some(c@),
                    None => None,
                },
                forward,
            ) == Some(p@),
            None => spec_move_focus(
                order_views(focus_order@),
                match current {
                    Some(c) => Some(c@),
                    None => None,
                },
                forward,
            ) is None,
        },
{
    let n = focus_order.len();
    if n == 0 {
        return None;
    }
    let ghost order = order_views(focus_order@);
    let next: usize = match current {
        Some(path) => match find_path(focus_order, path) {
            Some(index) => {
                proof {
                    assert(occurs_in(order, path@));
                    lemma_first_position_unique(order, path@, index as int, first_position(order, path@));
                }
                if forward {
                    if index + 1 < n { index + 1 } else { 0 }
                } else {
                    if index == 0 { n - 1 } else { index - 1 }
                }
            },
            None => {
                proof {
                    assert forall|k: int| !is_first_position(order, path@, k) by {
                        if 0 <= k < order.len() {
                            assert(order[k] == focus_order@[k]@);
                        }
                    }
                }
                if forward { 0 } else { n - 1 }
            },
        },
        None => if forward { 0 } else { n - 1 },
    };
    let target = path_to_vec(focus_order[next].as_slice());
    proof {
        assert(order[next as int] == focus_order@[next as int]@);
    }
    Some(target)
}

/// With the focus order free of repeats, a step forward and then a step backward
/// return focus to the widget it started on.
pub proof fn lemma_forward_then_backward(order: Seq<Seq<usize>>, path: Seq<usize>)
    requires
        order.no_duplicates(),
        order.contains(path),
    ensures
        spec_move_focus(order, spec_move_focus(order, Some(path), true), false) == Some(path),
{
    let n = order.len() as int;
    let w = choose|w: int| 0 <= w < n && order[w] == path;
    assert(is_first_position(order, path, w));
    assert(occurs_in(order, path));
    let i = first_position(order, path);
    lemma_first_position_unique(order, path, i, w);
    let next = step_index(i, n, true);
    let q = order[next];
    assert(is_first_position(order, q, next));
    assert(occurs_in(order, q));
    lemma_first_position_unique(order, q, first_position(order, q), next);
    assert(spec_move_focus(order, Some(path), true) == Some(q));
    assert(step_index(next, n, false) == i);
    assert(spec_move_focus(order, Some(q), false) == Some(order[i]));
}

/// The focus after `k` steps forward from `start`.
pub open spec fn focus_after(order: Seq<Seq<usize>>, start: Option<Seq<usize>>, k: nat) -> Option<Seq<usize>>
    decreases k,
{
    if k == 0 {
        start
    } else {
        spec_move_focus(order, focus_after(order, start, (k - 1) as nat), true)
    }
}

/// Tabbing goes round the focus order: with no repeats in it, `k` steps forward from the
/// widget at position `i` reach position `(i + k) mod n`, so `n` steps come back.
pub proof fn lemma_tab_cycles(order: Seq<Seq<usize>>, i: int, k: nat)
    requires
        order.no_duplicates(),
        0 <= i < order.len(),
    ensures
        focus_after(order, Some(order[i]), k) == Some(order[(i + k) % (order.len() as int)]),
        k == order.len() ==> focus_after(order, Some(order[i]), k) == Some(order[i]),
    decreases k,
{
    let n = order.len() as int;
    if k == 0 {
        vstd::arithmetic::div_mod::lemma_small_mod(i as nat, n as nat);
    } else {
        lemma_tab_cycles(order, i, (k - 1) as nat);
        let j = (i + k - 1) % n;
        vstd::arithmetic::div_mod::lemma_mod_bound(i + k - 1, n);
        let p = order[j];
        assert(is_first_position(order, p, j));
        assert(occurs_in(order, p));
        lemma_first_position_unique(order, p, first_position(order, p), j);
        if j + 1 < n {
            vstd::arithmetic::div_mod::lemma_small_mod((j + 1) as nat, n as nat);
        } else {
            vstd::arithmetic::div_mod::lemma_mod_self_0(n);
        }
        assert(step_index(j, n, true) == (j + 1) % n);
        vstd::arithmetic::div_mod::lemma_add_mod_noop_right(1, i + k - 1, n);
        assert((1 + j) % n == (1 + (i + k - 1)) % n);
    }
    if k == n {
        vstd::arithmetic::div_mod::lemma_mod_add_multiples_vanish(i, n);
        vstd::arithmetic::div_mod::lemma_small_mod(i as nat, n as nat);
    }
}

/// From no focus, a step forward focuses the first widget and a step backward the last.
pub proof fn lemma_unfocused_enters_at_ends(order: Seq<Seq<usize>>)
    requires
        order.len() > 0,
    ensures
        spec_move_focus(order, None, true) == Some(order[0]),
        spec_move_focus(order, None, false) == Some(order[order.len() - 1]),
{
}

/// Keep a remembered path only while a widget is still mounted there.
pub fn remap_path(path: Option<Vec<usize>>, active_paths: &Vec<Vec<usize>>) -> (r: Option<Vec<usize>>)
    ensures
        match path {
            Some(p) => if path_set(active_paths@).contains(p@) {
                r == Some(p)
            } else {
                r is None
            },
            None => r is None,
        },
{
    match path {
        Some(p) => if paths_contain(active_paths, p.as_slice()) {
            Some(p)
        } else {
            None
        },
        None => None,
    }
}

/// Whether moving focus to `next` changes it: blur and focus callbacks run only then.
pub fn focus_will_change(focused: Option<&[usize]>, next: Option<&[usize]>) -> (r: bool)
    ensures
        r == !(match (focused, next) {
            (Some(a), Some(b)) => a@ == b@,
            (None, None) => true,
            _ => false,
        }),
{
    match (focused, next) {
        (Some(a), Some(b)) => !path_eq(a, b),
        (None, None) => false,
        _ => true,
    }
}

/// How the runtime routes an input event, given the standard action it maps to.
#[derive(Clone, Debug)]
pub enum InputRoute {
    /// Move focus through the focus order instead of dispatching.
    MoveFocus { forward: bool },
    /// Dispatch the event as it came.
    Dispatch,
    /// A paste into the focused editor: dispatch the clipboard text instead.
    DispatchPaste { text: String },
    /// A paste into the focused editor with nothing on the clipboard: do nothing.
    Drop,
}

/// Focus keys move focus; a paste while a text editor has focus carries the clipboard
/// text; everything else is dispatched to the widgets.
pub open spec fn spec_route_input(
    action: Option<StandardAction>,
    editor_focused: bool,
    clipboard_text: Option<String>,
) -> InputRoute {
    match action {
        Some(StandardAction::FocusNext) => InputRoute::MoveFocus { forward: true },
        Some(StandardAction::FocusPrevious) => InputRoute::MoveFocus { forward: false },
        Some(StandardAction::Paste) => if editor_focused {
            match clipboard_text {
                Some(text) => InputRoute::DispatchPaste { text },
                None => InputRoute::Drop,
            }
        } else {
            InputRoute::Dispatch
        },
        _ => InputRoute::Dispatch,
    }
}

/// Route an input event.
pub fn route_input_event(
    action: Option<StandardAction>,
    editor_focused: bool,
    clipboard_text: Option<String>,
) -> (r: InputRoute)
    ensures
        r == spec_route_input(action, editor_focused, clipboard_text),
{
    match action {
        Some(StandardAction::FocusNext) => InputRoute::MoveFocus { forward: true },
        Some(StandardAction::FocusPrevious) => InputRoute::MoveFocus { forward: false },
        Some(StandardAction::Paste) => {
            if editor_focused {
                match clipboard_text {
                    Some(text) => InputRoute::DispatchPaste { text },
                    None => InputRoute::Drop,
                }
            } else {
                InputRoute::Dispatch
            }
        },
        _ => InputRoute::Dispatch,
    }
}

/// What the runtime must redo before the next frame, and whether an IME composition
/// is in progress.
#[derive(Clone, Copy, Debug)]
pub struct RuntimeFlags {
    pub needs_layout: bool,
    pub needs_repaint: bool,
    pub ime_composing: bool,
}

/// Effects after focus moved through the focus order: the text input follows a focus change.
pub fn settle_focus_navigation(focus_changed: bool, flags: &mut RuntimeFlags) -> (r: PlatformEffects)
    ensures
        r@ == (if focus_changed { seq![PlatformEffect::SyncTextInput] } else { seq![] }),
        *final(flags) == (if focus_changed {
            RuntimeFlags { ime_composing: false, needs_repaint: true, ..*old(flags) }
        } else {
            *old(flags)
        }),
{
    let mut effects = PlatformEffects::new();
    if focus_changed {
        flags.ime_composing = false;
        flags.needs_repaint = true;
        effects.push(PlatformEffect::SyncTextInput);
        assert(effects@ =~= seq![PlatformEffect::SyncTextInput]);
    }
    effects
}

/// The effects a dispatch asks for, in order: the text input after a focus change the
/// widgets requested, the pointer capture after a capture or release, then a clipboard write.
pub open spec fn spec_dispatch_effects(c: EventCommands, focus_changed: bool) -> Seq<PlatformEffect> {
    (if (c.request_focus || c.clear_focus) && focus_changed {
        seq![PlatformEffect::SyncTextInput]
    } else {
        seq![]
    }) + (if c.capture_pointer || c.release_pointer {
        seq![PlatformEffect::SyncPointerCapture]
    } else {
        seq![]
    }) + (match c.clipboard_write {
        Some(text) => seq![PlatformEffect::WriteClipboard(text)],
        None => seq![],
    })
}

/// The flags after a dispatch: a focus change ends an IME composition unless a text
/// editor holds focus; focus, capture and paint requests repaint; layout requests relayout.
pub open spec fn spec_dispatch_flags(
    c: EventCommands,
    focus_changed: bool,
    editor_focused: bool,
    flags: RuntimeFlags,
) -> RuntimeFlags {
    let focus = (c.request_focus || c.clear_focus) && focus_changed;
    let capture = c.capture_pointer || c.release_pointer;
    RuntimeFlags {
        needs_layout: flags.needs_layout || c.request_layout,
        needs_repaint: flags.needs_repaint || focus || capture || c.request_paint,
        ime_composing: if focus && !editor_focused { false } else { flags.ime_composing },
    }
}

/// Turn the commands a dispatch collected into platform effects and runtime flags.
/// `focus_changed` tells whether applying the requested focus changed it, and
/// `editor_focused` whether a text editor holds focus afterwards.
pub fn settle_dispatch(
    commands: EventCommands,
    focus_changed: bool,
    editor_focused: bool,
    flags: &mut RuntimeFlags,
) -> (r: PlatformEffects)
    ensures
        r@ == spec_dispatch_effects(commands, focus_changed),
        *final(flags) == spec_dispatch_flags(commands, focus_changed, editor_focused, *old(flags)),
{
    let mut effects = PlatformEffects::new();
    let ghost c = commands;
    if (commands.request_focus || commands.clear_focus) && focus_changed {
        if !editor_focused {
            flags.ime_composing = false;
        }
        flags.needs_repaint = true;
        effects.push(PlatformEffect::SyncTextInput);
    }
    let ghost after_focus = effects@;
    if commands.capture_pointer || commands.release_pointer {
        flags.needs_repaint = true;
        effects.push(PlatformEffect::SyncPointerCapture);
    }
    let ghost after_capture = effects@;
    match commands.clipboard_write {
        Some(text) => {
            effects.push(PlatformEffect::WriteClipboard(text));
        },
        None => {},
    }
    if commands.request_paint {
        flags.needs_repaint = true;
    }
    if commands.request_layout {
        flags.needs_layout = true;
    }
    proof {
        let s1: Seq<PlatformEffect> = if (c.request_focus || c.clear_focus) && focus_changed {
            seq![PlatformEffect::SyncTextInput]
        } else {
            seq![]
        };
        let s2: Seq<PlatformEffect> = if c.capture_pointer || c.release_pointer {
            seq![PlatformEffect::SyncPointerCapture]
        } else {
            seq![]
        };
        assert(after_focus =~= s1);
        assert(after_capture =~= s1 + s2);
        assert(effects@ =~= spec_dispatch_effects(c, focus_changed));
    }
    effects
}

/// Effects and flags after an accessibility request reached a widget: a focus request
/// syncs the text input when focus changed; any other request the widget handled
/// repaints, and a value change also relayouts.
pub fn settle_accessibility_action(
    action: AccessibilityAction,
    focus_changed: bool,
    handled: bool,
    flags: &mut RuntimeFlags,
) -> (r: PlatformEffects)
    ensures
        r@ == (if action == AccessibilityAction::Focus && focus_changed {
            seq![PlatformEffect::SyncTextInput]
        } else {
            seq![]
        }),
        *final(flags) == (if action == AccessibilityAction::Focus {
            if focus_changed {
                RuntimeFlags { ime_composing: false, needs_repaint: true, ..*old(flags) }
            } else {
                *old(flags)
            }
        } else if handled {
            RuntimeFlags {
                needs_repaint: true,
                needs_layout: old(flags).needs_layout || action == AccessibilityAction::SetValue,
                ..*old(flags)
            }
        } else {
            *old(flags)
        }),
{
    let mut effects = PlatformEffects::new();
    match action {
        AccessibilityAction::Focus => {
            if focus_changed {
                flags.ime_composing = false;
                flags.needs_repaint = true;
                effects.push(PlatformEffect::SyncTextInput);
                assert(effects@ =~= seq![PlatformEffect::SyncTextInput]);
            }
        },
        _ => {
            if handled {
                if action == AccessibilityAction::SetValue {
                    flags.needs_layout = true;
                }
                flags.needs_repaint = true;
            }
        },
    }
    effects
}

/// Every platform update ends by syncing the accessibility tree.
pub fn finish_platform_update(effects: PlatformEffects) -> (r: PlatformEffects)
    ensures
        r@ == effects@.push(PlatformEffect::SyncAccessibility),
{
    let mut effects = effects;
    effects.push(PlatformEffect::SyncAccessibility);
    effects
}

/// Flags after the event loop drained signal effects and task results before waiting:
/// a rebuild or layout request relayouts, a paint request or a finished task repaints.
pub open spec fn spec_idle_flags(
    flags: RuntimeFlags,
    dirty_rebuild: bool,
    dirty_layout: bool,
    dirty_paint: bool,
    had_task_results: bool,
) -> RuntimeFlags {
    RuntimeFlags {
        needs_layout: flags.needs_layout || dirty_rebuild || dirty_layout,
        needs_repaint: flags.needs_repaint || dirty_paint || had_task_results,
        ..flags
    }
}

/// Fold what changed while the loop was busy into the flags, and tell whether to ask for
/// a redraw: when layout or paint is pending, or tasks are still in flight.
pub fn settle_before_wait(
    flags: &mut RuntimeFlags,
    dirty_rebuild: bool,
    dirty_layout: bool,
    dirty_paint: bool,
    had_task_results: bool,
    tasks_in_flight: bool,
) -> (r: bool)
    ensures
        *final(flags) == spec_idle_flags(*old(flags), dirty_rebuild, dirty_layout, dirty_paint, had_task_results),
        r == (final(flags).needs_layout || final(flags).needs_repaint || tasks_in_flight),
{
    if dirty_rebuild || dirty_layout {
        flags.needs_layout = true;
    }
    if dirty_paint {
        flags.needs_repaint = true;
    }
    if had_task_results {
        flags.needs_repaint = true;
    }
    flags.needs_layout || flags.needs_repaint || tasks_in_flight
}

} // verus!

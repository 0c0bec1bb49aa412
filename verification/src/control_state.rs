//! Hover and press tracking shared by interactive controls, and how buttons and
//! checkboxes answer pointer, key and accessibility input.
use vstd::prelude::*;
use crate::accessibility::AccessibilityAction;
use crate::context::EventCommands;

verus! {

/// Whether a control is hovered and whether it is pressed.
#[derive(Clone, Copy, Debug, PartialEq, Eq)]
pub struct ControlState {
    hovered: bool,
    pressed: bool,
}

/// The pointer interaction state of a control.
pub struct ControlStateView {
    pub hovered: bool,
    pub pressed: bool,
}

impl View for ControlState {
    type V = ControlStateView;

    closed spec fn view(&self) -> ControlStateView {
        ControlStateView { hovered: self.hovered, pressed: self.pressed }
    }
}

/// State after a pointer move: hovered follows the pointer.
pub open spec fn spec_pointer_move(s: ControlStateView, contains: bool) -> ControlStateView {
    ControlStateView { hovered: contains, pressed: s.pressed }
}

/// State after a pointer press: a press inside hovers and presses; outside changes nothing.
pub open spec fn spec_pointer_down(s: ControlStateView, contains: bool) -> ControlStateView {
    if contains { ControlStateView { hovered: true, pressed: true } } else { s }
}

/// State after a pointer release: no longer pressed, hovered follows the pointer.
pub open spec fn spec_pointer_up(s: ControlStateView, contains: bool) -> ControlStateView {
    ControlStateView { hovered: contains, pressed: false }
}

/// A release is a click when the control was pressed and the pointer is still inside.
pub open spec fn spec_is_click(s: ControlStateView, contains: bool) -> bool {
    s.pressed && contains
}

impl Default for ControlState {
    fn default() -> (r: Self)
        ensures
            !r@.hovered && !r@.pressed,
    {
        ControlState { hovered: false, pressed: false }
    }
}

impl ControlState {
    /// A control that is neither hovered nor pressed.
    pub fn new() -> (r: Self)
        ensures
            !r@.hovered && !r@.pressed,
    {
        ControlState { hovered: false, pressed: false }
    }

    /// Whether the pointer is over the control.
    pub fn hovered(&self) -> (r: bool)
        ensures
            r == self@.hovered,
    {
        self.hovered
    }

    /// Whether the control is held down.
    pub fn pressed(&self) -> (r: bool)
        ensures
            r == self@.pressed,
    {
        self.pressed
    }

    /// Track a pointer move; true when the hover state changed.
    pub fn pointer_move(&mut self, contains: bool) -> (r: bool)
        ensures
            final(self)@ == spec_pointer_move(old(self)@, contains),
            r == (old(self)@.hovered != contains),
    {
        let previous = self.hovered;
        self.hovered = contains;
        previous != self.hovered
    }

    /// Track a pointer press; true when the press state changed.
    pub fn pointer_down(&mut self, contains: bool) -> (r: bool)
        ensures
            final(self)@ == spec_pointer_down(old(self)@, contains),
            r == (contains && !old(self)@.pressed),
    {
        if !contains {
            return false;
        }
        let previous = self.pressed;
        self.hovered = true;
        self.pressed = true;
        previous != self.pressed
    }

    /// Track a pointer release; true when the release completes a click.
    pub fn pointer_up(&mut self, contains: bool) -> (r: bool)
        ensures
            final(self)@ == spec_pointer_up(old(self)@, contains),
            r == spec_is_click(old(self)@, contains),
    {
        let was_pressed = self.pressed;
        self.pressed = false;
        self.hovered = contains;
        was_pressed && contains
    }

    /// Forget hover and press.
    pub fn clear_interaction(&mut self)
        ensures
            !final(self)@.hovered && !final(self)@.pressed,
    {
        self.hovered = false;
        self.pressed = false;
    }
}

/// A press inside followed by a release inside is a click, whatever came before.
pub proof fn lemma_press_release_inside_clicks(s: ControlStateView)
    ensures
        spec_is_click(spec_pointer_down(s, true), true),
        !spec_pointer_up(spec_pointer_down(s, true), true).pressed,
{
}

/// A release outside is never a click, and leaves the control released and unhovered.
pub proof fn lemma_release_outside_never_clicks(s: ControlStateView)
    ensures
        !spec_is_click(s, false),
        !spec_pointer_up(s, false).pressed && !spec_pointer_up(s, false).hovered,
{
}

/// Only one release completes a click: after a release nothing is pressed.
pub proof fn lemma_no_double_click_from_one_press(s: ControlStateView, inside: bool, inside_again: bool)
    ensures
        !spec_is_click(spec_pointer_up(s, inside), inside_again),
{
}

/// Visual state of a button.
#[derive(Clone, Copy, Debug, PartialEq, Eq, Structural)]
pub enum ButtonState {
    Normal,
    Hovered,
    Pressed,
    Disabled,
}

impl Default for ButtonState {
    fn default() -> (r: Self)
        ensures
            r == ButtonState::Normal,
    {
        ButtonState::Normal
    }
}

/// Disabled wins, then pressed, then hovered.
pub open spec fn spec_button_state(disabled: bool, s: ControlStateView) -> ButtonState {
    if disabled {
        ButtonState::Disabled
    } else if s.pressed {
        ButtonState::Pressed
    } else if s.hovered {
        ButtonState::Hovered
    } else {
        ButtonState::Normal
    }
}

/// The visual state of a control.
pub fn button_state(disabled: bool, interaction: &ControlState) -> (r: ButtonState)
    ensures
        r == spec_button_state(disabled, interaction@),
{
    if disabled {
        ButtonState::Disabled
    } else if interaction.pressed() {
        ButtonState::Pressed
    } else if interaction.hovered() {
        ButtonState::Hovered
    } else {
        ButtonState::Normal
    }
}

/// Input as a pressable control sees it: whether the pointer is inside its bounds,
/// and whether a key press maps to the activate action.
#[derive(Clone, Copy, Debug, PartialEq, Eq, Structural)]
pub enum PressEvent {
    PointerMove { inside: bool },
    PointerDown { inside: bool },
    PointerUp { inside: bool },
    KeyDown { activate: bool },
    Other,
}

/// What a pressable control asks of the event context after an event.
#[derive(Clone, Copy, Debug, PartialEq, Eq, Structural)]
pub struct PressResponse {
    pub request_paint: bool,
    pub capture_pointer: bool,
    pub release_pointer: bool,
    /// The control fires: a button clicks, a checkbox toggles.
    pub activated: bool,
    pub stop_propagation: bool,
}

/// A response that asks for nothing.
pub open spec fn no_response() -> PressResponse {
    PressResponse {
        request_paint: false,
        capture_pointer: false,
        release_pointer: false,
        activated: false,
        stop_propagation: false,
    }
}

/// The commands after a response was passed to the event context: a capture or release
/// also repaints and stops propagation.
pub open spec fn spec_apply_press_response(c: EventCommands, r: PressResponse) -> EventCommands {
    EventCommands {
        stop_propagation: c.stop_propagation || r.stop_propagation || r.capture_pointer
            || r.release_pointer,
        capture_pointer: c.capture_pointer || r.capture_pointer,
        release_pointer: c.release_pointer || r.release_pointer,
        request_paint: c.request_paint || r.request_paint || r.capture_pointer || r.release_pointer,
        ..c
    }
}

impl PressResponse {
    /// Pass the requests on to the event commands.
    pub fn apply(&self, commands: &mut EventCommands)
        ensures
            *final(commands) == spec_apply_press_response(*old(commands), *self),
    {
        if self.request_paint {
            commands.request_paint();
        }
        if self.capture_pointer {
            commands.capture_pointer();
        }
        if self.release_pointer {
            commands.release_pointer();
        }
        if self.stop_propagation {
            commands.stop_propagation();
        }
    }
}

/// The state and response after one event. A disabled control ignores everything; a
/// hover change repaints; a press inside captures the pointer; a release ends a press
/// (clicking when still inside); the activate key fires a focused control.
pub open spec fn spec_press_event(
    s: ControlStateView,
    disabled: bool,
    has_focus: bool,
    event: PressEvent,
) -> (ControlStateView, PressResponse) {
    if disabled {
        (s, no_response())
    } else {
        match event {
            PressEvent::PointerMove { inside } => (
                spec_pointer_move(s, inside),
                PressResponse { request_paint: s.hovered != inside, ..no_response() },
            ),
            PressEvent::PointerDown { inside } => (
                spec_pointer_down(s, inside),
                PressResponse { capture_pointer: inside && !s.pressed, ..no_response() },
            ),
            PressEvent::PointerUp { inside } => if s.pressed {
                (
                    spec_pointer_up(s, inside),
                    PressResponse {
                        release_pointer: true,
                        activated: spec_is_click(s, inside),
                        ..no_response()
                    },
                )
            } else {
                (s, no_response())
            },
            PressEvent::KeyDown { activate } => if has_focus && activate {
                (
                    s,
                    PressResponse {
                        request_paint: true,
                        activated: true,
                        stop_propagation: true,
                        ..no_response()
                    },
                )
            } else {
                (s, no_response())
            },
            PressEvent::Other => (s, no_response()),
        }
    }
}

fn quiet() -> (r: PressResponse)
    ensures
        r == no_response(),
{
    PressResponse {
        request_paint: false,
        capture_pointer: false,
        release_pointer: false,
        activated: false,
        stop_propagation: false,
    }
}

/// Handle one event on a button or checkbox.
pub fn handle_press_event(
    interaction: &mut ControlState,
    disabled: bool,
    has_focus: bool,
    event: PressEvent,
) -> (r: PressResponse)
    ensures
        (final(interaction)@, r) == spec_press_event(old(interaction)@, disabled, has_focus, event),
{
    let mut response = quiet();
    if disabled {
        return response;
    }
    match event {
        PressEvent::PointerMove { inside } => {
            response.request_paint = interaction.pointer_move(inside);
        },
        PressEvent::PointerDown { inside } => {
            response.capture_pointer = interaction.pointer_down(inside);
        },
        PressEvent::PointerUp { inside } => {
            if interaction.pressed() {
                response.activated = interaction.pointer_up(inside);
                response.release_pointer = true;
            }
        },
        PressEvent::KeyDown { activate } => {
            if has_focus && activate {
                response.activated = true;
                response.stop_propagation = true;
                response.request_paint = true;
            }
        },
        PressEvent::Other => {},
    }
    response
}

/// A disabled control keeps its state and answers nothing, whatever the event.
pub proof fn lemma_disabled_ignores_events(s: ControlStateView, has_focus: bool, event: PressEvent)
    ensures
        spec_press_event(s, true, has_focus, event) == (s, no_response()),
{
}

/// On an enabled control, a press inside and then a release inside fire exactly once,
/// and leave the pointer released.
pub proof fn lemma_press_release_fires_once(s: ControlStateView, has_focus: bool)
    ensures
        ({
            let (s1, r1) = spec_press_event(s, false, has_focus, PressEvent::PointerDown { inside: true });
            let (s2, r2) = spec_press_event(s1, false, has_focus, PressEvent::PointerUp { inside: true });
            let (s3, r3) = spec_press_event(s2, false, has_focus, PressEvent::PointerUp { inside: true });
            &&& !r1.activated
            &&& r2.activated && r2.release_pointer
            &&& !r3.activated
            &&& !s3.pressed
        }),
{
}

/// A pointer event fires the control only as the release of a press inside it.
pub proof fn lemma_pointer_fires_only_on_release(
    s: ControlStateView,
    has_focus: bool,
    event: PressEvent,
)
    requires
        !(event is KeyDown),
        spec_press_event(s, false, has_focus, event).1.activated,
    ensures
        s.pressed,
        event == (PressEvent::PointerUp { inside: true }),
{
}

/// An accessibility request fires a control when it is enabled and the request is a click.
pub fn accessibility_click(disabled: bool, action: AccessibilityAction) -> (r: bool)
    ensures
        r == (!disabled && action == AccessibilityAction::Click),
{
    !disabled && action == AccessibilityAction::Click
}

/// The toggle a checkbox performs on an activation: the checked value flips and the new
/// value is what the toggle callback runs with. Without an activation nothing changes and
/// no callback runs (`None`).
pub open spec fn spec_toggled_checked(checked: bool, activated: bool) -> Option<bool> {
    if activated { Some(!checked) } else { None }
}

/// The value a checkbox takes, and hands to its toggle callback, when `activated`.
pub fn toggled_checked(checked: bool, activated: bool) -> (r: Option<bool>)
    ensures
        r == spec_toggled_checked(checked, activated),
{
    if activated { Some(!checked) } else { None }
}

/// One event on a checkbox: the press handling of `handle_press_event`, then a toggle of
/// `checked` when the press activated it. Returns the response and the value the toggle
/// callback runs with, when it runs.
pub fn handle_checkbox_event(
    interaction: &mut ControlState,
    checked: &mut bool,
    disabled: bool,
    has_focus: bool,
    event: PressEvent,
) -> (r: (PressResponse, Option<bool>))
    ensures
        (final(interaction)@, r.0) == spec_press_event(old(interaction)@, disabled, has_focus, event),
        r.1 == spec_toggled_checked(*old(checked), r.0.activated),
        *final(checked) == (if r.0.activated { !*old(checked) } else { *old(checked) }),
{
    let response = handle_press_event(interaction, disabled, has_focus, event);
    let toggled = toggled_checked(*checked, response.activated);
    if let Some(value) = toggled {
        *checked = value;
    }
    (response, toggled)
}

/// A press inside and a release inside toggle an enabled checkbox once, and the callback
/// runs once, with the new value; a disabled checkbox never toggles.
pub proof fn lemma_press_release_toggles_once(s: ControlStateView, checked: bool, has_focus: bool)
    ensures
        ({
            let (s1, r1) = spec_press_event(s, false, has_focus, PressEvent::PointerDown { inside: true });
            let (s2, r2) = spec_press_event(s1, false, has_focus, PressEvent::PointerUp { inside: true });
            &&& spec_toggled_checked(checked, r1.activated) is None
            &&& spec_toggled_checked(checked, r2.activated) == Some(!checked)
        }),
        forall|e: PressEvent| #[trigger] spec_toggled_checked(checked, spec_press_event(s, true, has_focus, e).1.activated) is None,
{
}

/// What a checkbox keeps across rebuilds.
#[derive(Clone, Copy, Debug, PartialEq, Eq, Structural)]
pub struct CheckboxBuildState {
    pub checked: bool,
    pub declared_checked: bool,
}

/// The checked state after a rebuild: the stored one while the declared value is the
/// one it was stored under, else the freshly built one.
pub open spec fn spec_restored_checked(
    checked: bool,
    declared_checked: bool,
    stored: Option<CheckboxBuildState>,
) -> bool {
    match stored {
        Some(st) => if st.declared_checked == declared_checked {
            st.checked
        } else {
            checked
        },
        None => checked,
    }
}

/// Restore a checkbox's checked state from what its previous build stored.
pub fn restored_checked(
    checked: bool,
    declared_checked: bool,
    stored: Option<CheckboxBuildState>,
) -> (r: bool)
    ensures
        r == spec_restored_checked(checked, declared_checked, stored),
{
    match stored {
        Some(st) => if st.declared_checked == declared_checked {
            st.checked
        } else {
            checked
        },
        None => checked,
    }
}

/// A toggled checkbox that is rebuilt with the same declaration keeps the toggled value;
/// a new declaration replaces it.
pub proof fn lemma_rebuild_keeps_toggle(toggled: bool, declared: bool, fresh: bool)
    ensures
        spec_restored_checked(
            fresh,
            declared,
            Some(CheckboxBuildState { checked: toggled, declared_checked: declared }),
        ) == toggled,
        spec_restored_checked(
            fresh,
            !declared,
            Some(CheckboxBuildState { checked: toggled, declared_checked: declared }),
        ) == fresh,
{
}

} // verus!

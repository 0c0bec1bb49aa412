//! Translation of platform keyboard, pointer and text events into input events.
use vstd::prelude::*;
use crate::chars::{chars_of, spec_is_control, char_is_control, str_eq};
use crate::platform::{PlatformId, ShortcutProfile, spec_shortcut_profile};

verus! {

/// Named keys the widget tree reacts to.
#[derive(Clone, Copy, Debug, PartialEq, Eq)]
pub enum NamedKey {
    Enter,
    Tab,
    Backspace,
    Delete,
    Escape,
    ArrowUp,
    ArrowDown,
    ArrowLeft,
    ArrowRight,
    Home,
    End,
    PageUp,
    PageDown,
}

/// A logical key: a character string or a named key.
#[derive(Clone, Debug)]
pub enum Key {
    Character(String),
    Named(NamedKey),
}

/// A key as a mathematical value.
pub enum KeyView {
    Character(Seq<char>),
    Named(NamedKey),
}

impl View for Key {
    type V = KeyView;

    open spec fn view(&self) -> KeyView {
        match self {
            Key::Character(s) => KeyView::Character(s@),
            Key::Named(n) => KeyView::Named(*n),
        }
    }
}

/// An optional key as a mathematical value.
pub open spec fn opt_key_view(k: Option<Key>) -> Option<KeyView> {
    match k {
        Some(k) => Some(k@),
        None => None,
    }
}

/// Held modifier keys.
#[derive(Clone, Copy, Debug, PartialEq, Eq)]
pub struct Modifiers {
    pub shift: bool,
    pub ctrl: bool,
    pub alt: bool,
    pub meta: bool,
}

impl Modifiers {
    /// No modifier held.
    pub fn empty() -> (r: Self)
        ensures
            !r.shift && !r.ctrl && !r.alt && !r.meta,
    {
        Modifiers { shift: false, ctrl: false, alt: false, meta: false }
    }

    /// Only shift held.
    pub fn shift_only() -> (r: Self)
        ensures
            r.shift && !r.ctrl && !r.alt && !r.meta,
    {
        Modifiers { shift: true, ctrl: false, alt: false, meta: false }
    }

    /// Only control held.
    pub fn control_only() -> (r: Self)
        ensures
            !r.shift && r.ctrl && !r.alt && !r.meta,
    {
        Modifiers { shift: false, ctrl: true, alt: false, meta: false }
    }

    /// Only alt held.
    pub fn alt_only() -> (r: Self)
        ensures
            !r.shift && !r.ctrl && r.alt && !r.meta,
    {
        Modifiers { shift: false, ctrl: false, alt: true, meta: false }
    }

    /// Only meta held.
    pub fn meta_only() -> (r: Self)
        ensures
            !r.shift && !r.ctrl && !r.alt && r.meta,
    {
        Modifiers { shift: false, ctrl: false, alt: false, meta: true }
    }

    /// Whether alt is held.
    pub fn alt(&self) -> (r: bool)
        ensures
            r == self.alt,
    {
        self.alt
    }
}

/// Whether the profile's primary shortcut modifier is held.
pub open spec fn spec_primary_modifier_for(profile: ShortcutProfile, modifiers: Modifiers) -> bool {
    match profile {
        ShortcutProfile::CommandPrimary => modifiers.meta,
        ShortcutProfile::ControlPrimary => modifiers.ctrl,
    }
}

/// Whether the profile's primary shortcut modifier is held.
pub fn primary_modifier_for(profile: ShortcutProfile, modifiers: Modifiers) -> (r: bool)
    ensures
        r == spec_primary_modifier_for(profile, modifiers),
{
    match profile {
        ShortcutProfile::CommandPrimary => modifiers.meta,
        ShortcutProfile::ControlPrimary => modifiers.ctrl,
    }
}

/// Pointer buttons.
#[derive(Clone, Copy, Debug, PartialEq, Eq)]
pub enum PointerButton {
    Primary,
    Secondary,
    Auxiliary,
}

/// A key press or release.
#[derive(Clone, Debug)]
pub struct KeyboardEvent {
    pub key: Key,
    pub modifiers: Modifiers,
    pub repeat: bool,
}

/// Input events the widget tree receives from keyboard and text sources.
#[derive(Clone, Debug)]
pub enum InputEvent {
    KeyDown { event: KeyboardEvent },
    KeyUp { event: KeyboardEvent },
    TextInput { text: String },
    CompositionStart,
    CompositionUpdate { text: String },
    CompositionEnd { text: String },
    Paste { text: String },
}

/// The kind of input event and the key or text it carries, as mathematical values.
pub enum InputEventView {
    KeyDown { key: KeyView, modifiers: Modifiers, repeat: bool },
    KeyUp { key: KeyView, modifiers: Modifiers, repeat: bool },
    TextInput { text: Seq<char> },
    CompositionStart,
    CompositionUpdate { text: Seq<char> },
    CompositionEnd { text: Seq<char> },
    Paste { text: Seq<char> },
}

impl View for InputEvent {
    type V = InputEventView;

    open spec fn view(&self) -> InputEventView {
        match self {
            InputEvent::KeyDown { event } => InputEventView::KeyDown {
                key: event.key@,
                modifiers: event.modifiers,
                repeat: event.repeat,
            },
            InputEvent::KeyUp { event } => InputEventView::KeyUp {
                key: event.key@,
                modifiers: event.modifiers,
                repeat: event.repeat,
            },
            InputEvent::TextInput { text } => InputEventView::TextInput { text: text@ },
            InputEvent::CompositionStart => InputEventView::CompositionStart,
            InputEvent::CompositionUpdate { text } => InputEventView::CompositionUpdate { text: text@ },
            InputEvent::CompositionEnd { text } => InputEventView::CompositionEnd { text: text@ },
            InputEvent::Paste { text } => InputEventView::Paste { text: text@ },
        }
    }
}

/// An optional input event as a mathematical value.
pub open spec fn opt_event_view(e: Option<InputEvent>) -> Option<InputEventView> {
    match e {
        Some(e) => Some(e@),
        None => None,
    }
}

/// The editing and navigation actions the shortcut mapper can produce.
#[derive(Clone, Copy, Debug, PartialEq, Eq)]
pub enum StandardAction {
    Activate,
    Cancel,
    FocusNext,
    FocusPrevious,
    SelectAll,
    Copy,
    Cut,
    Paste,
    Undo,
    Redo,
    Backspace,
    Delete,
    MoveLeft,
    MoveRight,
    MoveUp,
    MoveDown,
    MoveWordLeft,
    MoveWordRight,
    MoveToStart,
    MoveToEnd,
    SelectLeft,
    SelectRight,
    SelectUp,
    SelectDown,
    SelectWordLeft,
    SelectWordRight,
    SelectToStart,
    SelectToEnd,
}

// ---------------------------------------------------------------------------
// Web
// ---------------------------------------------------------------------------

/// The outcome of a browser `keydown`.
#[derive(Clone, Debug)]
pub struct WebKeyboardDispatch {
    pub keyboard_event: Option<InputEvent>,
    pub text_event: Option<InputEvent>,
    pub prevent_default: bool,
}

/// The named key a browser `key` value denotes.
pub open spec fn spec_web_named_key(key: Seq<char>) -> Option<NamedKey> {
    if key == "Enter"@ {
        Some(NamedKey::Enter)
    } else if key == "Tab"@ {
        Some(NamedKey::Tab)
    } else if key == "Backspace"@ {
        Some(NamedKey::Backspace)
    } else if key == "Delete"@ {
        Some(NamedKey::Delete)
    } else if key == "Escape"@ {
        Some(NamedKey::Escape)
    } else if key == "ArrowUp"@ {
        Some(NamedKey::ArrowUp)
    } else if key == "ArrowDown"@ {
        Some(NamedKey::ArrowDown)
    } else if key == "ArrowLeft"@ {
        Some(NamedKey::ArrowLeft)
    } else if key == "ArrowRight"@ {
        Some(NamedKey::ArrowRight)
    } else if key == "Home"@ {
        Some(NamedKey::Home)
    } else if key == "End"@ {
        Some(NamedKey::End)
    } else if key == "PageUp"@ {
        Some(NamedKey::PageUp)
    } else if key == "PageDown"@ {
        Some(NamedKey::PageDown)
    } else {
        None
    }
}

/// The logical key a browser `key` value denotes: a named key, a single character, or none.
pub open spec fn spec_web_map_key(key: Seq<char>) -> Option<KeyView> {
    match spec_web_named_key(key) {
        Some(n) => Some(KeyView::Named(n)),
        None => if key.len() == 1 { Some(KeyView::Character(key)) } else { None },
    }
}

/// A single character typed without ctrl, alt or meta.
pub open spec fn spec_is_plain_printable_key(key: Seq<char>, ctrl: bool, alt: bool, meta: bool) -> bool {
    key.len() == 1 && !ctrl && !alt && !meta
}

/// Whether a text editor keeps the browser's default for a key mapped to `action`.
pub open spec fn spec_should_prevent_for_action(key: KeyView, action: StandardAction) -> bool {
    match action {
        StandardAction::FocusNext | StandardAction::FocusPrevious | StandardAction::SelectAll
        | StandardAction::Undo | StandardAction::Redo | StandardAction::Backspace
        | StandardAction::Delete | StandardAction::MoveLeft | StandardAction::MoveRight
        | StandardAction::MoveUp | StandardAction::MoveDown | StandardAction::MoveWordLeft
        | StandardAction::MoveWordRight | StandardAction::MoveToStart | StandardAction::MoveToEnd
        | StandardAction::SelectLeft | StandardAction::SelectRight | StandardAction::SelectUp
        | StandardAction::SelectDown | StandardAction::SelectWordLeft
        | StandardAction::SelectWordRight | StandardAction::SelectToStart
        | StandardAction::SelectToEnd | StandardAction::Cancel => true,
        StandardAction::Activate => key != KeyView::Character(seq![' ']),
        _ => false,
    }
}

/// Whether `keydown`'s browser default is prevented.
pub open spec fn spec_web_prevent_default(
    key: Seq<char>,
    focused_text_editor: bool,
    mapped_action: Option<StandardAction>,
) -> bool {
    match spec_web_map_key(key) {
        None => false,
        Some(k) => match mapped_action {
            None => false,
            Some(a) => if focused_text_editor {
                spec_should_prevent_for_action(k, a)
            } else {
                a == StandardAction::FocusNext || a == StandardAction::FocusPrevious
            },
        },
    }
}

/// Translates browser events.
#[derive(Clone, Copy, Debug, PartialEq, Eq)]
pub struct WebEventTranslator;

fn key_is(v: &Vec<char>, name: &str) -> (r: bool)
    ensures
        r == (v@ == name@),
{
    let n = chars_of(name);
    crate::chars::chars_eq(v, &n)
}

impl WebEventTranslator {
    /// The translator.
    pub fn new() -> (r: Self) {
        WebEventTranslator
    }

    /// The web follows the command-primary shortcut profile.
    pub fn platform_id(&self) -> (r: PlatformId)
        ensures
            r == PlatformId::Web,
    {
        PlatformId::Web
    }

    /// The shortcut profile of the web platform.
    pub fn shortcut_profile(&self) -> (r: ShortcutProfile)
        ensures
            r == spec_shortcut_profile(PlatformId::Web),
    {
        PlatformId::Web.shortcut_profile()
    }

    /// Modifiers from the browser's flags.
    pub fn modifiers_from_flags(&self, shift: bool, ctrl: bool, alt: bool, meta: bool) -> (r: Modifiers)
        ensures
            r == (Modifiers { shift, ctrl, alt, meta }),
    {
        let mut modifiers = Modifiers::empty();
        if shift {
            modifiers.shift = true;
        }
        if ctrl {
            modifiers.ctrl = true;
        }
        if alt {
            modifiers.alt = true;
        }
        if meta {
            modifiers.meta = true;
        }
        modifiers
    }

    /// The logical key a browser `key` value denotes.
    pub fn map_key(&self, key: &str) -> (r: Option<Key>)
        ensures
            opt_key_view(r) == spec_web_map_key(key@),
    {
        let v = chars_of(key);
        let named = if key_is(&v, "Enter") {
            Some(NamedKey::Enter)
        } else if key_is(&v, "Tab") {
            Some(NamedKey::Tab)
        } else if key_is(&v, "Backspace") {
            Some(NamedKey::Backspace)
        } else if key_is(&v, "Delete") {
            Some(NamedKey::Delete)
        } else if key_is(&v, "Escape") {
            Some(NamedKey::Escape)
        } else if key_is(&v, "ArrowUp") {
            Some(NamedKey::ArrowUp)
        } else if key_is(&v, "ArrowDown") {
            Some(NamedKey::ArrowDown)
        } else if key_is(&v, "ArrowLeft") {
            Some(NamedKey::ArrowLeft)
        } else if key_is(&v, "ArrowRight") {
            Some(NamedKey::ArrowRight)
        } else if key_is(&v, "Home") {
            Some(NamedKey::Home)
        } else if key_is(&v, "End") {
            Some(NamedKey::End)
        } else if key_is(&v, "PageUp") {
            Some(NamedKey::PageUp)
        } else if key_is(&v, "PageDown") {
            Some(NamedKey::PageDown)
        } else {
            None
        };
        match named {
            Some(n) => Some(Key::Named(n)),
            None => {
                if v.len() == 1 {
                    Some(Key::Character(key.to_owned()))
                } else {
                    None
                }
            },
        }
    }

    /// The pointer button a browser `button` number denotes.
    pub fn map_mouse_button(&self, button: i16) -> (r: PointerButton)
        ensures
            r == (if button == 1 {
                PointerButton::Auxiliary
            } else if button == 2 {
                PointerButton::Secondary
            } else {
                PointerButton::Primary
            }),
    {
        match button {
            0 => PointerButton::Primary,
            1 => PointerButton::Auxiliary,
            2 => PointerButton::Secondary,
            _ => PointerButton::Primary,
        }
    }

    /// A single character typed without ctrl, alt or meta.
    pub fn is_plain_printable_key(&self, key: &str, ctrl: bool, alt: bool, meta: bool) -> (r: bool)
        ensures
            r == spec_is_plain_printable_key(key@, ctrl, alt, meta),
    {
        let v = chars_of(key);
        v.len() == 1 && !ctrl && !alt && !meta
    }

    /// Whether a `keydown` also yields typed text.
    pub fn should_emit_text(&self, key: &str, ctrl: bool, alt: bool, meta: bool) -> (r: bool)
        ensures
            r == spec_is_plain_printable_key(key@, ctrl, alt, meta),
    {
        self.is_plain_printable_key(key, ctrl, alt, meta)
    }

    /// Whether a `keydown` reaches the widget tree: plain printable keys stay with a
    /// focused text editor's browser input.
    pub fn should_forward_keydown_to_widget_tree(
        &self,
        focused_text_editor: bool,
        key: &str,
        ctrl: bool,
        alt: bool,
        meta: bool,
    ) -> (r: bool)
        ensures
            r == (!focused_text_editor || !spec_is_plain_printable_key(key@, ctrl, alt, meta)),
    {
        !focused_text_editor || !self.is_plain_printable_key(key, ctrl, alt, meta)
    }

    /// Whether a focused text editor prevents the browser default for `action`.
    pub fn should_prevent_keydown_for_text_editor_action(
        &self,
        event: &KeyboardEvent,
        action: StandardAction,
    ) -> (r: bool)
        ensures
            r == spec_should_prevent_for_action(event.key@, action),
    {
        match action {
            StandardAction::FocusNext | StandardAction::FocusPrevious | StandardAction::SelectAll
            | StandardAction::Undo | StandardAction::Redo | StandardAction::Backspace
            | StandardAction::Delete | StandardAction::MoveLeft | StandardAction::MoveRight
            | StandardAction::MoveUp | StandardAction::MoveDown | StandardAction::MoveWordLeft
            | StandardAction::MoveWordRight | StandardAction::MoveToStart
            | StandardAction::MoveToEnd | StandardAction::SelectLeft
            | StandardAction::SelectRight | StandardAction::SelectUp
            | StandardAction::SelectDown | StandardAction::SelectWordLeft
            | StandardAction::SelectWordRight | StandardAction::SelectToStart
            | StandardAction::SelectToEnd | StandardAction::Cancel => true,
            StandardAction::Activate => {
                match &event.key {
                    Key::Character(value) => {
                        let v = chars_of(value.as_str());
                        let is_space = v.len() == 1 && v[0] == ' ';
                        proof {
                            if v@.len() == 1 && v@[0] == ' ' {
                                assert(v@ =~= seq![' ']);
                            }
                        }
                        !is_space
                    },
                    Key::Named(_) => true,
                }
            },
            _ => false,
        }
    }

    /// Translate a browser `keydown`. `mapped_action` is what the shortcut mapper made of
    /// the keyboard event for the web's shortcut profile, if it made a standard action.
    pub fn translate_key_down(
        &self,
        key: &str,
        shift: bool,
        ctrl: bool,
        alt: bool,
        meta: bool,
        focused_text_editor: bool,
        mapped_action: Option<StandardAction>,
    ) -> (r: WebKeyboardDispatch)
        ensures
            r.prevent_default == spec_web_prevent_default(key@, focused_text_editor, mapped_action),
            opt_event_view(r.keyboard_event) == (match spec_web_map_key(key@) {
                Some(k) => if !focused_text_editor || !spec_is_plain_printable_key(key@, ctrl, alt, meta) {
                    Some(InputEventView::KeyDown { key: k, modifiers: Modifiers { shift, ctrl, alt, meta }, repeat: false })
                } else {
                    None
                },
                None => None,
            }),
            opt_event_view(r.text_event) == (if !focused_text_editor && spec_is_plain_printable_key(key@, ctrl, alt, meta) {
                Some(InputEventView::TextInput { text: key@ })
            } else {
                None
            }),
    {
        let modifiers = self.modifiers_from_flags(shift, ctrl, alt, meta);
        let mapped = self.map_key(key);
        let (keyboard_event, prevent_default) = match mapped {
            Some(k) => {
                let event = KeyboardEvent { key: k, modifiers, repeat: false };
                let prevent = match mapped_action {
                    None => false,
                    Some(action) => if focused_text_editor {
                        self.should_prevent_keydown_for_text_editor_action(&event, action)
                    } else {
                        match action {
                            StandardAction::FocusNext | StandardAction::FocusPrevious => true,
                            _ => false,
                        }
                    },
                };
                let forwarded = if self.should_forward_keydown_to_widget_tree(focused_text_editor, key, ctrl, alt, meta) {
                    Some(InputEvent::KeyDown { event })
                } else {
                    None
                };
                (forwarded, prevent)
            },
            None => (None, false),
        };
        let text_event = if !focused_text_editor && self.should_emit_text(key, ctrl, alt, meta) {
            Some(InputEvent::TextInput { text: key.to_owned() })
        } else {
            None
        };
        WebKeyboardDispatch { keyboard_event, text_event, prevent_default }
    }

    /// Translate a browser `keyup`.
    pub fn translate_key_up(&self, key: &str, shift: bool, ctrl: bool, alt: bool, meta: bool) -> (r: Option<InputEvent>)
        ensures
            opt_event_view(r) == (match spec_web_map_key(key@) {
                Some(k) => Some(InputEventView::KeyUp { key: k, modifiers: Modifiers { shift, ctrl, alt, meta }, repeat: false }),
                None => None,
            }),
    {
        let mapped = self.map_key(key);
        match mapped {
            Some(k) => {
                let modifiers = self.modifiers_from_flags(shift, ctrl, alt, meta);
                Some(InputEvent::KeyUp { event: KeyboardEvent { key: k, modifiers, repeat: false } })
            },
            None => None,
        }
    }

    /// Translate a `beforeinput` event: inserted text reaches a focused editor unless the
    /// input bridge is syncing.
    pub fn translate_before_input(
        &self,
        input_type: &str,
        data: Option<String>,
        bridge_syncing: bool,
        focused_text_editor: bool,
    ) -> (r: Option<InputEvent>)
        ensures
            opt_event_view(r) == (if !bridge_syncing && focused_text_editor && input_type@ == "insertText"@ {
                match data {
                    Some(text) => Some(InputEventView::TextInput { text: text@ }),
                    None => None,
                }
            } else {
                None
            }),
    {
        if bridge_syncing || !focused_text_editor {
            return None;
        }
        if str_eq(input_type, "insertText") {
            match data {
                Some(text) => Some(InputEvent::TextInput { text }),
                None => None,
            }
        } else {
            None
        }
    }

    /// Translate `compositionstart`.
    pub fn translate_composition_start(&self, bridge_syncing: bool, focused_text_editor: bool) -> (r: Option<InputEvent>)
        ensures
            opt_event_view(r) == (if !bridge_syncing && focused_text_editor {
                Some(InputEventView::CompositionStart)
            } else {
                None
            }),
    {
        if !bridge_syncing && focused_text_editor {
            Some(InputEvent::CompositionStart)
        } else {
            None
        }
    }

    /// Translate `compositionupdate`.
    pub fn translate_composition_update(
        &self,
        text: String,
        bridge_syncing: bool,
        focused_text_editor: bool,
    ) -> (r: Option<InputEvent>)
        ensures
            opt_event_view(r) == (if !bridge_syncing && focused_text_editor {
                Some(InputEventView::CompositionUpdate { text: text@ })
            } else {
                None
            }),
    {
        if !bridge_syncing && focused_text_editor {
            Some(InputEvent::CompositionUpdate { text })
        } else {
            None
        }
    }

    /// Translate `compositionend`.
    pub fn translate_composition_end(
        &self,
        text: String,
        bridge_syncing: bool,
        focused_text_editor: bool,
    ) -> (r: Option<InputEvent>)
        ensures
            opt_event_view(r) == (if !bridge_syncing && focused_text_editor {
                Some(InputEventView::CompositionEnd { text: text@ })
            } else {
                None
            }),
    {
        if !bridge_syncing && focused_text_editor {
            Some(InputEvent::CompositionEnd { text })
        } else {
            None
        }
    }

    /// Translate a `paste`: pasted text reaches a focused editor.
    pub fn translate_paste(&self, text: Option<String>, focused_text_editor: bool) -> (r: Option<InputEvent>)
        ensures
            opt_event_view(r) == (match text {
                Some(t) => if focused_text_editor { Some(InputEventView::Paste { text: t@ }) } else { None },
                None => None,
            }),
    {
        if !focused_text_editor {
            return None;
        }
        match text {
            Some(text) => Some(InputEvent::Paste { text }),
            None => None,
        }
    }
}

// ---------------------------------------------------------------------------
// Native
// ---------------------------------------------------------------------------

/// The named keys a native window reports that the runtime distinguishes.
#[derive(Clone, Copy, Debug, PartialEq, Eq)]
pub enum NativeNamedKey {
    Space,
    Enter,
    Tab,
    Backspace,
    Delete,
    Escape,
    ArrowUp,
    ArrowDown,
    ArrowLeft,
    ArrowRight,
    Home,
    End,
    PageUp,
    PageDown,
    /// Any other named key.
    Other,
}

/// A key as a native window reports it.
#[derive(Clone, Debug)]
pub enum NativeKey {
    Character(String),
    Named(NativeNamedKey),
    /// A key the window could not identify.
    Unidentified,
}

/// Mouse buttons as a native window reports them.
#[derive(Clone, Copy, Debug, PartialEq, Eq)]
pub enum MouseButton {
    Left,
    Right,
    Middle,
    Other,
}

/// Input method events of a native window.
#[derive(Clone, Debug)]
pub enum ImeEvent {
    Enabled,
    Disabled,
    Preedit(String),
    Commit(String),
}

/// The outcome of a native keyboard event.
#[derive(Clone, Debug)]
pub struct NativeKeyboardDispatch {
    pub keyboard_event: Option<InputEvent>,
    pub text_event: Option<InputEvent>,
}

/// The logical key of a native key: space becomes the character " ".
pub open spec fn spec_native_map_key(key: NativeKey) -> Option<KeyView> {
    match key {
        NativeKey::Character(s) => Some(KeyView::Character(s@)),
        NativeKey::Named(n) => match n {
            NativeNamedKey::Space => Some(KeyView::Character(seq![' '])),
            NativeNamedKey::Enter => Some(KeyView::Named(NamedKey::Enter)),
            NativeNamedKey::Tab => Some(KeyView::Named(NamedKey::Tab)),
            NativeNamedKey::Backspace => Some(KeyView::Named(NamedKey::Backspace)),
            NativeNamedKey::Delete => Some(KeyView::Named(NamedKey::Delete)),
            NativeNamedKey::Escape => Some(KeyView::Named(NamedKey::Escape)),
            NativeNamedKey::ArrowUp => Some(KeyView::Named(NamedKey::ArrowUp)),
            NativeNamedKey::ArrowDown => Some(KeyView::Named(NamedKey::ArrowDown)),
            NativeNamedKey::ArrowLeft => Some(KeyView::Named(NamedKey::ArrowLeft)),
            NativeNamedKey::ArrowRight => Some(KeyView::Named(NamedKey::ArrowRight)),
            NativeNamedKey::Home => Some(KeyView::Named(NamedKey::Home)),
            NativeNamedKey::End => Some(KeyView::Named(NamedKey::End)),
            NativeNamedKey::PageUp => Some(KeyView::Named(NamedKey::PageUp)),
            NativeNamedKey::PageDown => Some(KeyView::Named(NamedKey::PageDown)),
            NativeNamedKey::Other => None,
        },
        NativeKey::Unidentified => None,
    }
}

/// Whether native text is inserted: nonempty, no control character, and neither the
/// primary shortcut modifier nor alt held.
pub open spec fn spec_native_should_emit_text(profile: ShortcutProfile, text: Seq<char>, modifiers: Modifiers) -> bool {
    &&& text.len() > 0
    &&& forall|i: int| 0 <= i < text.len() ==> !spec_is_control(#[trigger] text[i])
    &&& !spec_primary_modifier_for(profile, modifiers)
    &&& !modifiers.alt
}

/// Translates native window events for one platform.
#[derive(Clone, Copy, Debug, PartialEq, Eq)]
pub struct NativeEventTranslator {
    platform_id: PlatformId,
}

impl NativeEventTranslator {
    /// The platform this translator serves.
    pub closed spec fn spec_platform(self) -> PlatformId {
        self.platform_id
    }

    /// A translator for `platform_id`.
    pub fn new(platform_id: PlatformId) -> (r: Self)
        ensures
            r.spec_platform() == platform_id,
    {
        NativeEventTranslator { platform_id }
    }

    /// The platform this translator serves.
    pub fn platform_id(&self) -> (r: PlatformId)
        ensures
            r == self.spec_platform(),
    {
        self.platform_id
    }

    /// The platform's shortcut profile.
    pub fn shortcut_profile(&self) -> (r: ShortcutProfile)
        ensures
            r == spec_shortcut_profile(self.spec_platform()),
    {
        self.platform_id.shortcut_profile()
    }

    /// The pointer button of a mouse button; other buttons count as primary.
    pub fn map_mouse_button(&self, button: MouseButton) -> (r: PointerButton)
        ensures
            r == (match button {
                MouseButton::Right => PointerButton::Secondary,
                MouseButton::Middle => PointerButton::Auxiliary,
                _ => PointerButton::Primary,
            }),
    {
        match button {
            MouseButton::Left => PointerButton::Primary,
            MouseButton::Right => PointerButton::Secondary,
            MouseButton::Middle => PointerButton::Auxiliary,
            MouseButton::Other => PointerButton::Primary,
        }
    }

    /// The logical key of a native key.
    pub fn map_key(&self, key: &NativeKey) -> (r: Option<Key>)
        ensures
            opt_key_view(r) == spec_native_map_key(*key),
    {
        match key {
            NativeKey::Character(value) => Some(Key::Character(value.clone())),
            NativeKey::Named(named) => match named {
                NativeNamedKey::Space => {
                    let mut s = String::new();
                    crate::chars::string_push(&mut s, ' ');
                    Some(Key::Character(s))
                },
                NativeNamedKey::Enter => Some(Key::Named(NamedKey::Enter)),
                NativeNamedKey::Tab => Some(Key::Named(NamedKey::Tab)),
                NativeNamedKey::Backspace => Some(Key::Named(NamedKey::Backspace)),
                NativeNamedKey::Delete => Some(Key::Named(NamedKey::Delete)),
                NativeNamedKey::Escape => Some(Key::Named(NamedKey::Escape)),
                NativeNamedKey::ArrowUp => Some(Key::Named(NamedKey::ArrowUp)),
                NativeNamedKey::ArrowDown => Some(Key::Named(NamedKey::ArrowDown)),
                NativeNamedKey::ArrowLeft => Some(Key::Named(NamedKey::ArrowLeft)),
                NativeNamedKey::ArrowRight => Some(Key::Named(NamedKey::ArrowRight)),
                NativeNamedKey::Home => Some(Key::Named(NamedKey::Home)),
                NativeNamedKey::End => Some(Key::Named(NamedKey::End)),
                NativeNamedKey::PageUp => Some(Key::Named(NamedKey::PageUp)),
                NativeNamedKey::PageDown => Some(Key::Named(NamedKey::PageDown)),
                NativeNamedKey::Other => None,
            },
            NativeKey::Unidentified => None,
        }
    }

    /// Whether typed text from the window is inserted.
    pub fn should_emit_text(&self, text: &str, modifiers: Modifiers) -> (r: bool)
        ensures
            r == spec_native_should_emit_text(spec_shortcut_profile(self.spec_platform()), text@, modifiers),
    {
        let v = chars_of(text);
        if v.len() == 0 {
            return false;
        }
        let mut i: usize = 0;
        while i < v.len()
            invariant
                i <= v.len(),
                v@ == text@,
                forall|j: int| 0 <= j < i ==> !spec_is_control(#[trigger] v@[j]),
            decreases v.len() - i,
        {
            if char_is_control(v[i]) {
                return false;
            }
            i += 1;
        }
        !primary_modifier_for(self.shortcut_profile(), modifiers) && !modifiers.alt()
    }

    /// Translate a native keyboard event.
    pub fn translate_keyboard(
        &self,
        key: &NativeKey,
        pressed: bool,
        modifiers: Modifiers,
        repeat: bool,
        text: Option<&str>,
    ) -> (r: NativeKeyboardDispatch)
        ensures
            opt_event_view(r.keyboard_event) == (match spec_native_map_key(*key) {
                Some(k) => if pressed {
                    Some(InputEventView::KeyDown { key: k, modifiers, repeat })
                } else {
                    Some(InputEventView::KeyUp { key: k, modifiers, repeat })
                },
                None => None,
            }),
            opt_event_view(r.text_event) == (match text {
                Some(t) => if pressed && !repeat && spec_native_should_emit_text(
                    spec_shortcut_profile(self.spec_platform()),
                    t@,
                    modifiers,
                ) {
                    Some(InputEventView::TextInput { text: t@ })
                } else {
                    None
                },
                None => None,
            }),
    {
        let keyboard_event = match self.map_key(key) {
            Some(k) => {
                let event = KeyboardEvent { key: k, modifiers, repeat };
                if pressed {
                    Some(InputEvent::KeyDown { event })
                } else {
                    Some(InputEvent::KeyUp { event })
                }
            },
            None => None,
        };
        let text_event = if pressed && !repeat {
            match text {
                Some(value) => if self.should_emit_text(value, modifiers) {
                    Some(InputEvent::TextInput { text: value.to_owned() })
                } else {
                    None
                },
                None => None,
            }
        } else {
            None
        };
        NativeKeyboardDispatch { keyboard_event, text_event }
    }

    /// Translate an input method event; a preedit opens a composition when none is open.
    pub fn translate_ime(&self, event: &ImeEvent, ime_composing: bool) -> (r: Vec<InputEvent>)
        ensures
            r@.map_values(|e: InputEvent| e@) == spec_translate_ime(*event, ime_composing),
    {
        let mut events: Vec<InputEvent> = Vec::new();
        match event {
            ImeEvent::Enabled | ImeEvent::Disabled => {},
            ImeEvent::Preedit(text) => {
                if !ime_composing {
                    events.push(InputEvent::CompositionStart);
                }
                events.push(InputEvent::CompositionUpdate { text: text.clone() });
            },
            ImeEvent::Commit(text) => {
                events.push(InputEvent::CompositionEnd { text: text.clone() });
            },
        }
        assert(events@.map_values(|e: InputEvent| e@) =~= spec_translate_ime(*event, ime_composing));
        events
    }
}

/// The input events an input method event becomes: a preedit opens a composition when
/// none is open and updates it, a commit ends it, enabling and disabling emit nothing.
pub open spec fn spec_translate_ime(event: ImeEvent, ime_composing: bool) -> Seq<InputEventView> {
    match event {
        ImeEvent::Enabled | ImeEvent::Disabled => Seq::<InputEventView>::empty(),
        ImeEvent::Preedit(text) => if ime_composing {
            seq![InputEventView::CompositionUpdate { text: text@ }]
        } else {
            seq![InputEventView::CompositionStart, InputEventView::CompositionUpdate { text: text@ }]
        },
        ImeEvent::Commit(text) => seq![InputEventView::CompositionEnd { text: text@ }],
    }
}

/// Whether a composition is open after an input method event: a preedit opens one,
/// a commit or disabling the input method closes it, enabling leaves it as it was.
pub open spec fn spec_ime_composing_after(event: ImeEvent, was_composing: bool) -> bool {
    match event {
        ImeEvent::Preedit(_) => true,
        ImeEvent::Commit(_) | ImeEvent::Disabled => false,
        ImeEvent::Enabled => was_composing,
    }
}

/// Track whether a composition is open across an input method event.
pub fn ime_composing_after(event: &ImeEvent, was_composing: bool) -> (r: bool)
    ensures
        r == spec_ime_composing_after(*event, was_composing),
{
    match event {
        ImeEvent::Preedit(_) => true,
        ImeEvent::Commit(_) | ImeEvent::Disabled => false,
        ImeEvent::Enabled => was_composing,
    }
}

/// A composition is opened once: two preedits in a row emit one composition start, and a
/// commit after them ends the composition.
pub proof fn lemma_preedits_open_one_composition(a: ImeEvent, b: ImeEvent, c: ImeEvent, composing: bool)
    requires
        a is Preedit,
        b is Preedit,
        c is Commit,
    ensures
        ({
            let s1 = spec_ime_composing_after(a, composing);
            let s2 = spec_ime_composing_after(b, s1);
            let events_b = spec_translate_ime(b, s1);
            &&& s1 && s2
            &&& events_b.len() == 1 && events_b[0] is CompositionUpdate
            &&& !spec_ime_composing_after(c, s2)
            &&& spec_translate_ime(c, s2)[0] is CompositionEnd
        }),
{
}

/// How window focus affects the input method: whether it may stay enabled (only while a
/// text editor holds focus in a focused window) and whether an open composition is dropped
/// (when the window loses focus).
pub fn window_focus_ime(focused: bool, editor_focused: bool) -> (r: (bool, bool))
    ensures
        r == (focused && editor_focused, !focused),
{
    (focused && editor_focused, !focused)
}

/// The name a key carries among the UI Events key values (a browser's `key`).
pub open spec fn spec_named_key_name(k: NamedKey) -> Seq<char> {
    match k {
        NamedKey::Enter => "Enter"@,
        NamedKey::Tab => "Tab"@,
        NamedKey::Backspace => "Backspace"@,
        NamedKey::Delete => "Delete"@,
        NamedKey::Escape => "Escape"@,
        NamedKey::ArrowUp => "ArrowUp"@,
        NamedKey::ArrowDown => "ArrowDown"@,
        NamedKey::ArrowLeft => "ArrowLeft"@,
        NamedKey::ArrowRight => "ArrowRight"@,
        NamedKey::Home => "Home"@,
        NamedKey::End => "End"@,
        NamedKey::PageUp => "PageUp"@,
        NamedKey::PageDown => "PageDown"@,
    }
}

/// The name of a key as a native window reports it.
pub open spec fn spec_native_key_name(k: NativeNamedKey) -> Seq<char> {
    match k {
        NativeNamedKey::Space => "Space"@,
        NativeNamedKey::Enter => "Enter"@,
        NativeNamedKey::Tab => "Tab"@,
        NativeNamedKey::Backspace => "Backspace"@,
        NativeNamedKey::Delete => "Delete"@,
        NativeNamedKey::Escape => "Escape"@,
        NativeNamedKey::ArrowUp => "ArrowUp"@,
        NativeNamedKey::ArrowDown => "ArrowDown"@,
        NativeNamedKey::ArrowLeft => "ArrowLeft"@,
        NativeNamedKey::ArrowRight => "ArrowRight"@,
        NativeNamedKey::Home => "Home"@,
        NativeNamedKey::End => "End"@,
        NativeNamedKey::PageUp => "PageUp"@,
        NativeNamedKey::PageDown => "PageDown"@,
        NativeNamedKey::Other => "Other"@,
    }
}


/// A browser key value that names a key maps to the named key of that name.
pub proof fn lemma_web_named_keys_keep_their_name(k: NamedKey)
    ensures
        spec_web_map_key(spec_named_key_name(k)) == Some(KeyView::Named(k)),
{
    reveal_strlit("Enter");
    reveal_strlit("Tab");
    reveal_strlit("Backspace");
    reveal_strlit("Delete");
    reveal_strlit("Escape");
    reveal_strlit("ArrowUp");
    reveal_strlit("ArrowDown");
    reveal_strlit("ArrowLeft");
    reveal_strlit("ArrowRight");
    reveal_strlit("Home");
    reveal_strlit("End");
    reveal_strlit("PageUp");
    reveal_strlit("PageDown");
    match k {
        NamedKey::Enter => {

        },
        NamedKey::Tab => {
            assert("Tab"@.len() != "Enter"@.len());
        },
        NamedKey::Backspace => {
            assert("Backspace"@.len() != "Enter"@.len());
            assert("Backspace"@.len() != "Tab"@.len());
        },
        NamedKey::Delete => {
            assert("Delete"@.len() != "Enter"@.len());
            assert("Delete"@.len() != "Tab"@.len());
            assert("Delete"@.len() != "Backspace"@.len());
        },
        NamedKey::Escape => {
            assert("Escape"@.len() != "Enter"@.len());
            assert("Escape"@.len() != "Tab"@.len());
            assert("Escape"@.len() != "Backspace"@.len());
            assert("Escape"@[0] != "Delete"@[0]);
        },
        NamedKey::ArrowUp => {
            assert("ArrowUp"@.len() != "Enter"@.len());
            assert("ArrowUp"@.len() != "Tab"@.len());
            assert("ArrowUp"@.len() != "Backspace"@.len());
            assert("ArrowUp"@.len() != "Delete"@.len());
            assert("ArrowUp"@.len() != "Escape"@.len());
        },
        NamedKey::ArrowDown => {
            assert("ArrowDown"@.len() != "Enter"@.len());
            assert("ArrowDown"@.len() != "Tab"@.len());
            assert("ArrowDown"@[0] != "Backspace"@[0]);
            assert("ArrowDown"@.len() != "Delete"@.len());
            assert("ArrowDown"@.len() != "Escape"@.len());
            assert("ArrowDown"@.len() != "ArrowUp"@.len());
        },
        NamedKey::ArrowLeft => {
            assert("ArrowLeft"@.len() != "Enter"@.len());
            assert("ArrowLeft"@.len() != "Tab"@.len());
            assert("ArrowLeft"@[0] != "Backspace"@[0]);
            assert("ArrowLeft"@.len() != "Delete"@.len());
            assert("ArrowLeft"@.len() != "Escape"@.len());
            assert("ArrowLeft"@.len() != "ArrowUp"@.len());
            assert("ArrowLeft"@[5] != "ArrowDown"@[5]);
        },
        NamedKey::ArrowRight => {
            assert("ArrowRight"@.len() != "Enter"@.len());
            assert("ArrowRight"@.len() != "Tab"@.len());
            assert("ArrowRight"@.len() != "Backspace"@.len());
            assert("ArrowRight"@.len() != "Delete"@.len());
            assert("ArrowRight"@.len() != "Escape"@.len());
            assert("ArrowRight"@.len() != "ArrowUp"@.len());
            assert("ArrowRight"@.len() != "ArrowDown"@.len());
            assert("ArrowRight"@.len() != "ArrowLeft"@.len());
        },
        NamedKey::Home => {
            assert("Home"@.len() != "Enter"@.len());
            assert("Home"@.len() != "Tab"@.len());
            assert("Home"@.len() != "Backspace"@.len());
            assert("Home"@.len() != "Delete"@.len());
            assert("Home"@.len() != "Escape"@.len());
            assert("Home"@.len() != "ArrowUp"@.len());
            assert("Home"@.len() != "ArrowDown"@.len());
            assert("Home"@.len() != "ArrowLeft"@.len());
            assert("Home"@.len() != "ArrowRight"@.len());
        },
        NamedKey::End => {
            assert("End"@.len() != "Enter"@.len());
            assert("End"@[0] != "Tab"@[0]);
            assert("End"@.len() != "Backspace"@.len());
            assert("End"@.len() != "Delete"@.len());
            assert("End"@.len() != "Escape"@.len());
            assert("End"@.len() != "ArrowUp"@.len());
            assert("End"@.len() != "ArrowDown"@.len());
            assert("End"@.len() != "ArrowLeft"@.len());
            assert("End"@.len() != "ArrowRight"@.len());
            assert("End"@.len() != "Home"@.len());
        },
        NamedKey::PageUp => {
            assert("PageUp"@.len() != "Enter"@.len());
            assert("PageUp"@.len() != "Tab"@.len());
            assert("PageUp"@.len() != "Backspace"@.len());
            assert("PageUp"@[0] != "Delete"@[0]);
            assert("PageUp"@[0] != "Escape"@[0]);
            assert("PageUp"@.len() != "ArrowUp"@.len());
            assert("PageUp"@.len() != "ArrowDown"@.len());
            assert("PageUp"@.len() != "ArrowLeft"@.len());
            assert("PageUp"@.len() != "ArrowRight"@.len());
            assert("PageUp"@.len() != "Home"@.len());
            assert("PageUp"@.len() != "End"@.len());
        },
        NamedKey::PageDown => {
            assert("PageDown"@.len() != "Enter"@.len());
            assert("PageDown"@.len() != "Tab"@.len());
            assert("PageDown"@.len() != "Backspace"@.len());
            assert("PageDown"@.len() != "Delete"@.len());
            assert("PageDown"@.len() != "Escape"@.len());
            assert("PageDown"@.len() != "ArrowUp"@.len());
            assert("PageDown"@.len() != "ArrowDown"@.len());
            assert("PageDown"@.len() != "ArrowLeft"@.len());
            assert("PageDown"@.len() != "ArrowRight"@.len());
            assert("PageDown"@.len() != "Home"@.len());
            assert("PageDown"@.len() != "End"@.len());
            assert("PageDown"@.len() != "PageUp"@.len());
        },
    }
}

/// A native named key maps to the logical named key of the same name; space is typed as
/// the character " ", and keys the runtime does not distinguish map to nothing.
pub proof fn lemma_native_named_keys_keep_their_name(k: NativeNamedKey)
    ensures
        k != NativeNamedKey::Space && k != NativeNamedKey::Other ==> (spec_native_map_key(NativeKey::Named(k)) matches Some(
            KeyView::Named(n),
        ) && spec_named_key_name(n) == spec_native_key_name(k)),
        spec_native_map_key(NativeKey::Named(NativeNamedKey::Space)) == Some(KeyView::Character(seq![' '])),
        spec_native_map_key(NativeKey::Named(NativeNamedKey::Other)) is None,
        spec_native_map_key(NativeKey::Unidentified) is None,
{
    reveal_strlit("Enter");
    reveal_strlit("Tab");
    reveal_strlit("Backspace");
    reveal_strlit("Delete");
    reveal_strlit("Escape");
    reveal_strlit("ArrowUp");
    reveal_strlit("ArrowDown");
    reveal_strlit("ArrowLeft");
    reveal_strlit("ArrowRight");
    reveal_strlit("Home");
    reveal_strlit("End");
    reveal_strlit("PageUp");
    reveal_strlit("PageDown");
    reveal_strlit("Space");
    reveal_strlit("Other");
}

} // verus!

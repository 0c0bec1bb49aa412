//! Public accessibility metadata shared by widgets and runtimes.
use vstd::prelude::*;

verus! {

/// Generic accessibility roles supported by built-in widgets.
#[derive(Clone, Copy, Debug, PartialEq, Eq, Structural)]
pub enum AccessibilityRole {
    GenericContainer,
    Button,
    CheckBox,
    Label,
    TextInput,
    MultilineTextInput,
    List,
    ScrollView,
}

/// Accessibility actions that runtimes or assistive technologies can request.
#[derive(Clone, Copy, Debug, PartialEq, Eq, Structural)]
pub enum AccessibilityAction {
    Click,
    Focus,
    SetValue,
    ScrollUp,
    ScrollDown,
    ScrollLeft,
    ScrollRight,
}

/// Widget-provided accessibility metadata.
#[derive(Clone, Debug, PartialEq, Eq)]
pub struct AccessibilityInfo {
    pub role: Option<AccessibilityRole>,
    pub label: Option<String>,
    pub description: Option<String>,
    pub value: Option<String>,
    pub hidden: bool,
    pub disabled: bool,
    pub checked: Option<bool>,
    pub actions: Vec<AccessibilityAction>,
}

/// The text an optional string holds.
pub open spec fn opt_text(s: Option<String>) -> Option<Seq<char>> {
    match s {
        Some(s) => Some(s@),
        None => None,
    }
}

/// The metadata test of `has_metadata`.
pub open spec fn spec_has_metadata(a: AccessibilityInfo) -> bool {
    a.role is Some || a.label is Some || a.description is Some || a.value is Some || a.hidden || a.disabled
        || a.checked is Some || a.actions@.len() > 0
}

impl Default for AccessibilityInfo {
    fn default() -> (r: Self)
        ensures
            r.role is None,
            r.label is None,
            r.description is None,
            r.value is None,
            !r.hidden,
            !r.disabled,
            r.checked is None,
            r.actions@.len() == 0,
    {
        AccessibilityInfo {
            role: None,
            label: None,
            description: None,
            value: None,
            hidden: false,
            disabled: false,
            checked: None,
            actions: Vec::new(),
        }
    }
}

impl AccessibilityInfo {
    /// Metadata with only a role.
    pub fn new(role: AccessibilityRole) -> (r: Self)
        ensures
            r.role == Some(role),
            r.label is None,
            r.description is None,
            r.value is None,
            !r.hidden,
            !r.disabled,
            r.checked is None,
            r.actions@.len() == 0,
    {
        let mut info = AccessibilityInfo::default();
        info.role = Some(role);
        info
    }

    /// Set the label.
    pub fn label(self, label: &str) -> (r: Self)
        ensures
            opt_text(r.label) == Some(label@),
            r == (AccessibilityInfo { label: r.label, ..self }),
    {
        let mut info = self;
        info.label = Some(label.to_owned());
        info
    }

    /// Set the description.
    pub fn description(self, description: &str) -> (r: Self)
        ensures
            opt_text(r.description) == Some(description@),
            r == (AccessibilityInfo { description: r.description, ..self }),
    {
        let mut info = self;
        info.description = Some(description.to_owned());
        info
    }

    /// Set the value.
    pub fn value(self, value: &str) -> (r: Self)
        ensures
            opt_text(r.value) == Some(value@),
            r == (AccessibilityInfo { value: r.value, ..self }),
    {
        let mut info = self;
        info.value = Some(value.to_owned());
        info
    }

    /// Set whether the node is hidden.
    pub fn hidden(self, hidden: bool) -> (r: Self)
        ensures
            r == (AccessibilityInfo { hidden, ..self }),
    {
        let mut info = self;
        info.hidden = hidden;
        info
    }

    /// Set whether the node is disabled.
    pub fn disabled(self, disabled: bool) -> (r: Self)
        ensures
            r == (AccessibilityInfo { disabled, ..self }),
    {
        let mut info = self;
        info.disabled = disabled;
        info
    }

    /// Set the checked state.
    pub fn checked(self, checked: bool) -> (r: Self)
        ensures
            r == (AccessibilityInfo { checked: Some(checked), ..self }),
    {
        let mut info = self;
        info.checked = Some(checked);
        info
    }

    /// Add a supported action once; an action already listed is not repeated.
    pub fn action(self, action: AccessibilityAction) -> (r: Self)
        ensures
            r.actions@ == spec_add_action(self.actions@, action),
            r == (AccessibilityInfo { actions: r.actions, ..self }),
    {
        let mut info = self;
        let mut i: usize = 0;
        let mut found = false;
        while i < info.actions.len()
            invariant
                i <= info.actions@.len(),
                info == self,
                found == (exists|j: int| 0 <= j < i && info.actions@[j] == action),
            decreases info.actions@.len() - i,
        {
            if info.actions[i] == action {
                found = true;
            }
            i += 1;
        }
        if !found {
            info.actions.push(action);
        }
        info
    }

    /// Whether any metadata is set.
    pub fn has_metadata(&self) -> (r: bool)
        ensures
            r == spec_has_metadata(*self),
    {
        self.role.is_some() || self.label.is_some() || self.description.is_some() || self.value.is_some()
            || self.hidden || self.disabled || self.checked.is_some() || self.actions.len() > 0
    }
}

/// The actions after adding `a`: unchanged when `a` is listed, else `a` appended.
pub open spec fn spec_add_action(actions: Seq<AccessibilityAction>, a: AccessibilityAction) -> Seq<AccessibilityAction> {
    if actions.contains(a) { actions } else { actions.push(a) }
}

/// Adding an action twice is adding it once, an added action is listed, and a list
/// without repeats stays without repeats.
pub proof fn lemma_action_idempotent(actions: Seq<AccessibilityAction>, a: AccessibilityAction)
    ensures
        spec_add_action(spec_add_action(actions, a), a) == spec_add_action(actions, a),
        spec_add_action(actions, a).contains(a),
        actions.no_duplicates() ==> spec_add_action(actions, a).no_duplicates(),
{
    assert(actions.push(a)[actions.len() as int] == a);
}

} // verus!

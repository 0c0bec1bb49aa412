//! Platform capabilities and the effects a runtime asks its platform to carry out.
use vstd::prelude::*;
use crate::chars::{all_whitespace, spec_is_whitespace};

verus! {

/// The shortcut convention a platform follows for its primary modifier.
#[derive(Clone, Copy, Debug, PartialEq, Eq, Hash)]
pub enum ShortcutProfile {
    /// Command (meta) is primary: macOS and the web.
    CommandPrimary,
    /// Control is primary: Windows and Linux.
    ControlPrimary,
}

/// The platforms Sparsha runs on.
#[derive(Clone, Copy, Debug, PartialEq, Eq, Hash)]
pub enum PlatformId {
    MacOs,
    Windows,
    Linux,
    Web,
}

/// The shortcut profile of a platform.
pub open spec fn spec_shortcut_profile(p: PlatformId) -> ShortcutProfile {
    match p {
        PlatformId::MacOs | PlatformId::Web => ShortcutProfile::CommandPrimary,
        PlatformId::Windows | PlatformId::Linux => ShortcutProfile::ControlPrimary,
    }
}

impl PlatformId {
    /// Every platform.
    pub fn all() -> (r: [PlatformId; 4])
        ensures
            r@ == seq![PlatformId::MacOs, PlatformId::Windows, PlatformId::Linux, PlatformId::Web],
    {
        let r = [PlatformId::MacOs, PlatformId::Windows, PlatformId::Linux, PlatformId::Web];
        assert(r@ =~= seq![PlatformId::MacOs, PlatformId::Windows, PlatformId::Linux, PlatformId::Web]);
        r
    }

    /// The shortcut profile of this platform.
    pub fn shortcut_profile(self) -> (r: ShortcutProfile)
        ensures
            r == spec_shortcut_profile(self),
    {
        match self {
            PlatformId::MacOs | PlatformId::Web => ShortcutProfile::CommandPrimary,
            PlatformId::Windows | PlatformId::Linux => ShortcutProfile::ControlPrimary,
        }
    }
}

/// Platform features whose support differs between runtimes.
#[derive(Clone, Copy, Debug, PartialEq, Eq, Hash)]
pub enum PlatformFeature {
    ShortcutProfile,
    PointerCapture,
    ClipboardRead,
    ClipboardWrite,
    ImeComposition,
    TextInputBridge,
    AccessibilityTree,
    SemanticDom,
    NativeAccessibility,
    TextMetricsFallback,
    BackgroundTasks,
    HybridSurface,
    ViewportSync,
    ScrollNormalization,
    TouchInput,
}

impl PlatformFeature {
    /// Every feature.
    pub fn all() -> (r: [PlatformFeature; 15])
        ensures
            forall|f: PlatformFeature| #[trigger] r@.contains(f),
            r@.len() == 15,
    {
        let r = [
            PlatformFeature::ShortcutProfile,
            PlatformFeature::PointerCapture,
            PlatformFeature::ClipboardRead,
            PlatformFeature::ClipboardWrite,
            PlatformFeature::ImeComposition,
            PlatformFeature::TextInputBridge,
            PlatformFeature::AccessibilityTree,
            PlatformFeature::SemanticDom,
            PlatformFeature::NativeAccessibility,
            PlatformFeature::TextMetricsFallback,
            PlatformFeature::BackgroundTasks,
            PlatformFeature::HybridSurface,
            PlatformFeature::ViewportSync,
            PlatformFeature::ScrollNormalization,
            PlatformFeature::TouchInput,
        ];
        assert forall|f: PlatformFeature| #[trigger] r@.contains(f) by {
            match f {
                PlatformFeature::ShortcutProfile => assert(r@[0] == f),
                PlatformFeature::PointerCapture => assert(r@[1] == f),
                PlatformFeature::ClipboardRead => assert(r@[2] == f),
                PlatformFeature::ClipboardWrite => assert(r@[3] == f),
                PlatformFeature::ImeComposition => assert(r@[4] == f),
                PlatformFeature::TextInputBridge => assert(r@[5] == f),
                PlatformFeature::AccessibilityTree => assert(r@[6] == f),
                PlatformFeature::SemanticDom => assert(r@[7] == f),
                PlatformFeature::NativeAccessibility => assert(r@[8] == f),
                PlatformFeature::TextMetricsFallback => assert(r@[9] == f),
                PlatformFeature::BackgroundTasks => assert(r@[10] == f),
                PlatformFeature::HybridSurface => assert(r@[11] == f),
                PlatformFeature::ViewportSync => assert(r@[12] == f),
                PlatformFeature::ScrollNormalization => assert(r@[13] == f),
                PlatformFeature::TouchInput => assert(r@[14] == f),
            }
        }
        r
    }
}

/// How well a platform supports a feature.
#[derive(Clone, Copy, Debug, PartialEq, Eq, Hash)]
pub enum SupportLevel {
    Native,
    Emulated,
    Partial,
    Unsupported,
}

/// What a runtime does when a feature is not natively available.
#[derive(Clone, Copy, Debug, PartialEq, Eq, Hash)]
pub enum FallbackPolicy {
    NoOpWarn,
    Degrade,
    HardError,
}

/// Support for one feature on one platform, with the reason for it.
#[derive(Clone, Copy, Debug)]
pub struct FeatureSupport {
    pub support: SupportLevel,
    pub fallback: FallbackPolicy,
    pub rationale: &'static str,
}

/// The fallback policy that goes with a support level.
pub open spec fn spec_fallback_for(level: SupportLevel) -> FallbackPolicy {
    match level {
        SupportLevel::Native => FallbackPolicy::HardError,
        SupportLevel::Emulated | SupportLevel::Partial => FallbackPolicy::Degrade,
        SupportLevel::Unsupported => FallbackPolicy::NoOpWarn,
    }
}

/// A support record whose fallback follows its level and whose rationale has text.
pub open spec fn spec_well_formed_support(s: FeatureSupport) -> bool {
    &&& s.fallback == spec_fallback_for(s.support)
    &&& !all_whitespace(s.rationale@)
}

impl FeatureSupport {
    fn native(rationale: &'static str) -> (r: Self)
        requires
            rationale@.len() > 0 && !spec_is_whitespace(rationale@[0]),
        ensures
            r.support == SupportLevel::Native,
            spec_well_formed_support(r),
            r.rationale == rationale,
    {
        FeatureSupport { support: SupportLevel::Native, fallback: FallbackPolicy::HardError, rationale }
    }

    fn emulated(rationale: &'static str) -> (r: Self)
        requires
            rationale@.len() > 0 && !spec_is_whitespace(rationale@[0]),
        ensures
            r.support == SupportLevel::Emulated,
            spec_well_formed_support(r),
            r.rationale == rationale,
    {
        FeatureSupport { support: SupportLevel::Emulated, fallback: FallbackPolicy::Degrade, rationale }
    }

    fn partial(rationale: &'static str) -> (r: Self)
        requires
            rationale@.len() > 0 && !spec_is_whitespace(rationale@[0]),
        ensures
            r.support == SupportLevel::Partial,
            spec_well_formed_support(r),
            r.rationale == rationale,
    {
        FeatureSupport { support: SupportLevel::Partial, fallback: FallbackPolicy::Degrade, rationale }
    }

    fn unsupported(rationale: &'static str) -> (r: Self)
        requires
            rationale@.len() > 0 && !spec_is_whitespace(rationale@[0]),
        ensures
            r.support == SupportLevel::Unsupported,
            spec_well_formed_support(r),
            r.rationale == rationale,
    {
        FeatureSupport { support: SupportLevel::Unsupported, fallback: FallbackPolicy::NoOpWarn, rationale }
    }
}

/// Whether a platform is one of the desktop runtimes.
pub open spec fn is_desktop(p: PlatformId) -> bool {
    p != PlatformId::Web
}

/// The capability matrix: how each platform supports each feature.
pub open spec fn spec_support_level(p: PlatformId, f: PlatformFeature) -> SupportLevel {
    match f {
        PlatformFeature::ShortcutProfile => SupportLevel::Native,
        PlatformFeature::PointerCapture => SupportLevel::Emulated,
        PlatformFeature::ClipboardRead => if is_desktop(p) { SupportLevel::Native } else { SupportLevel::Partial },
        PlatformFeature::ClipboardWrite => if is_desktop(p) { SupportLevel::Native } else { SupportLevel::Emulated },
        PlatformFeature::ImeComposition => SupportLevel::Native,
        PlatformFeature::TextInputBridge => if is_desktop(p) { SupportLevel::Unsupported } else { SupportLevel::Emulated },
        PlatformFeature::AccessibilityTree => SupportLevel::Native,
        PlatformFeature::SemanticDom => if is_desktop(p) { SupportLevel::Unsupported } else { SupportLevel::Emulated },
        PlatformFeature::NativeAccessibility => if is_desktop(p) { SupportLevel::Native } else { SupportLevel::Unsupported },
        PlatformFeature::TextMetricsFallback => if is_desktop(p) { SupportLevel::Unsupported } else { SupportLevel::Emulated },
        PlatformFeature::BackgroundTasks => if is_desktop(p) { SupportLevel::Native } else { SupportLevel::Emulated },
        PlatformFeature::HybridSurface => if is_desktop(p) { SupportLevel::Unsupported } else { SupportLevel::Partial },
        PlatformFeature::ViewportSync => SupportLevel::Native,
        PlatformFeature::ScrollNormalization => SupportLevel::Emulated,
        PlatformFeature::TouchInput => if is_desktop(p) { SupportLevel::Partial } else { SupportLevel::Native },
    }
}

/// Why a platform supports a feature the way it does.
pub open spec fn spec_rationale(p: PlatformId, f: PlatformFeature) -> Seq<char> {
    match f {
        PlatformFeature::ShortcutProfile => "shortcut mapping is defined by an explicit profile"@,
        PlatformFeature::PointerCapture => "pointer capture is tracked in the runtime dispatch layer"@,
        PlatformFeature::ClipboardRead => if is_desktop(p) {
            "desktop runtimes can read the system clipboard directly"@
        } else {
            "web relies on browser paste events instead of direct clipboard reads"@
        },
        PlatformFeature::ClipboardWrite => if is_desktop(p) {
            "desktop runtimes can write the system clipboard directly"@
        } else {
            "web writes through browser clipboard events"@
        },
        PlatformFeature::ImeComposition => "native and browser runtimes expose composition events"@,
        PlatformFeature::TextInputBridge => if is_desktop(p) {
            "desktop runtimes use the window IME path and do not need a DOM text bridge"@
        } else {
            "web uses a hidden textarea bridge to align browser editing"@
        },
        PlatformFeature::AccessibilityTree => "all runtimes build the same accessibility snapshot model"@,
        PlatformFeature::SemanticDom => if is_desktop(p) {
            "semantic DOM is only relevant on the web runtime"@
        } else {
            "web mirrors the accessibility tree into a semantic DOM layer"@
        },
        PlatformFeature::NativeAccessibility => if is_desktop(p) {
            "desktop runtimes bridge the shared tree into AccessKit"@
        } else {
            "the web runtime exposes accessibility through semantic DOM"@
        },
        PlatformFeature::TextMetricsFallback => if is_desktop(p) {
            "desktop text measurement uses embedded fonts and Parley directly"@
        } else {
            "web uses a DOM-backed measurement fallback when headless shaping is not sufficient"@
        },
        PlatformFeature::BackgroundTasks => if is_desktop(p) {
            "desktop runtimes use Tokio worker threads"@
        } else {
            "web runtime uses a Web Worker pool"@
        },
        PlatformFeature::HybridSurface => if is_desktop(p) {
            "desktop apps already render through the native GPU surface"@
        } else {
            "hybrid surfaces are available through DrawSurface only"@
        },
        PlatformFeature::ViewportSync => "all runtimes resync viewport state from the host platform"@,
        PlatformFeature::ScrollNormalization => "runtimes normalize wheel and gesture deltas into shared scroll events"@,
        PlatformFeature::TouchInput => if is_desktop(p) {
            "desktop runner currently prioritizes pointer/mouse input over dedicated touch handling"@
        } else {
            "web runtime maps touch events into shared pointer input"@
        },
    }
}

/// The capabilities of one platform.
#[derive(Clone, Copy, Debug, PartialEq, Eq, Hash)]
pub struct PlatformCapabilities {
    platform: PlatformId,
}

impl PlatformCapabilities {
    /// The platform these capabilities describe.
    pub closed spec fn spec_platform(self) -> PlatformId {
        self.platform
    }

    /// Capabilities of `platform`.
    pub fn new(platform: PlatformId) -> (r: Self)
        ensures
            r.spec_platform() == platform,
    {
        PlatformCapabilities { platform }
    }

    /// The platform these capabilities describe.
    pub fn platform(self) -> (r: PlatformId)
        ensures
            r == self.spec_platform(),
    {
        self.platform
    }

    /// The shortcut profile of the platform.
    pub fn shortcut_profile(self) -> (r: ShortcutProfile)
        ensures
            r == spec_shortcut_profile(self.spec_platform()),
    {
        self.platform.shortcut_profile()
    }

    /// How the platform supports `feature`, with the fallback policy and the reason.
    pub fn support(self, feature: PlatformFeature) -> (r: FeatureSupport)
        ensures
            r.support == spec_support_level(self.spec_platform(), feature),
            r.fallback == spec_fallback_for(r.support),
            r.rationale@ == spec_rationale(self.spec_platform(), feature),
            spec_well_formed_support(r),
    {
        match (self.platform, feature) {
            (PlatformId::MacOs, PlatformFeature::ShortcutProfile)
            | (PlatformId::Windows, PlatformFeature::ShortcutProfile)
            | (PlatformId::Linux, PlatformFeature::ShortcutProfile)
            | (PlatformId::Web, PlatformFeature::ShortcutProfile) => {
                proof { reveal_strlit("shortcut mapping is defined by an explicit profile"); }
                FeatureSupport::native("shortcut mapping is defined by an explicit profile")
            },
            (PlatformId::MacOs, PlatformFeature::PointerCapture)
            | (PlatformId::Windows, PlatformFeature::PointerCapture)
            | (PlatformId::Linux, PlatformFeature::PointerCapture)
            | (PlatformId::Web, PlatformFeature::PointerCapture) => {
                proof { reveal_strlit("pointer capture is tracked in the runtime dispatch layer"); }
                FeatureSupport::emulated("pointer capture is tracked in the runtime dispatch layer")
            },
            (PlatformId::MacOs, PlatformFeature::ClipboardRead)
            | (PlatformId::Windows, PlatformFeature::ClipboardRead)
            | (PlatformId::Linux, PlatformFeature::ClipboardRead) => {
                proof { reveal_strlit("desktop runtimes can read the system clipboard directly"); }
                FeatureSupport::native("desktop runtimes can read the system clipboard directly")
            },
            (PlatformId::Web, PlatformFeature::ClipboardRead) => {
                proof { reveal_strlit("web relies on browser paste events instead of direct clipboard reads"); }
                FeatureSupport::partial("web relies on browser paste events instead of direct clipboard reads")
            },
            (PlatformId::MacOs, PlatformFeature::ClipboardWrite)
            | (PlatformId::Windows, PlatformFeature::ClipboardWrite)
            | (PlatformId::Linux, PlatformFeature::ClipboardWrite) => {
                proof { reveal_strlit("desktop runtimes can write the system clipboard directly"); }
                FeatureSupport::native("desktop runtimes can write the system clipboard directly")
            },
            (PlatformId::Web, PlatformFeature::ClipboardWrite) => {
                proof { reveal_strlit("web writes through browser clipboard events"); }
                FeatureSupport::emulated("web writes through browser clipboard events")
            },
            (PlatformId::MacOs, PlatformFeature::ImeComposition)
            | (PlatformId::Windows, PlatformFeature::ImeComposition)
            | (PlatformId::Linux, PlatformFeature::ImeComposition)
            | (PlatformId::Web, PlatformFeature::ImeComposition) => {
                proof { reveal_strlit("native and browser runtimes expose composition events"); }
                FeatureSupport::native("native and browser runtimes expose composition events")
            },
            (PlatformId::Web, PlatformFeature::TextInputBridge) => {
                proof { reveal_strlit("web uses a hidden textarea bridge to align browser editing"); }
                FeatureSupport::emulated("web uses a hidden textarea bridge to align browser editing")
            },
            (PlatformId::MacOs, PlatformFeature::TextInputBridge)
            | (PlatformId::Windows, PlatformFeature::TextInputBridge)
            | (PlatformId::Linux, PlatformFeature::TextInputBridge) => {
                proof { reveal_strlit("desktop runtimes use the window IME path and do not need a DOM text bridge"); }
                FeatureSupport::unsupported("desktop runtimes use the window IME path and do not need a DOM text bridge")
            },
            (PlatformId::MacOs, PlatformFeature::AccessibilityTree)
            | (PlatformId::Windows, PlatformFeature::AccessibilityTree)
            | (PlatformId::Linux, PlatformFeature::AccessibilityTree)
            | (PlatformId::Web, PlatformFeature::AccessibilityTree) => {
                proof { reveal_strlit("all runtimes build the same accessibility snapshot model"); }
                FeatureSupport::native("all runtimes build the same accessibility snapshot model")
            },
            (PlatformId::Web, PlatformFeature::SemanticDom) => {
                proof { reveal_strlit("web mirrors the accessibility tree into a semantic DOM layer"); }
                FeatureSupport::emulated("web mirrors the accessibility tree into a semantic DOM layer")
            },
            (PlatformId::MacOs, PlatformFeature::SemanticDom)
            | (PlatformId::Windows, PlatformFeature::SemanticDom)
            | (PlatformId::Linux, PlatformFeature::SemanticDom) => {
                proof { reveal_strlit("semantic DOM is only relevant on the web runtime"); }
                FeatureSupport::unsupported("semantic DOM is only relevant on the web runtime")
            },
            (PlatformId::MacOs, PlatformFeature::NativeAccessibility)
            | (PlatformId::Windows, PlatformFeature::NativeAccessibility)
            | (PlatformId::Linux, PlatformFeature::NativeAccessibility) => {
                proof { reveal_strlit("desktop runtimes bridge the shared tree into AccessKit"); }
                FeatureSupport::native("desktop runtimes bridge the shared tree into AccessKit")
            },
            (PlatformId::Web, PlatformFeature::NativeAccessibility) => {
                proof { reveal_strlit("the web runtime exposes accessibility through semantic DOM"); }
                FeatureSupport::unsupported("the web runtime exposes accessibility through semantic DOM")
            },
            (PlatformId::Web, PlatformFeature::TextMetricsFallback) => {
                proof { reveal_strlit("web uses a DOM-backed measurement fallback when headless shaping is not sufficient"); }
                FeatureSupport::emulated(
                    "web uses a DOM-backed measurement fallback when headless shaping is not sufficient",
                )
            },
            (PlatformId::MacOs, PlatformFeature::TextMetricsFallback)
            | (PlatformId::Windows, PlatformFeature::TextMetricsFallback)
            | (PlatformId::Linux, PlatformFeature::TextMetricsFallback) => {
                proof { reveal_strlit("desktop text measurement uses embedded fonts and Parley directly"); }
                FeatureSupport::unsupported("desktop text measurement uses embedded fonts and Parley directly")
            },
            (PlatformId::MacOs, PlatformFeature::BackgroundTasks)
            | (PlatformId::Windows, PlatformFeature::BackgroundTasks)
            | (PlatformId::Linux, PlatformFeature::BackgroundTasks) => {
                proof { reveal_strlit("desktop runtimes use Tokio worker threads"); }
                FeatureSupport::native("desktop runtimes use Tokio worker threads")
            },
            (PlatformId::Web, PlatformFeature::BackgroundTasks) => {
                proof { reveal_strlit("web runtime uses a Web Worker pool"); }
                FeatureSupport::emulated("web runtime uses a Web Worker pool")
            },
            (PlatformId::Web, PlatformFeature::HybridSurface) => {
                proof { reveal_strlit("hybrid surfaces are available through DrawSurface only"); }
                FeatureSupport::partial("hybrid surfaces are available through DrawSurface only")
            },
            (PlatformId::MacOs, PlatformFeature::HybridSurface)
            | (PlatformId::Windows, PlatformFeature::HybridSurface)
            | (PlatformId::Linux, PlatformFeature::HybridSurface) => {
                proof { reveal_strlit("desktop apps already render through the native GPU surface"); }
                FeatureSupport::unsupported("desktop apps already render through the native GPU surface")
            },
            (PlatformId::MacOs, PlatformFeature::ViewportSync)
            | (PlatformId::Windows, PlatformFeature::ViewportSync)
            | (PlatformId::Linux, PlatformFeature::ViewportSync)
            | (PlatformId::Web, PlatformFeature::ViewportSync) => {
                proof { reveal_strlit("all runtimes resync viewport state from the host platform"); }
                FeatureSupport::native("all runtimes resync viewport state from the host platform")
            },
            (PlatformId::MacOs, PlatformFeature::ScrollNormalization)
            | (PlatformId::Windows, PlatformFeature::ScrollNormalization)
            | (PlatformId::Linux, PlatformFeature::ScrollNormalization)
            | (PlatformId::Web, PlatformFeature::ScrollNormalization) => {
                proof { reveal_strlit("runtimes normalize wheel and gesture deltas into shared scroll events"); }
                FeatureSupport::emulated("runtimes normalize wheel and gesture deltas into shared scroll events")
            },
            (PlatformId::Web, PlatformFeature::TouchInput) => {
                proof { reveal_strlit("web runtime maps touch events into shared pointer input"); }
                FeatureSupport::native("web runtime maps touch events into shared pointer input")
            },
            (PlatformId::MacOs, PlatformFeature::TouchInput)
            | (PlatformId::Windows, PlatformFeature::TouchInput)
            | (PlatformId::Linux, PlatformFeature::TouchInput) => {
                proof { reveal_strlit("desktop runner currently prioritizes pointer/mouse input over dedicated touch handling"); }
                FeatureSupport::partial(
                    "desktop runner currently prioritizes pointer/mouse input over dedicated touch handling",
                )
            },
        }
    }
}

/// Work a runtime asks its platform to do after an update.
#[derive(Clone, Debug)]
pub enum PlatformEffect {
    SyncTextInput,
    SyncPointerCapture,
    SyncAccessibility,
    WriteClipboard(String),
}

/// An ordered batch of platform effects.
#[derive(Debug)]
pub struct PlatformEffects {
    effects: Vec<PlatformEffect>,
}

impl View for PlatformEffects {
    type V = Seq<PlatformEffect>;

    closed spec fn view(&self) -> Seq<PlatformEffect> {
        self.effects@
    }
}

impl Default for PlatformEffects {
    fn default() -> (r: Self)
        ensures
            r@ == Seq::<PlatformEffect>::empty(),
    {
        PlatformEffects::new()
    }
}

impl PlatformEffects {
    /// No effects.
    pub fn new() -> (r: Self)
        ensures
            r@ == Seq::<PlatformEffect>::empty(),
    {
        PlatformEffects { effects: Vec::new() }
    }

    /// Append one effect.
    pub fn push(&mut self, effect: PlatformEffect)
        ensures
            final(self)@ == old(self)@.push(effect),
    {
        self.effects.push(effect);
    }

    /// Append every effect of `other`, in order.
    pub fn extend(&mut self, other: PlatformEffects)
        ensures
            final(self)@ == old(self)@ + other@,
    {
        let mut other = other;
        self.effects.append(&mut other.effects);
    }

    /// The effects, in order.
    pub fn iter(&self) -> (r: &[PlatformEffect])
        ensures
            r@ == self@,
    {
        self.effects.as_slice()
    }

    /// Whether there is no effect.
    pub fn is_empty(&self) -> (r: bool)
        ensures
            r == (self@.len() == 0),
    {
        self.effects.len() == 0
    }
}

/// The feature an effect relies on.
pub open spec fn spec_feature_for_effect(effect: PlatformEffect) -> PlatformFeature {
    match effect {
        PlatformEffect::SyncTextInput => PlatformFeature::ImeComposition,
        PlatformEffect::SyncPointerCapture => PlatformFeature::PointerCapture,
        PlatformEffect::SyncAccessibility => PlatformFeature::AccessibilityTree,
        PlatformEffect::WriteClipboard(_) => PlatformFeature::ClipboardWrite,
    }
}

/// The feature an effect relies on.
pub fn feature_for_effect(effect: &PlatformEffect) -> (r: PlatformFeature)
    ensures
        r == spec_feature_for_effect(*effect),
{
    match effect {
        PlatformEffect::SyncTextInput => PlatformFeature::ImeComposition,
        PlatformEffect::SyncPointerCapture => PlatformFeature::PointerCapture,
        PlatformEffect::SyncAccessibility => PlatformFeature::AccessibilityTree,
        PlatformEffect::WriteClipboard(_) => PlatformFeature::ClipboardWrite,
    }
}

/// Whether the platform only partly supports, or does not support, what an effect relies on.
pub open spec fn spec_effect_is_degraded(p: PlatformId, effect: PlatformEffect) -> bool {
    let level = spec_support_level(p, spec_feature_for_effect(effect));
    level == SupportLevel::Partial || level == SupportLevel::Unsupported
}

/// The support record of an effect's feature when that support is partial or missing.
pub fn degraded_effect_support(capabilities: PlatformCapabilities, effect: &PlatformEffect) -> (r: Option<FeatureSupport>)
    ensures
        r is Some <==> spec_effect_is_degraded(capabilities.spec_platform(), *effect),
        r matches Some(s) ==> s.support == spec_support_level(
            capabilities.spec_platform(),
            spec_feature_for_effect(*effect),
        ) && s.rationale@ == spec_rationale(capabilities.spec_platform(), spec_feature_for_effect(*effect))
            && spec_well_formed_support(s),
{
    let support = capabilities.support(feature_for_effect(effect));
    match support.support {
        SupportLevel::Partial | SupportLevel::Unsupported => Some(support),
        _ => None,
    }
}

/// A call on one of the platform services.
#[derive(Clone, Debug)]
pub enum ServiceCall {
    /// Hand the focused editor state to the text input service.
    SyncEditorState { suppress_bridge: bool },
    /// Tell the pointer capture service whether a widget holds the pointer.
    SyncCapture { has_capture: bool },
    /// Hand the accessibility snapshot, with the window title, to the accessibility backend.
    UpdateAccessibility,
    /// Write text to the clipboard.
    WriteClipboard(String),
}

/// A warning for an effect whose feature is degraded on the platform.
#[derive(Clone, Copy, Debug)]
pub struct EffectWarning {
    pub platform: PlatformId,
    pub feature: PlatformFeature,
    pub support: FeatureSupport,
}

/// What to do for a batch of effects: the warnings to log, then the service calls in order.
#[derive(Debug)]
pub struct EffectPlan {
    pub warnings: Vec<EffectWarning>,
    pub calls: Vec<ServiceCall>,
}

/// The service call that carries out an effect.
pub open spec fn spec_call_for(effect: PlatformEffect, has_capture: bool) -> ServiceCall {
    match effect {
        PlatformEffect::SyncTextInput => ServiceCall::SyncEditorState { suppress_bridge: false },
        PlatformEffect::SyncPointerCapture => ServiceCall::SyncCapture { has_capture },
        PlatformEffect::SyncAccessibility => ServiceCall::UpdateAccessibility,
        PlatformEffect::WriteClipboard(text) => ServiceCall::WriteClipboard(text),
    }
}

/// The warning owed for a degraded effect: it names the platform `p`, and the feature
/// and its support level on the platform `c` the capabilities describe.
pub open spec fn spec_warning_matches(w: EffectWarning, p: PlatformId, c: PlatformId, effect: PlatformEffect) -> bool {
    &&& w.platform == p
    &&& w.feature == spec_feature_for_effect(effect)
    &&& w.support.support == spec_support_level(c, spec_feature_for_effect(effect))
    &&& w.support.rationale@ == spec_rationale(c, spec_feature_for_effect(effect))
    &&& spec_well_formed_support(w.support)
}

/// Plan a batch of effects on a platform: one warning per degraded effect, in order,
/// and one service call per effect, in order.
pub fn plan_effects(
    platform_id: PlatformId,
    capabilities: PlatformCapabilities,
    effects: &PlatformEffects,
    has_capture: bool,
) -> (r: EffectPlan)
    ensures
        r.calls@.len() == effects@.len(),
        forall|i: int| 0 <= i < effects@.len() ==> #[trigger] r.calls@[i] == spec_call_for(effects@[i], has_capture),
        r.warnings@.len() == effects@.filter(
            |e: PlatformEffect| spec_effect_is_degraded(capabilities.spec_platform(), e),
        ).len(),
        forall|i: int|
            0 <= i < r.warnings@.len() ==> spec_warning_matches(
                #[trigger] r.warnings@[i],
                platform_id,
                capabilities.spec_platform(),
                effects@.filter(
                    |e: PlatformEffect| spec_effect_is_degraded(capabilities.spec_platform(), e),
                )[i],
            ),
{
    let list = effects.iter();
    let ghost cp = capabilities.spec_platform();
    let ghost pred = |e: PlatformEffect| spec_effect_is_degraded(cp, e);
    let mut warnings: Vec<EffectWarning> = Vec::new();
    let mut i: usize = 0;
    while i < list.len()
        invariant
            i <= list@.len(),
            list@ == effects@,
            cp == capabilities.spec_platform(),
            pred == (|e: PlatformEffect| spec_effect_is_degraded(cp, e)),
            warnings@.len() == list@.take(i as int).filter(pred).len(),
            forall|k: int|
                0 <= k < warnings@.len() ==> spec_warning_matches(
                    #[trigger] warnings@[k],
                    platform_id,
                    cp,
                    list@.take(i as int).filter(pred)[k],
                ),
        decreases list@.len() - i,
    {
        let effect = &list[i];
        let ghost prev = list@.take(i as int).filter(pred);
        let ghost next = list@.take(i + 1).filter(pred);
        proof {
            reveal_with_fuel(Seq::<_>::filter, 1);
            assert(list@.take(i + 1).drop_last() =~= list@.take(i as int));
            assert(list@.take(i + 1).last() == list@[i as int]);
            assert(pred(list@[i as int]) == spec_effect_is_degraded(cp, list@[i as int]));
            if pred(list@[i as int]) {
                assert(next == prev.push(list@[i as int]));
            } else {
                assert(next == prev);
            }
        }
        if let Some(support) = degraded_effect_support(capabilities, effect) {
            warnings.push(EffectWarning { platform: platform_id, feature: feature_for_effect(effect), support });
        }
        i += 1;
    }
    assert(list@.take(list@.len() as int) =~= list@);
    let mut calls: Vec<ServiceCall> = Vec::new();
    let mut j: usize = 0;
    while j < list.len()
        invariant
            j <= list@.len(),
            list@ == effects@,
            calls@.len() == j,
            forall|k: int| 0 <= k < j ==> #[trigger] calls@[k] == spec_call_for(list@[k], has_capture),
        decreases list@.len() - j,
    {
        let call = match &list[j] {
            PlatformEffect::SyncTextInput => ServiceCall::SyncEditorState { suppress_bridge: false },
            PlatformEffect::SyncPointerCapture => ServiceCall::SyncCapture { has_capture },
            PlatformEffect::SyncAccessibility => ServiceCall::UpdateAccessibility,
            PlatformEffect::WriteClipboard(text) => ServiceCall::WriteClipboard(text.clone()),
        };
        calls.push(call);
        j += 1;
    }
    EffectPlan { warnings, calls }
}

} // verus!

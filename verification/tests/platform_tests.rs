use sparsha::platform::{
    degraded_effect_support, feature_for_effect, plan_effects, FallbackPolicy, PlatformCapabilities,
    PlatformEffect, PlatformEffects, PlatformFeature, PlatformId, ServiceCall, ShortcutProfile,
    SupportLevel,
};

#[test]
fn capability_matrix_covers_every_platform_feature_pair() {
    for platform in PlatformId::all() {
        let capabilities = PlatformCapabilities::new(platform);
        for feature in PlatformFeature::all() {
            let support = capabilities.support(feature);
            assert!(
                !support.rationale.trim().is_empty(),
                "missing rationale for {platform:?} {feature:?}"
            );
        }
    }
}

#[test]
fn web_uses_command_primary_shortcuts() {
    let capabilities = PlatformCapabilities::new(PlatformId::Web);
    assert_eq!(capabilities.shortcut_profile(), ShortcutProfile::CommandPrimary);
}

#[test]
fn native_hybrid_surface_support_is_explicitly_missing() {
    let capabilities = PlatformCapabilities::new(PlatformId::Linux);
    let support = capabilities.support(PlatformFeature::HybridSurface);
    assert_eq!(support.support, SupportLevel::Unsupported);
    assert_eq!(support.fallback, FallbackPolicy::NoOpWarn);
}

#[test]
fn native_effect_support_only_warns_for_partial_or_unsupported_features() {
    let capabilities = PlatformCapabilities::new(PlatformId::Linux);
    assert!(degraded_effect_support(capabilities, &PlatformEffect::SyncTextInput).is_none());
    assert!(degraded_effect_support(capabilities, &PlatformEffect::SyncPointerCapture).is_none());
    assert!(degraded_effect_support(capabilities, &PlatformEffect::SyncAccessibility).is_none());
}

#[test]
fn native_effects_write_clipboard_and_sync_services() {
    let capabilities = PlatformCapabilities::new(PlatformId::Linux);
    let mut effects = PlatformEffects::default();
    effects.push(PlatformEffect::SyncTextInput);
    effects.push(PlatformEffect::SyncPointerCapture);
    effects.push(PlatformEffect::SyncAccessibility);
    effects.push(PlatformEffect::WriteClipboard("copied".to_owned()));

    let plan = plan_effects(PlatformId::Linux, capabilities, &effects, true);

    let writes: Vec<&String> = plan
        .calls
        .iter()
        .filter_map(|call| match call {
            ServiceCall::WriteClipboard(text) => Some(text),
            _ => None,
        })
        .collect();
    assert_eq!(writes, vec!["copied"]);
    let syncs: Vec<bool> = plan
        .calls
        .iter()
        .filter_map(|call| match call {
            ServiceCall::SyncEditorState { suppress_bridge } => Some(*suppress_bridge),
            _ => None,
        })
        .collect();
    assert_eq!(syncs, vec![false]);
    let captures: Vec<bool> = plan
        .calls
        .iter()
        .filter_map(|call| match call {
            ServiceCall::SyncCapture { has_capture } => Some(*has_capture),
            _ => None,
        })
        .collect();
    assert_eq!(captures, vec![true]);
    let accessibility_updates = plan
        .calls
        .iter()
        .filter(|call| matches!(call, ServiceCall::UpdateAccessibility))
        .count();
    assert_eq!(accessibility_updates, 1);
    assert!(plan.warnings.is_empty());
}

#[test]
fn web_hybrid_surface_effects_warn_in_order() {
    let capabilities = PlatformCapabilities::new(PlatformId::Web);
    let mut effects = PlatformEffects::new();
    effects.push(PlatformEffect::WriteClipboard("a".to_owned()));
    effects.push(PlatformEffect::SyncTextInput);
    let plan = plan_effects(PlatformId::Web, capabilities, &effects, false);
    assert_eq!(plan.calls.len(), 2);
    assert!(matches!(plan.calls[0], ServiceCall::WriteClipboard(ref t) if t == "a"));
    assert!(matches!(plan.calls[1], ServiceCall::SyncEditorState { suppress_bridge: false }));
    for warning in &plan.warnings {
        assert_eq!(warning.platform, PlatformId::Web);
        assert!(matches!(
            warning.support.support,
            SupportLevel::Partial | SupportLevel::Unsupported
        ));
    }
}

#[test]
fn effects_map_to_their_features() {
    assert_eq!(feature_for_effect(&PlatformEffect::SyncTextInput), PlatformFeature::ImeComposition);
    assert_eq!(feature_for_effect(&PlatformEffect::SyncPointerCapture), PlatformFeature::PointerCapture);
    assert_eq!(feature_for_effect(&PlatformEffect::SyncAccessibility), PlatformFeature::AccessibilityTree);
    assert_eq!(
        feature_for_effect(&PlatformEffect::WriteClipboard(String::new())),
        PlatformFeature::ClipboardWrite
    );
}

#[test]
fn fallback_policy_follows_support_level() {
    for platform in PlatformId::all() {
        let capabilities = PlatformCapabilities::new(platform);
        assert_eq!(capabilities.platform(), platform);
        for feature in PlatformFeature::all() {
            let support = capabilities.support(feature);
            let expected = match support.support {
                SupportLevel::Native => FallbackPolicy::HardError,
                SupportLevel::Emulated | SupportLevel::Partial => FallbackPolicy::Degrade,
                SupportLevel::Unsupported => FallbackPolicy::NoOpWarn,
            };
            assert_eq!(support.fallback, expected);
        }
    }
}

#[test]
fn effects_batch_extends_in_order() {
    let mut a = PlatformEffects::new();
    assert!(a.is_empty());
    a.push(PlatformEffect::SyncTextInput);
    let mut b = PlatformEffects::new();
    b.push(PlatformEffect::SyncAccessibility);
    a.extend(b);
    assert_eq!(a.iter().len(), 2);
    assert!(matches!(a.iter()[1], PlatformEffect::SyncAccessibility));
}

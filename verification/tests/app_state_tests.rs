use sparsha::app_state::{
    can_start_route_view_transition, native_control_flow_for_state, recovery_steps, resolve_background,
    should_render_web_layers, should_sync_external_hash, should_sync_native_surface_size,
    surface_acquire_recovery, AppConfig, AppRunError, AppTheme, ControlFlow, SurfaceAcquireFailure,
    SurfaceAcquireRecovery, SurfaceSize, ThemeMode, RecoverySteps, WebFrameState,
    surface_retry_after_render,
};
use sparsha::router::Router;

#[test]
fn surface_acquire_recovery_retries_before_first_present() {
    assert_eq!(
        surface_acquire_recovery(SurfaceAcquireFailure::Outdated, false),
        SurfaceAcquireRecovery::ReconfigureAndRetry
    );
    assert_eq!(
        surface_acquire_recovery(SurfaceAcquireFailure::Lost, false),
        SurfaceAcquireRecovery::ReconfigureAndRetry
    );
    assert_eq!(
        surface_acquire_recovery(SurfaceAcquireFailure::Timeout, false),
        SurfaceAcquireRecovery::Retry
    );
    assert_eq!(
        surface_acquire_recovery(SurfaceAcquireFailure::Occluded, false),
        SurfaceAcquireRecovery::Retry
    );
}

#[test]
fn surface_acquire_recovery_stops_retrying_timeout_after_first_present() {
    assert_eq!(
        surface_acquire_recovery(SurfaceAcquireFailure::Timeout, true),
        SurfaceAcquireRecovery::Abort
    );
    assert_eq!(
        surface_acquire_recovery(SurfaceAcquireFailure::Occluded, true),
        SurfaceAcquireRecovery::Abort
    );
    assert_eq!(
        surface_acquire_recovery(SurfaceAcquireFailure::Validation, false),
        SurfaceAcquireRecovery::Abort
    );
}

#[test]
fn app_theme_mode_resolves_light_or_dark() {
    let light: u32 = 0x22C55E;
    let dark: u32 = 0xF59E0B;

    let light_active = AppTheme { light, dark: Some(dark), mode: ThemeMode::Light };
    assert_eq!(*light_active.resolve_theme(), light);

    let dark_active = AppTheme { light, dark: Some(dark), mode: ThemeMode::Dark };
    assert_eq!(*dark_active.resolve_theme(), dark);
}

#[test]
fn app_theme_dark_mode_falls_back_to_light_when_missing_dark_theme() {
    let light: u32 = 0x6366F1;
    let app_theme = AppTheme { light, dark: None, mode: ThemeMode::Dark };
    assert_eq!(*app_theme.resolve_theme(), light);
}

#[test]
fn app_theme_background_uses_theme_unless_override_is_set() {
    let theme_background: u32 = 0x111827;
    assert_eq!(resolve_background(None, theme_background), 0x111827);
    assert_eq!(resolve_background(Some(0xFEF3C7), theme_background), 0xFEF3C7);
}

#[test]
fn app_theme_new_starts_in_light_mode() {
    let theme = AppTheme::new("light");
    assert_eq!(theme.mode, ThemeMode::Light);
    assert!(theme.dark.is_none());
    assert_eq!(*theme.resolve_theme(), "light");
    assert_eq!(ThemeMode::default(), ThemeMode::Light);
}

#[test]
fn app_builder_defaults_match_the_default_app_shape() {
    let config: AppConfig<u32> = AppConfig::default();
    assert_eq!(config.title, "Sparsha App");
    assert_eq!(config.width, 800);
    assert_eq!(config.height, 600);
    assert_eq!(config.background_override, None);
    let router: Router<u32> = Router::new();
    assert_eq!(router.current_path(), "/");
}

#[test]
fn app_run_error_formats_task_runtime_failures() {
    let error = AppRunError::TaskRuntimeInit("startup failed".to_owned());
    assert_eq!(
        error.message(),
        "failed to initialize background task runtime: startup failed"
    );
}

#[test]
fn app_run_error_messages_name_each_failure() {
    assert_eq!(
        AppRunError::EventLoopCreation("x".to_owned()).message(),
        "failed to create native event loop: x"
    );
    assert_eq!(AppRunError::EventLoopRun("x".to_owned()).message(), "native event loop failed: x");
    assert_eq!(AppRunError::WindowCreation("x".to_owned()).message(), "failed to create window: x");
    assert_eq!(
        AppRunError::GraphicsInit("no surface format".to_owned()).message(),
        "failed to initialize graphics: no surface format"
    );
    assert_eq!(
        AppRunError::WebEnvironment("window").message(),
        "missing required web environment: window"
    );
    assert_eq!(AppRunError::DomMount("x".to_owned()).message(), "failed to mount DOM renderer: x");
    assert_eq!(
        AppRunError::HybridSurfaceInit("x".to_owned()).message(),
        "failed to initialize hybrid web surfaces: x"
    );
}

#[test]
fn native_surface_sync_only_runs_for_non_zero_size_changes() {
    let size = |width: u32, height: u32| SurfaceSize { width, height };
    assert!(!should_sync_native_surface_size(size(1200, 900), size(1200, 900)));
    assert!(!should_sync_native_surface_size(size(1, 1), size(0, 900)));
    assert!(should_sync_native_surface_size(size(1, 1), size(1200, 900)));
}

#[test]
fn native_control_flow_polls_until_first_present() {
    assert_eq!(native_control_flow_for_state(false), ControlFlow::Poll);
    assert_eq!(native_control_flow_for_state(true), ControlFlow::Wait);
}

#[test]
fn hash_sync_helper_ignores_matching_hash_paths() {
    assert!(!should_sync_external_hash("/", "#/"));
    assert!(!should_sync_external_hash("/about", "#/about"));
    assert!(should_sync_external_hash("/", "#/about"));
}

#[test]
fn route_view_transition_runs_only_after_first_paint() {
    assert!(!can_start_route_view_transition(false, false));
    assert!(!can_start_route_view_transition(false, true));
    assert!(!can_start_route_view_transition(true, false));
    assert!(can_start_route_view_transition(true, true));
}

#[test]
fn layer_render_decision_keeps_first_dom_paint() {
    assert!(should_render_web_layers(true, false, false, false));
    assert!(!should_render_web_layers(false, false, false, false));
}

#[test]
fn layer_render_decision_waits_for_initializing_surfaces() {
    assert!(should_render_web_layers(false, true, false, false));
    assert!(should_render_web_layers(false, false, true, true));
    assert!(!should_render_web_layers(false, false, true, false));
    assert!(!should_render_web_layers(false, false, false, true));
}

#[test]
fn recovery_steps_follow_the_decision() {
    assert_eq!(
        recovery_steps(SurfaceAcquireRecovery::ReconfigureAndRetry),
        RecoverySteps { reconfigure: true, repaint_and_redraw: true }
    );
    assert_eq!(
        recovery_steps(SurfaceAcquireRecovery::Retry),
        RecoverySteps { reconfigure: false, repaint_and_redraw: true }
    );
    assert_eq!(
        recovery_steps(SurfaceAcquireRecovery::Abort),
        RecoverySteps { reconfigure: false, repaint_and_redraw: false }
    );
}

#[test]
fn first_paint_event_is_emitted_once() {
    let mut frame = WebFrameState::new("/".to_owned());
    assert!(frame.needs_layout && frame.needs_repaint);
    assert!(!frame.route_changed("/"));
    assert!(frame.route_changed("/about"));
    assert!(!frame.finish_frame(false, true, "/".to_owned()));
    assert!(!frame.pending_surface_retry);
    assert!(frame.finish_frame(true, false, "/about".to_owned()));
    assert!(!frame.route_changed("/about"));
    assert!(!frame.finish_frame(true, true, "/about".to_owned()));
    assert!(frame.pending_surface_retry && frame.needs_repaint);
}

#[test]
fn web_frames_are_scheduled_while_work_is_pending() {
    let mut frame = WebFrameState::new("/".to_owned());
    assert!(frame.should_schedule_frame(false, false, false));
    frame.needs_layout = false;
    frame.needs_repaint = false;
    assert!(!frame.should_schedule_frame(false, false, false));
    assert!(frame.should_schedule_frame(true, true, false));
    assert!(!frame.should_schedule_frame(true, false, false));
    assert!(frame.should_schedule_frame(false, false, true));
    frame.skip_frame("/x".to_owned());
    assert_eq!(frame.last_route_path, "/x");
}

#[test]
fn surface_retry_needs_a_successful_render() {
    assert!(surface_retry_after_render(true, true, false, false));
    assert!(surface_retry_after_render(true, false, true, true));
    assert!(!surface_retry_after_render(true, false, true, false));
    assert!(!surface_retry_after_render(false, true, true, true));
}

#[test]
fn web_frame_absorbs_dirty_signals_and_task_results() {
    let mut frame = WebFrameState::new("/".to_owned());
    frame.needs_layout = false;
    frame.needs_repaint = false;
    frame.absorb_pending(false, false, false, false);
    assert!(!frame.needs_layout && !frame.needs_repaint);
    frame.absorb_pending(false, false, false, true);
    assert!(!frame.needs_layout && frame.needs_repaint);
    frame.needs_repaint = false;
    frame.absorb_pending(true, false, false, false);
    assert!(frame.needs_layout && !frame.needs_repaint);
    frame.needs_layout = false;
    frame.absorb_pending(false, true, true, false);
    assert!(frame.needs_layout && frame.needs_repaint);
    assert_eq!(frame.last_route_path, "/");
}

#[test]
fn web_frame_paint_requests_decide_the_next_frame() {
    let mut frame = WebFrameState::new("/".to_owned());
    frame.needs_layout = false;
    frame.finish_paint(false, false);
    assert!(!frame.needs_layout && !frame.needs_repaint);
    frame.finish_paint(false, true);
    assert!(!frame.needs_layout && frame.needs_repaint);
    frame.finish_paint(true, false);
    assert!(frame.needs_layout && frame.needs_repaint);
}

//! Application configuration, themes, errors and the decisions the native and web
//! runners take between frames.
use vstd::prelude::*;
use crate::chars::{append_str, str_eq_chars, chars_of};
use crate::router::{hash_to_path, spec_hash_to_path};

verus! {

/// Why acquiring the next surface texture failed.
#[derive(Clone, Copy, Debug, PartialEq, Eq)]
pub enum SurfaceAcquireFailure {
    Outdated,
    Lost,
    Timeout,
    Occluded,
    Validation,
}

/// What the runner does after a failed surface acquisition.
#[derive(Clone, Copy, Debug, PartialEq, Eq)]
pub enum SurfaceAcquireRecovery {
    ReconfigureAndRetry,
    Retry,
    Abort,
}

/// The recovery owed for a failure, given whether a frame was presented yet.
pub open spec fn spec_surface_acquire_recovery(
    failure: SurfaceAcquireFailure,
    has_presented_frame: bool,
) -> SurfaceAcquireRecovery {
    match failure {
        SurfaceAcquireFailure::Outdated | SurfaceAcquireFailure::Lost => SurfaceAcquireRecovery::ReconfigureAndRetry,
        SurfaceAcquireFailure::Timeout | SurfaceAcquireFailure::Occluded => {
            if has_presented_frame {
                SurfaceAcquireRecovery::Abort
            } else {
                SurfaceAcquireRecovery::Retry
            }
        },
        SurfaceAcquireFailure::Validation => SurfaceAcquireRecovery::Abort,
    }
}

/// Decide how to recover from a failed surface acquisition.
pub fn surface_acquire_recovery(
    failure: SurfaceAcquireFailure,
    has_presented_frame: bool,
) -> (r: SurfaceAcquireRecovery)
    ensures
        r == spec_surface_acquire_recovery(failure, has_presented_frame),
{
    match failure {
        SurfaceAcquireFailure::Outdated | SurfaceAcquireFailure::Lost => {
            SurfaceAcquireRecovery::ReconfigureAndRetry
        },
        SurfaceAcquireFailure::Timeout if !has_presented_frame => SurfaceAcquireRecovery::Retry,
        SurfaceAcquireFailure::Occluded if !has_presented_frame => SurfaceAcquireRecovery::Retry,
        SurfaceAcquireFailure::Timeout
        | SurfaceAcquireFailure::Occluded
        | SurfaceAcquireFailure::Validation => SurfaceAcquireRecovery::Abort,
    }
}

/// Whether the app shows its light or its dark theme.
#[derive(Clone, Copy, Debug, PartialEq, Eq, Structural)]
pub enum ThemeMode {
    Light,
    Dark,
}

impl Default for ThemeMode {
    fn default() -> (r: Self)
        ensures
            r == ThemeMode::Light,
    {
        ThemeMode::Light
    }
}

/// The themes an app was given and the mode that picks one of them.
pub struct AppTheme<T> {
    pub light: T,
    pub dark: Option<T>,
    pub mode: ThemeMode,
}

/// The theme shown: the dark one in dark mode when there is one, else the light one.
pub open spec fn spec_resolve_theme<T>(light: T, dark: Option<T>, mode: ThemeMode) -> T {
    match mode {
        ThemeMode::Light => light,
        ThemeMode::Dark => match dark {
            Some(d) => d,
            None => light,
        },
    }
}

impl<T> AppTheme<T> {
    /// A light theme alone, shown in light mode.
    pub fn new(light: T) -> (r: Self)
        ensures
            r.light == light,
            r.dark is None,
            r.mode == ThemeMode::Light,
    {
        AppTheme { light, dark: None, mode: ThemeMode::Light }
    }

    /// The theme the current mode selects.
    pub fn resolve_theme(&self) -> (r: &T)
        ensures
            *r == spec_resolve_theme(self.light, self.dark, self.mode),
    {
        match self.mode {
            ThemeMode::Light => &self.light,
            ThemeMode::Dark => match &self.dark {
                Some(d) => d,
                None => &self.light,
            },
        }
    }
}

/// The background painted behind the app: the override when one is set, else the
/// background of the resolved theme.
pub fn resolve_background<B>(background_override: Option<B>, theme_background: B) -> (r: B)
    ensures
        r == (match background_override {
            Some(b) => b,
            None => theme_background,
        }),
{
    match background_override {
        Some(b) => b,
        None => theme_background,
    }
}

/// What the runner does for a recovery: reconfigure the surface first, and whether it
/// marks the frame for repaint and asks for another redraw.
#[derive(Clone, Copy, Debug, PartialEq, Eq, Structural)]
pub struct RecoverySteps {
    pub reconfigure: bool,
    pub repaint_and_redraw: bool,
}

/// The steps of a recovery: a reconfigure-and-retry reconfigures and redraws, a retry
/// only redraws, an abort does nothing.
pub fn recovery_steps(recovery: SurfaceAcquireRecovery) -> (r: RecoverySteps)
    ensures
        r == (match recovery {
            SurfaceAcquireRecovery::ReconfigureAndRetry => RecoverySteps { reconfigure: true, repaint_and_redraw: true },
            SurfaceAcquireRecovery::Retry => RecoverySteps { reconfigure: false, repaint_and_redraw: true },
            SurfaceAcquireRecovery::Abort => RecoverySteps { reconfigure: false, repaint_and_redraw: false },
        }),
{
    match recovery {
        SurfaceAcquireRecovery::ReconfigureAndRetry => RecoverySteps { reconfigure: true, repaint_and_redraw: true },
        SurfaceAcquireRecovery::Retry => RecoverySteps { reconfigure: false, repaint_and_redraw: true },
        SurfaceAcquireRecovery::Abort => RecoverySteps { reconfigure: false, repaint_and_redraw: false },
    }
}

/// Before the first frame is presented, a failed acquisition is always tried again; after
/// it, only a lost or outdated surface is.
pub proof fn lemma_recovery_retries_until_first_present(failure: SurfaceAcquireFailure)
    ensures
        failure != SurfaceAcquireFailure::Validation ==> spec_surface_acquire_recovery(failure, false)
            != SurfaceAcquireRecovery::Abort,
        spec_surface_acquire_recovery(failure, true) != SurfaceAcquireRecovery::Abort <==> (failure
            == SurfaceAcquireFailure::Outdated || failure == SurfaceAcquireFailure::Lost),
{
}

/// Window title, initial size and background override of an app.
pub struct AppConfig<C> {
    pub title: String,
    pub width: u32,
    pub height: u32,
    pub background_override: Option<C>,
}

impl<C> Default for AppConfig<C> {
    fn default() -> (r: Self)
        ensures
            r.title@ == "Sparsha App"@,
            r.width == 800,
            r.height == 600,
            r.background_override is None,
    {
        AppConfig {
            title: "Sparsha App".to_owned(),
            width: 800,
            height: 600,
            background_override: None,
        }
    }
}

/// Why an app could not start or keep running.
#[derive(Clone, Debug)]
pub enum AppRunError {
    EventLoopCreation(String),
    EventLoopRun(String),
    WindowCreation(String),
    /// The graphics backend failed; the field holds its error, formatted.
    GraphicsInit(String),
    TaskRuntimeInit(String),
    WebEnvironment(&'static str),
    DomMount(String),
    HybridSurfaceInit(String),
}

/// The text an error reads as.
pub open spec fn spec_app_run_error_message(e: AppRunError) -> Seq<char> {
    match e {
        AppRunError::EventLoopCreation(m) => "failed to create native event loop: "@ + m@,
        AppRunError::EventLoopRun(m) => "native event loop failed: "@ + m@,
        AppRunError::WindowCreation(m) => "failed to create window: "@ + m@,
        AppRunError::GraphicsInit(m) => "failed to initialize graphics: "@ + m@,
        AppRunError::TaskRuntimeInit(m) => "failed to initialize background task runtime: "@ + m@,
        AppRunError::WebEnvironment(m) => "missing required web environment: "@ + m@,
        AppRunError::DomMount(m) => "failed to mount DOM renderer: "@ + m@,
        AppRunError::HybridSurfaceInit(m) => "failed to initialize hybrid web surfaces: "@ + m@,
    }
}

impl AppRunError {
    /// The error as a sentence: what failed, a colon, and the cause.
    pub fn message(&self) -> (r: String)
        ensures
            r@ == spec_app_run_error_message(*self),
    {
        let mut out = String::new();
        let ghost empty = out@;
        match self {
            AppRunError::EventLoopCreation(m) => {
                append_str(&mut out, "failed to create native event loop: ");
                append_str(&mut out, m.as_str());
            },
            AppRunError::EventLoopRun(m) => {
                append_str(&mut out, "native event loop failed: ");
                append_str(&mut out, m.as_str());
            },
            AppRunError::WindowCreation(m) => {
                append_str(&mut out, "failed to create window: ");
                append_str(&mut out, m.as_str());
            },
            AppRunError::GraphicsInit(m) => {
                append_str(&mut out, "failed to initialize graphics: ");
                append_str(&mut out, m.as_str());
            },
            AppRunError::TaskRuntimeInit(m) => {
                append_str(&mut out, "failed to initialize background task runtime: ");
                append_str(&mut out, m.as_str());
            },
            AppRunError::WebEnvironment(m) => {
                append_str(&mut out, "missing required web environment: ");
                append_str(&mut out, m);
            },
            AppRunError::DomMount(m) => {
                append_str(&mut out, "failed to mount DOM renderer: ");
                append_str(&mut out, m.as_str());
            },
            AppRunError::HybridSurfaceInit(m) => {
                append_str(&mut out, "failed to initialize hybrid web surfaces: ");
                append_str(&mut out, m.as_str());
            },
        }
        proof {
            assert(empty.len() == 0);
            assert forall|a: Seq<char>| empty + a == a by {
                assert(empty + a =~= a);
            }
        }
        out
    }
}

/// A window surface size in physical pixels.
#[derive(Clone, Copy, Debug, PartialEq, Eq, Structural)]
pub struct SurfaceSize {
    pub width: u32,
    pub height: u32,
}

/// The surface is reconfigured only for a non-empty size that differs from the current one.
pub fn should_sync_native_surface_size(current: SurfaceSize, actual: SurfaceSize) -> (r: bool)
    ensures
        r == (actual.width > 0 && actual.height > 0 && actual != current),
{
    actual.width > 0 && actual.height > 0 && actual != current
}

/// How the native event loop waits for the next event.
#[derive(Clone, Copy, Debug, PartialEq, Eq, Structural)]
pub enum ControlFlow {
    /// Spin without waiting.
    Poll,
    /// Sleep until an event arrives.
    Wait,
}

/// The loop polls until the first frame was presented, then waits.
pub fn native_control_flow_for_state(has_presented_frame: bool) -> (r: ControlFlow)
    ensures
        r == (if has_presented_frame { ControlFlow::Wait } else { ControlFlow::Poll }),
{
    if has_presented_frame {
        ControlFlow::Wait
    } else {
        ControlFlow::Poll
    }
}

/// Whether the location hash names another route than the one shown.
pub fn should_sync_external_hash(current_path: &str, hash: &str) -> (r: bool)
    ensures
        r == (spec_hash_to_path(hash@) != current_path@),
{
    let path = hash_to_path(hash);
    let current = chars_of(current_path);
    !str_eq_chars(path.as_str(), &current)
}

/// A view transition starts for a route change once the first frame was painted.
pub fn can_start_route_view_transition(route_changed: bool, first_paint_emitted: bool) -> (r: bool)
    ensures
        r == (route_changed && first_paint_emitted),
{
    route_changed && first_paint_emitted
}

/// The web layers are rendered after a painted frame, while a surface retry is
/// pending, or when surface frames exist while the surfaces are still initializing.
pub fn should_render_web_layers(
    painted_frame: bool,
    pending_surface_retry: bool,
    has_surface_frames: bool,
    surfaces_initializing: bool,
) -> (r: bool)
    ensures
        r == (painted_frame || pending_surface_retry || (has_surface_frames
            && surfaces_initializing)),
{
    painted_frame || pending_surface_retry || (has_surface_frames && surfaces_initializing)
}

/// Whether the hybrid surfaces must be rendered again next frame: only after a render
/// that succeeded, when it asked for a retry or surface frames wait on initializing surfaces.
pub fn surface_retry_after_render(
    render_ok: bool,
    needs_retry: bool,
    has_surface_frames: bool,
    surfaces_initializing: bool,
) -> (r: bool)
    ensures
        r == (render_ok && (needs_retry || (has_surface_frames && surfaces_initializing))),
{
    render_ok && (needs_retry || (has_surface_frames && surfaces_initializing))
}

/// The frame bookkeeping of the web runner.
pub struct WebFrameState {
    pub needs_layout: bool,
    pub needs_repaint: bool,
    pub first_paint_emitted: bool,
    pub pending_surface_retry: bool,
    pub last_route_path: String,
}

/// The web frame bookkeeping as values.
pub struct WebFrameView {
    pub needs_layout: bool,
    pub needs_repaint: bool,
    pub first_paint_emitted: bool,
    pub pending_surface_retry: bool,
    pub last_route_path: Seq<char>,
}

impl View for WebFrameState {
    type V = WebFrameView;

    open spec fn view(&self) -> WebFrameView {
        WebFrameView {
            needs_layout: self.needs_layout,
            needs_repaint: self.needs_repaint,
            first_paint_emitted: self.first_paint_emitted,
            pending_surface_retry: self.pending_surface_retry,
            last_route_path: self.last_route_path@,
        }
    }
}

/// The bookkeeping after a rendered frame: a surface retry stays pending only when the
/// DOM was rendered, the first DOM render emits the first-paint event (reported as the
/// second component), the route is remembered, and a pending retry asks for a repaint.
pub open spec fn spec_finish_frame(
    s: WebFrameView,
    dom_rendered: bool,
    surface_retry: bool,
    route: Seq<char>,
) -> (WebFrameView, bool) {
    let pending = dom_rendered && surface_retry;
    (
        WebFrameView {
            needs_layout: s.needs_layout,
            needs_repaint: s.needs_repaint || pending,
            first_paint_emitted: s.first_paint_emitted || dom_rendered,
            pending_surface_retry: pending,
            last_route_path: route,
        },
        dom_rendered && !s.first_paint_emitted,
    )
}

impl WebFrameState {
    /// A runner that has laid out and painted nothing yet, on `initial_route_path`.
    pub fn new(initial_route_path: String) -> (r: Self)
        ensures
            r@ == (WebFrameView {
                needs_layout: true,
                needs_repaint: true,
                first_paint_emitted: false,
                pending_surface_retry: false,
                last_route_path: initial_route_path@,
            }),
    {
        WebFrameState {
            needs_layout: true,
            needs_repaint: true,
            first_paint_emitted: false,
            pending_surface_retry: false,
            last_route_path: initial_route_path,
        }
    }

    /// Fold what changed since the last frame into the flags: rebuilt or relaid-out
    /// signals ask for a layout, painted signals and finished tasks ask for a repaint.
    pub fn absorb_pending(
        &mut self,
        dirty_rebuild: bool,
        dirty_layout: bool,
        dirty_paint: bool,
        had_task_results: bool,
    )
        ensures
            final(self)@ == (WebFrameView {
                needs_layout: old(self)@.needs_layout || dirty_rebuild || dirty_layout,
                needs_repaint: old(self)@.needs_repaint || dirty_paint || had_task_results,
                ..old(self)@
            }),
    {
        if dirty_rebuild || dirty_layout {
            self.needs_layout = true;
        }
        if dirty_paint || had_task_results {
            self.needs_repaint = true;
        }
    }

    /// Record what a paint pass asked for: a layout request keeps layout pending and
    /// asks for another paint, a next-frame request asks for another paint, and
    /// otherwise the repaint is done.
    pub fn finish_paint(&mut self, request_layout: bool, request_next_frame: bool)
        ensures
            final(self)@ == (WebFrameView {
                needs_layout: old(self)@.needs_layout || request_layout,
                needs_repaint: request_next_frame || request_layout,
                ..old(self)@
            }),
    {
        self.needs_layout = self.needs_layout || request_layout;
        self.needs_repaint = request_next_frame || request_layout;
    }

    /// Whether the route changed since the last frame.
    pub fn route_changed(&self, current_route_path: &str) -> (r: bool)
        ensures
            r == (current_route_path@ != self@.last_route_path),
    {
        !crate::chars::str_eq(current_route_path, self.last_route_path.as_str())
    }

    /// A frame that rendered no layer only remembers the route.
    pub fn skip_frame(&mut self, current_route_path: String)
        ensures
            final(self)@ == (WebFrameView { last_route_path: current_route_path@, ..old(self)@ }),
    {
        self.last_route_path = current_route_path;
    }

    /// Record a rendered frame; true when the first-paint event is to be emitted now.
    pub fn finish_frame(&mut self, dom_rendered: bool, surface_retry: bool, current_route_path: String) -> (r: bool)
        ensures
            (final(self)@, r) == spec_finish_frame(old(self)@, dom_rendered, surface_retry, current_route_path@),
    {
        let pending = dom_rendered && surface_retry;
        let emit = dom_rendered && !self.first_paint_emitted;
        if dom_rendered {
            self.first_paint_emitted = true;
        }
        self.pending_surface_retry = pending;
        self.last_route_path = current_route_path;
        self.needs_repaint = self.needs_repaint || pending;
        emit
    }

    /// Whether another animation frame is needed.
    pub fn should_schedule_frame(
        &self,
        has_surface_frames: bool,
        surfaces_initializing: bool,
        tasks_in_flight: bool,
    ) -> (r: bool)
        ensures
            r == (self.needs_layout || self.needs_repaint || self.pending_surface_retry || (
            has_surface_frames && surfaces_initializing) || tasks_in_flight),
    {
        self.needs_layout || self.needs_repaint || self.pending_surface_retry || (has_surface_frames
            && surfaces_initializing) || tasks_in_flight
    }
}

/// The first-paint event is emitted once: after a frame that emitted it, no later frame does.
pub proof fn lemma_first_paint_emitted_once(
    s: WebFrameView,
    dom1: bool,
    retry1: bool,
    route1: Seq<char>,
    dom2: bool,
    retry2: bool,
    route2: Seq<char>,
)
    requires
        spec_finish_frame(s, dom1, retry1, route1).1,
    ensures
        !spec_finish_frame(spec_finish_frame(s, dom1, retry1, route1).0, dom2, retry2, route2).1,
{
}

} // verus!

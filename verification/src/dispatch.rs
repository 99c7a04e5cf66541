use crate::surface::{is_preferred_format, SurfaceCaps, SurfaceConfig, WindowSize};
use vstd::prelude::*;

verus! {

/// A platform event, reduced to what the dispatcher inspects.
#[derive(Clone, Copy, Debug, PartialEq, Eq, Structural)]
pub enum Event {
    /// The user asked to close the window.
    CloseRequested,
    /// A keyboard event: whether the key went down and whether it is the
    /// platform's Escape key.
    KeyInput { pressed: bool, escape: bool },
    /// The client area changed to the given size in physical pixels.
    Resized { size: WindowSize },
    /// The platform asks for a frame.
    RedrawRequested,
    /// Any other platform event: no local action, forwarded to the overlay.
    Other,
}

/// The ways acquiring the next frame target can fail.
#[derive(Clone, Copy, Debug, PartialEq, Eq, Structural)]
pub enum SurfaceError {
    /// The surface was lost and must be reconfigured.
    Lost,
    /// The surface no longer matches the window and must be reconfigured.
    Outdated,
    /// The platform is out of memory: fatal.
    OutOfMemory,
    /// Acquiring the frame target timed out: skip this frame.
    Timeout,
}

/// What the event loop must do after one event was dispatched.
#[derive(Clone, Copy, Debug, PartialEq, Eq, Structural)]
pub struct EventResponse {
    /// Terminate the event loop.
    pub exit: bool,
    /// Re-apply the stored configuration to the surface.
    pub reconfigure: bool,
    /// Attempt exactly one frame acquisition, then hand its outcome to
    /// `handle_render_result`.
    pub render: bool,
    /// Schedule another redraw, keeping the render loop alive.
    pub schedule_redraw: bool,
    /// Forward the original event to the overlay collaborator.
    pub forward: bool,
}

impl EventResponse {
    /// The response that takes no action and forwards nothing.
    pub open spec fn quiet() -> EventResponse {
        EventResponse {
            exit: false,
            reconfigure: false,
            render: false,
            schedule_redraw: false,
            forward: false,
        }
    }
}

/// What the event loop must do after a frame was attempted.
#[derive(Clone, Copy, Debug, PartialEq, Eq, Structural)]
pub struct OutcomeResponse {
    /// Fatal (out of memory): log and terminate the event loop.
    pub exit: bool,
    /// Re-apply the stored configuration to the surface.
    pub reconfigure: bool,
    /// Log a warning; the frame was skipped.
    pub warn: bool,
}

/// The application core: the state the event dispatcher and the surface
/// lifecycle manager share.
#[derive(Clone, Copy, Debug, PartialEq, Eq, Structural)]
pub struct AppCore {
    /// The last known client-area size in physical pixels.
    pub size: WindowSize,
    /// The current surface configuration.
    pub config: SurfaceConfig,
    /// Surface validity flag: set by the first resize event; gates whether
    /// redraw requests actually render.
    pub surface_configured: bool,
    /// Whether event-loop termination has been requested.
    pub exit_requested: bool,
}

/// An event that requests event-loop termination: a window-close request or
/// a press of the Escape key.
pub open spec fn is_exit_event(e: Event) -> bool {
    ||| e is CloseRequested
    ||| (e matches Event::KeyInput { pressed, escape } && pressed && escape)
}

/// One resize of the lifecycle manager: with a zero dimension nothing
/// changes and no reconfigure is issued; otherwise the size is stored, the
/// configuration takes exactly that width and height, and the surface must
/// be reconfigured.
pub open spec fn resize_step(s: AppCore, new_size: WindowSize) -> (AppCore, bool) {
    if new_size.is_positive() {
        (AppCore { size: new_size, config: s.config.with_size(new_size), ..s }, true)
    } else {
        (s, false)
    }
}

/// The dispatcher's decision for one event: the successor state and the
/// actions the event loop must take, following the handling rules in order
/// (terminate, resize, redraw, otherwise nothing; forwarding to the overlay
/// except on termination).
pub open spec fn event_step(s: AppCore, e: Event) -> (AppCore, EventResponse) {
    if is_exit_event(e) {
        (
            AppCore { exit_requested: true, ..s },
            EventResponse { exit: true, ..EventResponse::quiet() },
        )
    } else {
        match e {
            Event::Resized { size } => {
                let stepped = resize_step(AppCore { surface_configured: true, ..s }, size);
                (
                    stepped.0,
                    EventResponse { reconfigure: stepped.1, forward: true, ..EventResponse::quiet() },
                )
            },
            Event::RedrawRequested => (
                s,
                EventResponse {
                    render: s.surface_configured,
                    schedule_redraw: true,
                    forward: true,
                    ..EventResponse::quiet()
                },
            ),
            _ => (s, EventResponse { forward: true, ..EventResponse::quiet() }),
        }
    }
}

/// The acquisition-outcome table: success needs nothing further; a lost or
/// outdated surface recovers by reconfiguring with the last stored size;
/// out of memory is fatal; a timeout only warns and skips the frame.
pub open spec fn outcome_step(s: AppCore, r: Result<(), SurfaceError>) -> (
    AppCore,
    OutcomeResponse,
) {
    match r {
        Result::Ok(()) => (s, OutcomeResponse { exit: false, reconfigure: false, warn: false }),
        Result::Err(SurfaceError::Lost) | Result::Err(SurfaceError::Outdated) => {
            let recovered = resize_step(s, s.size);
            (
                recovered.0,
                OutcomeResponse { exit: false, reconfigure: recovered.1, warn: false },
            )
        },
        Result::Err(SurfaceError::OutOfMemory) => (
            AppCore { exit_requested: true, ..s },
            OutcomeResponse { exit: true, reconfigure: false, warn: false },
        ),
        Result::Err(SurfaceError::Timeout) => (
            s,
            OutcomeResponse { exit: false, reconfigure: false, warn: true },
        ),
    }
}

impl AppCore {
    /// The stored configuration always mirrors the stored window size.
    pub open spec fn wf(self) -> bool {
        self.config.width == self.size.width && self.config.height == self.size.height
    }

    /// Startup: derive the initial configuration from the advertised
    /// capabilities and the window's startup size. The surface validity
    /// flag starts false and termination is not requested.
    pub fn new(caps: &SurfaceCaps, size: WindowSize) -> (s: Self)
        requires
            caps.wf(),
        ensures
            s.size == size,
            s.config.width == size.width,
            s.config.height == size.height,
            s.config.format == crate::surface::preferred_format(caps.formats@),
            exists|idx: int|
                is_preferred_format(caps.formats@, idx) && s.config.format == caps.formats@[idx],
            s.config.present_mode == caps.present_modes@[0],
            s.config.alpha_mode == caps.alpha_modes@[0],
            !s.surface_configured,
            !s.exit_requested,
            s.wf(),
    {
        let config = SurfaceConfig::from_caps(caps, size);
        AppCore { size, config, surface_configured: false, exit_requested: false }
    }

    /// The input-consumed hook, reserved for future custom interaction
    /// handling: today no event is consumed, so every event reaches the
    /// dispatcher and the overlay.
    pub fn input(&self, event: &Event) -> (consumed: bool)
        ensures
            !consumed,
    {
        let _ = event;
        false
    }

    /// The per-frame update step; this scaffold has no application state to
    /// update.
    pub fn update(&mut self)
        ensures
            *final(self) == *old(self),
    {
    }

    /// Reconfigure on resize: a zero dimension is a no-op (minimized or
    /// hidden window); otherwise the new size is stored in both the size and
    /// the configuration. Returns whether the surface must be reconfigured
    /// now.
    pub fn resize(&mut self, new_size: WindowSize) -> (reconfigure: bool)
        ensures
            *final(self) == resize_step(*old(self), new_size).0,
            reconfigure == resize_step(*old(self), new_size).1,
    {
        if new_size.width == 0 || new_size.height == 0 {
            return false;
        }
        self.size = new_size;
        self.config.width = new_size.width;
        self.config.height = new_size.height;
        true
    }

    /// Recover a lost or outdated surface: re-apply the last known-good
    /// configuration, equivalently a resize to the last stored size.
    /// Returns whether the surface must be reconfigured now.
    pub fn recover_from_loss(&mut self) -> (reconfigure: bool)
        ensures
            *final(self) == resize_step(*old(self), old(self).size).0,
            reconfigure == resize_step(*old(self), old(self).size).1,
    {
        let last = self.size;
        self.resize(last)
    }

    /// Dispatch one platform event: close requests and Escape presses
    /// request termination; a resize sets the validity flag and
    /// reconfigures; a redraw request schedules the next redraw and renders
    /// only once the flag is set; everything else is only forwarded.
    pub fn handle_event(&mut self, event: &Event) -> (r: EventResponse)
        ensures
            *final(self) == event_step(*old(self), *event).0,
            r == event_step(*old(self), *event).1,
    {
        let consumed = self.input(event);
        if consumed {
            return EventResponse {
                exit: false,
                reconfigure: false,
                render: false,
                schedule_redraw: false,
                forward: false,
            };
        }
        match event {
            Event::CloseRequested => {
                self.exit_requested = true;
                EventResponse {
                    exit: true,
                    reconfigure: false,
                    render: false,
                    schedule_redraw: false,
                    forward: false,
                }
            },
            Event::KeyInput { pressed, escape } if *pressed && *escape => {
                self.exit_requested = true;
                EventResponse {
                    exit: true,
                    reconfigure: false,
                    render: false,
                    schedule_redraw: false,
                    forward: false,
                }
            },
            Event::Resized { size } => {
                self.surface_configured = true;
                let reconfigure = self.resize(*size);
                EventResponse {
                    exit: false,
                    reconfigure,
                    render: false,
                    schedule_redraw: false,
                    forward: true,
                }
            },
            Event::RedrawRequested => EventResponse {
                exit: false,
                reconfigure: false,
                render: self.surface_configured,
                schedule_redraw: true,
                forward: true,
            },
            _ => EventResponse {
                exit: false,
                reconfigure: false,
                render: false,
                schedule_redraw: false,
                forward: true,
            },
        }
    }

    /// Apply the acquisition-outcome table to the result of one frame
    /// attempt: lost or outdated recovers with the last stored size, out of
    /// memory requests termination, a timeout warns, success needs nothing.
    pub fn handle_render_result(&mut self, result: Result<(), SurfaceError>) -> (r:
        OutcomeResponse)
        ensures
            *final(self) == outcome_step(*old(self), result).0,
            r == outcome_step(*old(self), result).1,
    {
        match result {
            Result::Ok(()) => OutcomeResponse { exit: false, reconfigure: false, warn: false },
            Result::Err(SurfaceError::Lost) | Result::Err(SurfaceError::Outdated) => {
                let reconfigure = self.recover_from_loss();
                OutcomeResponse { exit: false, reconfigure, warn: false }
            },
            Result::Err(SurfaceError::OutOfMemory) => {
                self.exit_requested = true;
                OutcomeResponse { exit: true, reconfigure: false, warn: false }
            },
            Result::Err(SurfaceError::Timeout) => OutcomeResponse {
                exit: false,
                reconfigure: false,
                warn: true,
            },
        }
    }
}

/// A resize event with a zero dimension leaves the stored size and the
/// whole surface configuration unchanged and issues no reconfigure.
pub proof fn lemma_zero_resize_is_noop(s: AppCore, new_size: WindowSize)
    requires
        new_size.width == 0 || new_size.height == 0,
    ensures
        event_step(s, (Event::Resized { size: new_size })).0.config == s.config,
        event_step(s, (Event::Resized { size: new_size })).0.size == s.size,
        !event_step(s, (Event::Resized { size: new_size })).1.reconfigure,
        resize_step(s, new_size).0 == s,
        !resize_step(s, new_size).1,
{
}

/// A resize event with both dimensions positive stores exactly the event's
/// size, reconfigures the surface with exactly that width and height, and
/// changes nothing else of the configuration.
pub proof fn lemma_positive_resize(s: AppCore, new_size: WindowSize)
    requires
        new_size.width > 0,
        new_size.height > 0,
    ensures
        event_step(s, (Event::Resized { size: new_size })).0.size == new_size,
        event_step(s, (Event::Resized { size: new_size })).0.config.width == new_size.width,
        event_step(s, (Event::Resized { size: new_size })).0.config.height == new_size.height,
        event_step(s, (Event::Resized { size: new_size })).0.config.format == s.config.format,
        event_step(s, (Event::Resized { size: new_size })).0.config.present_mode
            == s.config.present_mode,
        event_step(s, (Event::Resized { size: new_size })).0.config.alpha_mode
            == s.config.alpha_mode,
        event_step(s, (Event::Resized { size: new_size })).0.surface_configured,
        event_step(s, (Event::Resized { size: new_size })).1.reconfigure,
{
}

/// Every resize event, zero or not, sets the surface validity flag.
pub proof fn lemma_resize_sets_flag(s: AppCore, new_size: WindowSize)
    ensures
        event_step(s, (Event::Resized { size: new_size })).0.surface_configured,
{
}

/// A redraw request while the surface validity flag is false renders no
/// frame, but still schedules another redraw, so the loop stays alive; the
/// state does not change.
pub proof fn lemma_redraw_skipped_while_unconfigured(s: AppCore)
    requires
        !s.surface_configured,
    ensures
        !event_step(s, Event::RedrawRequested).1.render,
        event_step(s, Event::RedrawRequested).1.schedule_redraw,
        event_step(s, Event::RedrawRequested).0 == s,
{
}

/// A redraw request while the surface validity flag is true attempts
/// exactly one frame acquisition and schedules another redraw.
pub proof fn lemma_redraw_renders_while_configured(s: AppCore)
    requires
        s.surface_configured,
    ensures
        event_step(s, Event::RedrawRequested).1.render,
        event_step(s, Event::RedrawRequested).1.schedule_redraw,
        event_step(s, Event::RedrawRequested).0 == s,
{
}

/// The acquisition-outcome table, exhaustively: success takes no action; a
/// lost or outdated surface reconfigures (with the stored size, when it is
/// positive) and neither warns nor exits; out of memory exits and does
/// nothing else; a timeout warns and does nothing else. No outcome alters
/// the stored size or the configuration.
pub proof fn lemma_outcome_table(s: AppCore, r: Result<(), SurfaceError>)
    requires
        s.wf(),
    ensures
        outcome_step(s, r).0.config == s.config,
        outcome_step(s, r).0.size == s.size,
        outcome_step(s, r).0.surface_configured == s.surface_configured,
        r is Ok ==> outcome_step(s, r) == (
            s,
            OutcomeResponse { exit: false, reconfigure: false, warn: false },
        ),
        (r == Result::<(), SurfaceError>::Err(SurfaceError::Lost) || r == Result::<(
            ),
            SurfaceError,
        >::Err(SurfaceError::Outdated)) ==> outcome_step(s, r) == (
            s,
            OutcomeResponse { exit: false, reconfigure: s.size.is_positive(), warn: false },
        ),
        r == Result::<(), SurfaceError>::Err(SurfaceError::OutOfMemory) ==> outcome_step(s, r) == (
            AppCore { exit_requested: true, ..s },
            OutcomeResponse { exit: true, reconfigure: false, warn: false },
        ),
        r == Result::<(), SurfaceError>::Err(SurfaceError::Timeout) ==> outcome_step(s, r) == (
            s,
            OutcomeResponse { exit: false, reconfigure: false, warn: true },
        ),
{
}

/// After a resize was handled, a lost or outdated surface recovers with the
/// size of that resize, not with any earlier one, and the configuration
/// handed back for the reconfigure carries exactly that size.
pub proof fn lemma_recovery_uses_latest_size(s: AppCore, new_size: WindowSize)
    requires
        new_size.is_positive(),
    ensures
        ({
            let resized = event_step(s, (Event::Resized { size: new_size })).0;
            let recovered = outcome_step(resized, Result::Err(SurfaceError::Outdated));
            &&& recovered.1.reconfigure
            &&& recovered.0.config.width == new_size.width
            &&& recovered.0.config.height == new_size.height
            &&& recovered.0.size == new_size
        }),
{
}

/// An Escape key-press and a window-close request produce identical
/// termination behaviour, and a second such event, under either trigger,
/// changes nothing further: termination is idempotent.
pub proof fn lemma_exit_events_agree(s: AppCore)
    ensures
        event_step(s, Event::CloseRequested) == event_step(
            s,
            (Event::KeyInput { pressed: true, escape: true }),
        ),
        event_step(s, Event::CloseRequested).0.exit_requested,
        event_step(s, Event::CloseRequested).1.exit,
        !event_step(s, Event::CloseRequested).1.forward,
        event_step(event_step(s, Event::CloseRequested).0, Event::CloseRequested) == event_step(
            s,
            Event::CloseRequested,
        ),
        event_step(
            event_step(s, Event::CloseRequested).0,
            (Event::KeyInput { pressed: true, escape: true }),
        ) == event_step(s, Event::CloseRequested),
{
}

/// A reconfigure is only ever requested while both stored configuration
/// dimensions are strictly positive: a zero-sized surface is never
/// configured.
pub proof fn lemma_reconfigure_only_with_positive_size(
    s: AppCore,
    e: Event,
    r: Result<(), SurfaceError>,
)
    ensures
        event_step(s, e).1.reconfigure ==> event_step(s, e).0.config.width > 0 && event_step(
            s,
            e,
        ).0.config.height > 0,
        outcome_step(s, r).1.reconfigure ==> outcome_step(s, r).0.config.width > 0 && outcome_step(
            s,
            r,
        ).0.config.height > 0,
{
}

/// Termination, once requested, is never withdrawn, and the surface
/// validity flag, once set, never falls.
pub proof fn lemma_flags_monotone(s: AppCore, e: Event, r: Result<(), SurfaceError>)
    ensures
        s.exit_requested ==> event_step(s, e).0.exit_requested,
        s.exit_requested ==> outcome_step(s, r).0.exit_requested,
        s.surface_configured ==> event_step(s, e).0.surface_configured,
        s.surface_configured ==> outcome_step(s, r).0.surface_configured,
{
}

/// Neither a dispatched event nor a frame outcome ever breaks the agreement
/// between the stored size and the stored configuration.
pub proof fn lemma_wf_preserved(s: AppCore, e: Event, r: Result<(), SurfaceError>)
    requires
        s.wf(),
    ensures
        event_step(s, e).0.wf(),
        outcome_step(s, r).0.wf(),
{
}

} // verus!

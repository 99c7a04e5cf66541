use gpu_shell::dispatch::{AppCore, Event, EventResponse, OutcomeResponse, SurfaceError};
use gpu_shell::surface::{FormatInfo, SurfaceCaps, WindowSize};

fn startup(width: u32, height: u32) -> AppCore {
    let caps = SurfaceCaps {
        formats: vec![FormatInfo { id: 1, srgb: false }, FormatInfo { id: 2, srgb: true }],
        present_modes: vec![3],
        alpha_modes: vec![9],
    };
    AppCore::new(&caps, WindowSize { width, height })
}

fn resized(width: u32, height: u32) -> Event {
    Event::Resized { size: WindowSize { width, height } }
}

#[test]
fn startup_state() {
    let core = startup(800, 600);
    assert!(!core.surface_configured);
    assert!(!core.exit_requested);
    assert_eq!(core.size, WindowSize { width: 800, height: 600 });
    assert_eq!(core.config.width, 800);
    assert_eq!(core.config.height, 600);
    assert_eq!(core.config.format, FormatInfo { id: 2, srgb: true });
}

#[test]
fn zero_width_resize_is_noop() {
    let mut core = startup(800, 600);
    let r = core.handle_event(&resized(0, 300));
    assert!(!r.reconfigure);
    assert!(r.forward && !r.exit && !r.render && !r.schedule_redraw);
    assert_eq!(core.size, WindowSize { width: 800, height: 600 });
    assert_eq!(core.config, startup(800, 600).config);
    assert!(core.surface_configured);
}

#[test]
fn zero_height_resize_is_noop() {
    let mut core = startup(800, 600);
    let r = core.handle_event(&resized(300, 0));
    assert!(!r.reconfigure);
    assert_eq!(core.config, startup(800, 600).config);
}

#[test]
fn positive_resize_stores_and_reconfigures() {
    let mut core = startup(800, 600);
    let r = core.handle_event(&resized(1024, 768));
    assert!(r.reconfigure);
    assert!(core.surface_configured);
    assert_eq!(core.size, WindowSize { width: 1024, height: 768 });
    assert_eq!(core.config.width, 1024);
    assert_eq!(core.config.height, 768);
    assert_eq!(core.config.format, FormatInfo { id: 2, srgb: true });
    assert_eq!(core.config.present_mode, 3);
    assert_eq!(core.config.alpha_mode, 9);
}

#[test]
fn redraw_before_first_resize_is_skipped_but_rescheduled() {
    let mut core = startup(800, 600);
    let r = core.handle_event(&Event::RedrawRequested);
    assert!(!r.render);
    assert!(r.schedule_redraw);
    assert!(r.forward);
    let again = core.handle_event(&Event::RedrawRequested);
    assert!(!again.render && again.schedule_redraw);
}

#[test]
fn redraw_after_resize_attempts_one_frame() {
    let mut core = startup(800, 600);
    core.handle_event(&resized(800, 600));
    let r = core.handle_event(&Event::RedrawRequested);
    assert!(r.render);
    assert!(r.schedule_redraw);
}

#[test]
fn other_events_are_only_forwarded() {
    let mut core = startup(800, 600);
    let before = core;
    let r = core.handle_event(&Event::Other);
    assert_eq!(
        r,
        EventResponse {
            exit: false,
            reconfigure: false,
            render: false,
            schedule_redraw: false,
            forward: true,
        }
    );
    assert_eq!(core, before);
}

#[test]
fn input_hook_consumes_nothing() {
    let core = startup(800, 600);
    assert!(!core.input(&Event::CloseRequested));
    assert!(!core.input(&Event::RedrawRequested));
    assert!(!core.input(&Event::Other));
}

#[test]
fn update_changes_nothing() {
    let mut core = startup(800, 600);
    let before = core;
    core.update();
    assert_eq!(core, before);
}

#[test]
fn outcome_success_takes_no_action() {
    let mut core = startup(800, 600);
    core.handle_event(&resized(800, 600));
    let before = core;
    let o = core.handle_render_result(Ok(()));
    assert_eq!(o, OutcomeResponse { exit: false, reconfigure: false, warn: false });
    assert_eq!(core, before);
}

#[test]
fn outcome_lost_reconfigures_with_stored_size() {
    let mut core = startup(800, 600);
    core.handle_event(&resized(800, 600));
    let o = core.handle_render_result(Err(SurfaceError::Lost));
    assert_eq!(o, OutcomeResponse { exit: false, reconfigure: true, warn: false });
    assert_eq!(core.config.width, 800);
    assert_eq!(core.config.height, 600);
}

#[test]
fn outcome_outdated_uses_latest_size() {
    let mut core = startup(800, 600);
    core.handle_event(&resized(800, 600));
    core.handle_event(&resized(1024, 768));
    let o = core.handle_render_result(Err(SurfaceError::Outdated));
    assert!(o.reconfigure && !o.exit && !o.warn);
    assert_eq!(core.size, WindowSize { width: 1024, height: 768 });
    assert_eq!(core.config.width, 1024);
    assert_eq!(core.config.height, 768);
}

#[test]
fn outcome_out_of_memory_is_fatal() {
    let mut core = startup(800, 600);
    core.handle_event(&resized(800, 600));
    let o = core.handle_render_result(Err(SurfaceError::OutOfMemory));
    assert_eq!(o, OutcomeResponse { exit: true, reconfigure: false, warn: false });
    assert!(core.exit_requested);
}

#[test]
fn outcome_timeout_warns_and_skips() {
    let mut core = startup(800, 600);
    core.handle_event(&resized(800, 600));
    let before_config = core.config;
    let o = core.handle_render_result(Err(SurfaceError::Timeout));
    assert_eq!(o, OutcomeResponse { exit: false, reconfigure: false, warn: true });
    assert_eq!(core.config, before_config);
    assert!(!core.exit_requested);
}

#[test]
fn close_and_escape_terminate_identically() {
    let mut by_close = startup(800, 600);
    let r_close = by_close.handle_event(&Event::CloseRequested);
    let mut by_escape = startup(800, 600);
    let r_escape = by_escape.handle_event(&Event::KeyInput { pressed: true, escape: true });
    assert_eq!(r_close, r_escape);
    assert_eq!(by_close, by_escape);
    assert!(r_close.exit && !r_close.forward);
    assert!(by_close.exit_requested);
    // idempotent under either trigger
    let r_again = by_close.handle_event(&Event::KeyInput { pressed: true, escape: true });
    assert_eq!(r_again, r_close);
    assert_eq!(by_close, by_escape);
}

#[test]
fn non_escape_keys_do_not_terminate() {
    let mut core = startup(800, 600);
    let released = core.handle_event(&Event::KeyInput { pressed: false, escape: true });
    assert!(!released.exit && released.forward);
    let other_key = core.handle_event(&Event::KeyInput { pressed: true, escape: false });
    assert!(!other_key.exit && other_key.forward);
    assert!(!core.exit_requested);
}

#[test]
fn scenario_startup_first_resize_then_clean_frame() {
    let mut core = startup(800, 600);
    let r = core.handle_event(&resized(800, 600));
    assert!(core.surface_configured);
    assert!(r.reconfigure);
    let redraw = core.handle_event(&Event::RedrawRequested);
    assert!(redraw.render);
    let o = core.handle_render_result(Ok(()));
    assert_eq!(o, OutcomeResponse { exit: false, reconfigure: false, warn: false });
    assert!(!core.exit_requested);
}

#[test]
fn scenario_minimize_keeps_config_and_loop_alive() {
    // flag never set: redraws are rescheduled but nothing renders
    let mut fresh = startup(800, 600);
    let r = fresh.handle_event(&Event::RedrawRequested);
    assert!(!r.render && r.schedule_redraw);

    // flag already set: a (0,0) resize keeps the old configuration and
    // rendering attempts continue against it
    let mut core = startup(800, 600);
    core.handle_event(&resized(800, 600));
    let minimize = core.handle_event(&resized(0, 0));
    assert!(!minimize.reconfigure);
    assert_eq!(core.config.width, 800);
    assert_eq!(core.config.height, 600);
    let redraw = core.handle_event(&Event::RedrawRequested);
    assert!(redraw.render && redraw.schedule_redraw);
}

#[test]
fn scenario_out_of_memory_requests_exit_once() {
    let mut core = startup(800, 600);
    core.handle_event(&resized(800, 600));
    let redraw = core.handle_event(&Event::RedrawRequested);
    assert!(redraw.render);
    let o = core.handle_render_result(Err(SurfaceError::OutOfMemory));
    assert!(o.exit && !o.reconfigure && !o.warn);
    assert!(core.exit_requested);
}

#[test]
fn scenario_timeout_skips_frame_and_reschedules() {
    let mut core = startup(800, 600);
    core.handle_event(&resized(800, 600));
    let redraw = core.handle_event(&Event::RedrawRequested);
    assert!(redraw.render);
    let o = core.handle_render_result(Err(SurfaceError::Timeout));
    assert!(o.warn && !o.reconfigure && !o.exit);
    let next = core.handle_event(&Event::RedrawRequested);
    assert!(next.schedule_redraw && next.render);
}

use foxy::error::FoxyError;
use foxy::event::{ElementState, InputEvent, MouseButton, PlatformEvent, WindowEvent};
use foxy::framework::{Framework, FrameworkBuilder, Hook, Level, Stage, Step};
use foxy::surface::{AcquireAction, AcquireOutcome, PresentMode, PresentOutcome, SurfaceConfig, Validity};

fn driver() -> Framework {
    let mut f = FrameworkBuilder::default()
        .with_size(800, 500)
        .build(vec![PresentMode::Fifo, PresentMode::AutoNoVsync])
        .unwrap();
    assert!(f.start());
    f
}

/// Runs the frame's steps up to the first that is not a callback; returns the
/// callbacks in order and that step.
fn run_until_surface_work(f: &mut Framework, now: u64) -> (Vec<Step>, Step) {
    let mut hooks = Vec::new();
    loop {
        let step = f.step(now);
        match step {
            Step::Tick | Step::Update | Step::PostUpdate => hooks.push(step),
            _ => return (hooks, step),
        }
    }
}

#[test]
fn first_frame_configures_then_acquires() {
    let mut f = driver();
    f.begin_frame(10_000_000);
    let (hooks, step) = run_until_surface_work(&mut f, 10_000_000);
    assert_eq!(hooks, vec![Step::Tick, Step::Update, Step::PostUpdate]);
    assert_eq!(
        step,
        Step::Configure(SurfaceConfig { width: 800, height: 500, present_mode: PresentMode::AutoNoVsync })
    );
    assert_eq!(f.step(10_000_000), Step::Acquire);
    assert!(f.awaiting_outcome());
    assert_eq!(f.acquired(AcquireOutcome::Acquired { suboptimal: false }), AcquireAction::Render);
    assert!(f.presented(PresentOutcome::Presented));
    assert_eq!(f.stage(), Stage::Idle);
    assert_eq!(f.step(10_000_000), Step::Done);
    assert_eq!(f.time().lag(), 2_187_500);
}

#[test]
fn out_of_date_acquire_skips_render_and_reconfigures_first() {
    let mut f = driver();
    f.begin_frame(1_000_000);
    let (_, step) = run_until_surface_work(&mut f, 1_000_000);
    assert!(matches!(step, Step::Configure(_)));
    assert_eq!(f.step(1_000_000), Step::Acquire);
    assert_eq!(f.acquired(AcquireOutcome::OutOfDate), AcquireAction::Skip);
    // no render or present this frame
    assert!(!f.awaiting_outcome());
    assert_eq!(f.stage(), Stage::Idle);
    assert_eq!(f.step(1_000_000), Step::Done);
    assert_eq!(f.surface().validity(), Validity::NeedsRecreate);
    // the next frame configures before it acquires
    f.begin_frame(2_000_000);
    let (hooks, step) = run_until_surface_work(&mut f, 2_000_000);
    assert_eq!(hooks, vec![Step::Update, Step::PostUpdate]);
    assert!(matches!(step, Step::Configure(_)));
    assert_eq!(f.step(2_000_000), Step::Acquire);
}

#[test]
fn close_mid_frame_stops_once_and_skips_render() {
    let mut f = driver();
    f.begin_frame(20_000_000);
    assert_eq!(f.step(20_000_000), Step::Tick);
    assert_eq!(f.step(20_000_000), Step::Tick);
    assert_eq!(f.step(20_000_000), Step::Update);
    assert_eq!(f.step(20_000_000), Step::PostUpdate);
    // close arrives before the render attempt
    assert_eq!(f.handle(PlatformEvent::CloseRequested), Some(Hook::Stop));
    assert_eq!(f.stage(), Stage::Stopped);
    assert_eq!(f.step(20_000_000), Step::Done);
    assert_eq!(f.handle(PlatformEvent::CloseRequested), None);
    assert_eq!(f.handle(PlatformEvent::Input(InputEvent::Keyboard { state: ElementState::Pressed, keycode: Some(31), scancode: 47 })), None);
    assert_eq!(f.handle(PlatformEvent::Window(WindowEvent::Resized { width: 10, height: 10 })), None);
    f.begin_frame(40_000_000);
    assert_eq!(f.step(40_000_000), Step::Done);
    assert_eq!(f.stage(), Stage::Stopped);
}

#[test]
fn resize_forwards_a_window_event_and_rebuilds_next_frame() {
    let mut f = driver();
    f.begin_frame(0);
    let _ = run_until_surface_work(&mut f, 0);
    assert_eq!(f.step(0), Step::Acquire);
    f.acquired(AcquireOutcome::Acquired { suboptimal: false });
    f.presented(PresentOutcome::Presented);
    assert_eq!(
        f.handle(PlatformEvent::Window(WindowEvent::Resized { width: 1280, height: 720 })),
        Some(Hook::Window(WindowEvent::Resized { width: 1280, height: 720 }))
    );
    assert_eq!(
        f.handle(PlatformEvent::Window(WindowEvent::Rescaled { width: 1920, height: 1080 })),
        Some(Hook::Window(WindowEvent::Rescaled { width: 1920, height: 1080 }))
    );
    f.begin_frame(1);
    let (_, step) = run_until_surface_work(&mut f, 1);
    assert_eq!(
        step,
        Step::Configure(SurfaceConfig { width: 1920, height: 1080, present_mode: PresentMode::AutoNoVsync })
    );
}

#[test]
fn minimized_window_skips_the_render_attempt() {
    let mut f = driver();
    f.handle(PlatformEvent::Window(WindowEvent::Resized { width: 0, height: 0 }));
    f.begin_frame(0);
    let (_, step) = run_until_surface_work(&mut f, 0);
    assert_eq!(step, Step::Done);
    f.handle(PlatformEvent::Window(WindowEvent::Resized { width: 300, height: 200 }));
    f.begin_frame(1);
    let (_, step) = run_until_surface_work(&mut f, 1);
    assert!(matches!(step, Step::Configure(SurfaceConfig { width: 300, height: 200, .. })));
}

#[test]
fn input_and_move_events_are_forwarded() {
    let mut f = driver();
    let mouse = InputEvent::Mouse { state: ElementState::Released, button: MouseButton::Other(7) };
    assert_eq!(f.handle(PlatformEvent::Input(mouse)), Some(Hook::Input(mouse)));
    let key = InputEvent::Keyboard { state: ElementState::Pressed, keycode: None, scancode: 12 };
    assert_eq!(f.handle(PlatformEvent::Input(key)), Some(Hook::Input(key)));
    let mods = InputEvent::Modifiers { bits: 0b100 };
    assert_eq!(f.handle(PlatformEvent::Input(mods)), Some(Hook::Input(mods)));
    assert_eq!(f.handle(PlatformEvent::Input(InputEvent::Scroll)), Some(Hook::Input(InputEvent::Scroll)));
    assert_eq!(
        f.handle(PlatformEvent::Window(WindowEvent::Moved { x: -5, y: 40 })),
        Some(Hook::Window(WindowEvent::Moved { x: -5, y: 40 }))
    );
}

#[test]
fn suboptimal_acquire_still_renders_then_rebuilds() {
    let mut f = driver();
    f.begin_frame(0);
    let _ = run_until_surface_work(&mut f, 0);
    f.step(0);
    assert_eq!(f.acquired(AcquireOutcome::Acquired { suboptimal: true }), AcquireAction::Render);
    assert_eq!(f.stage(), Stage::Presenting);
    assert!(f.presented(PresentOutcome::Presented));
    f.begin_frame(1);
    let (_, step) = run_until_surface_work(&mut f, 1);
    assert!(matches!(step, Step::Configure(_)));
}

#[test]
fn failed_acquire_is_fatal() {
    let mut f = driver();
    f.begin_frame(0);
    let _ = run_until_surface_work(&mut f, 0);
    f.step(0);
    assert_eq!(f.acquired(AcquireOutcome::Failed), AcquireAction::Fatal);
    f.begin_frame(1);
    let (_, step) = run_until_surface_work(&mut f, 1);
    assert_eq!(step, Step::Fatal);
}

#[test]
fn failed_present_is_fatal() {
    let mut f = driver();
    f.begin_frame(0);
    let _ = run_until_surface_work(&mut f, 0);
    f.step(0);
    f.acquired(AcquireOutcome::Acquired { suboptimal: false });
    assert!(!f.presented(PresentOutcome::Failed));
    assert_eq!(f.surface().validity(), Validity::Lost);
}

#[test]
fn no_frame_before_start_and_start_only_once() {
    let mut f = FrameworkBuilder::default().build(vec![]).unwrap();
    f.begin_frame(100_000_000);
    assert_eq!(f.step(100_000_000), Step::Done);
    assert_eq!(f.time().lag(), 0);
    assert!(f.start());
    assert!(!f.start());
}

#[test]
fn events_before_start_call_no_callback() {
    let mut f = FrameworkBuilder::default().build(vec![]).unwrap();
    assert_eq!(f.handle(PlatformEvent::Input(InputEvent::Cursor)), None);
    assert_eq!(f.handle(PlatformEvent::Window(WindowEvent::Resized { width: 640, height: 480 })), None);
    assert_eq!(f.surface().window_size(), (640, 480));
    assert_eq!(f.handle(PlatformEvent::CloseRequested), None);
    assert_eq!(f.stage(), Stage::Stopped);
    assert!(!f.start());
}

#[test]
fn present_mode_change_through_the_driver() {
    let mut f = driver();
    assert_eq!(f.set_present_mode(PresentMode::Fifo), Ok(()));
    assert_eq!(f.surface().present_mode(), PresentMode::Fifo);
    assert_eq!(
        f.set_present_mode(PresentMode::Mailbox),
        Err(FoxyError::InvalidPresentMode(PresentMode::Mailbox))
    );
}

#[test]
fn builder_rejects_zero_tick_rate() {
    let r = FrameworkBuilder::default().with_tick_rate(0).build(vec![]);
    assert!(matches!(r, Err(FoxyError::InvalidTickRate(0))));
}

#[test]
fn builder_sets_fields() {
    let b = FrameworkBuilder::default()
        .with_title("Foxy App")
        .with_size(1024, 768)
        .with_centered(true)
        .with_tick_rate(60)
        .with_logging(Some(Level::Trace))
        .with_wgpu_logging(Some(Level::Error));
    assert_eq!(b.title, "Foxy App");
    assert_eq!((b.width, b.height), (1024, 768));
    assert!(b.centered);
    assert_eq!(b.tick_rate, 60);
    assert_eq!(b.logging_level, Some(Level::Trace));
    assert_eq!(b.wgpu_logging_level, Some(Level::Error));
    let f = b.build(vec![]).unwrap();
    assert_eq!(f.time().tick_rate(), 60);
    assert_eq!(f.time().tick_time(), 16_666_666);
    assert_eq!(f.time().bail_threshold(), 1024);
    assert_eq!(f.surface().window_size(), (1024, 768));
}

#[test]
fn builder_defaults() {
    let b = FrameworkBuilder::default();
    assert_eq!(b.title, "Foxy");
    assert_eq!((b.width, b.height), (800, 500));
    assert!(!b.centered);
    assert_eq!(b.tick_rate, 128);
    assert_eq!(b.logging_level, None);
}

#[test]
fn level_names() {
    assert_eq!(Level::Trace.as_str(), "trace");
    assert_eq!(Level::Debug.as_str(), "debug");
    assert_eq!(Level::Info.as_str(), "info");
    assert_eq!(Level::Warn.as_str(), "warn");
    assert_eq!(Level::Error.as_str(), "error");
    assert_eq!(Level::default(), Level::Info);
}

#[test]
fn builder_takes_a_tick_period() {
    let f = FrameworkBuilder::default().with_tick_period(500_000_000).build(vec![]).unwrap();
    assert_eq!(f.time().tick_time(), 500_000_000);
    assert_eq!(f.time().tick_rate(), 2);
    let f = FrameworkBuilder::default().with_tick_period(7).with_tick_rate(100).build(vec![]).unwrap();
    assert_eq!(f.time().tick_time(), 10_000_000);
}

#[test]
fn builder_rejects_zero_tick_period() {
    let r = FrameworkBuilder::default().with_tick_period(0).build(vec![]);
    assert!(matches!(r, Err(FoxyError::InvalidTickPeriod(0))));
}

#[test]
fn log_filter_names_both_levels() {
    assert_eq!(FrameworkBuilder::default().log_filter(), "foxy=off,wgpu=off");
    let b = FrameworkBuilder::default()
        .with_logging(Some(Level::Trace))
        .with_wgpu_logging(Some(Level::Error));
    assert_eq!(b.log_filter(), "foxy=trace,wgpu=error");
    assert_eq!(FrameworkBuilder::default().with_logging(Some(Level::Warn)).log_filter(), "foxy=warn,wgpu=off");
}

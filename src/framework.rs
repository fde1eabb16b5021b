use vstd::prelude::*;
use crate::error::FoxyError;
use crate::event::{InputEvent, PlatformEvent, WindowEvent};
use crate::surface::{
    AcquireAction, AcquireOutcome, PresentMode, PresentOutcome, Surface, SurfaceConfig,
    SurfaceView, Validity,
};
use crate::time::{NANOS_PER_SEC, Time, TimeView, period_of};

verus! {

/// An application callback that a platform event calls for.
#[derive(Debug, Clone, Copy, PartialEq, Eq, Structural)]
pub enum Hook {
    Window(WindowEvent),
    Input(InputEvent),
    Stop,
}

/// The next thing a frame asks of the caller.
#[derive(Debug, Clone, Copy, PartialEq, Eq, Structural)]
pub enum Step {
    /// Call the application's `tick`.
    Tick,
    /// Call the application's `update`.
    Update,
    /// Call the application's `post_update`.
    PostUpdate,
    /// Rebuild the swapchain and its per-image resources with this configuration.
    Configure(SurfaceConfig),
    /// Acquire the next image and report the outcome with `acquired`.
    Acquire,
    /// Nothing more this frame.
    Done,
    /// The device is lost: shut down.
    Fatal,
}

/// Where the frame driver stands.
#[derive(Debug, Clone, Copy, PartialEq, Eq, Structural)]
pub enum Stage {
    /// Made, the application not started yet.
    Created,
    /// Between frames.
    Idle,
    /// Running the frame's due ticks; `update` comes next.
    Ticking,
    /// `post_update` comes next.
    PostUpdate,
    /// The render attempt comes next.
    Draw,
    /// Waiting for the outcome of an acquire.
    Acquiring,
    /// An image is being drawn and presented; waiting for the outcome.
    Presenting,
    /// Closed: no more callbacks.
    Stopped,
}

/// What a `Framework` stands for.
pub struct FrameworkView {
    pub time: TimeView,
    pub surface: SurfaceView,
    pub stage: Stage,
}

impl FrameworkView {
    pub open spec fn wf(self) -> bool {
        &&& self.time.wf()
        &&& self.surface.wf()
        &&& self.stage == Stage::Acquiring ==> self.surface.validity == Validity::Valid
    }

    pub open spec fn awaiting_outcome(self) -> bool {
        self.stage == Stage::Acquiring || self.stage == Stage::Presenting
    }

    /// The callback an event calls for: none before `start` or after a close,
    /// else the event itself, with its payload.
    pub open spec fn hook_for(self, event: PlatformEvent) -> Option<Hook> {
        if self.stage == Stage::Stopped || self.stage == Stage::Created {
            None
        } else {
            match event {
                PlatformEvent::Window(e) => Some(Hook::Window(e)),
                PlatformEvent::CloseRequested => Some(Hook::Stop),
                PlatformEvent::Input(e) => Some(Hook::Input(e)),
            }
        }
    }

    /// The driver after an event: a new window size marks the surface for
    /// rebuilding, a close stops the driver; after a close nothing changes.
    pub open spec fn after_event(self, event: PlatformEvent) -> FrameworkView {
        if self.stage == Stage::Stopped {
            self
        } else {
            match event {
                PlatformEvent::Window(WindowEvent::Resized { width, height }) => FrameworkView {
                    surface: self.surface.resized(width as nat, height as nat),
                    ..self
                },
                PlatformEvent::Window(WindowEvent::Rescaled { width, height }) => FrameworkView {
                    surface: self.surface.resized(width as nat, height as nat),
                    ..self
                },
                PlatformEvent::CloseRequested => FrameworkView { stage: Stage::Stopped, ..self },
                _ => self,
            }
        }
    }

    pub open spec fn in_frame_or_idle(self) -> bool {
        self.stage != Stage::Created && self.stage != Stage::Stopped
    }

    pub open spec fn after_begin(self, now: nat) -> FrameworkView {
        if self.in_frame_or_idle() {
            FrameworkView { time: self.time.updated(now), stage: Stage::Ticking, ..self }
        } else {
            self
        }
    }

    /// The step a frame asks for next.
    pub open spec fn next_step(self) -> Step {
        match self.stage {
            Stage::Ticking => if self.time.should_tick() {
                Step::Tick
            } else {
                Step::Update
            },
            Stage::PostUpdate => Step::PostUpdate,
            Stage::Draw => if self.surface.validity == Validity::Lost {
                Step::Fatal
            } else if self.surface.validity == Validity::Valid {
                Step::Acquire
            } else if self.surface.configures(
                self.surface.window_width,
                self.surface.window_height,
            ) {
                Step::Configure(
                    self.surface.config_for(self.surface.window_width, self.surface.window_height),
                )
            } else {
                Step::Done
            },
            _ => Step::Done,
        }
    }

    /// The driver after one step at each reading of `nows`, in order.
    pub open spec fn after_steps(self, nows: Seq<nat>) -> FrameworkView
        decreases nows.len(),
    {
        if nows.len() == 0 {
            self
        } else {
            self.after_steps(nows.drop_last()).after_step(nows.last())
        }
    }

    /// The driver once that step is taken at clock reading `now`.
    pub open spec fn after_step(self, now: nat) -> FrameworkView {
        match self.stage {
            Stage::Ticking => if self.time.should_tick() {
                FrameworkView { time: self.time.ticked(now), ..self }
            } else {
                FrameworkView { stage: Stage::PostUpdate, ..self }
            },
            Stage::PostUpdate => FrameworkView { stage: Stage::Draw, ..self },
            Stage::Draw => if self.surface.validity == Validity::Lost {
                FrameworkView { stage: Stage::Idle, ..self }
            } else if self.surface.validity == Validity::Valid {
                FrameworkView { stage: Stage::Acquiring, ..self }
            } else if self.surface.configures(
                self.surface.window_width,
                self.surface.window_height,
            ) {
                FrameworkView {
                    surface: self.surface.configured(
                        self.surface.window_width,
                        self.surface.window_height,
                    ),
                    ..self
                }
            } else {
                FrameworkView { stage: Stage::Idle, ..self }
            },
            _ => self,
        }
    }
}

/// The frame driver: decides, for each platform event and each step of a frame,
/// which application callback runs and what the presentation surface does.
///
/// A frame starts with `begin_frame`; `step` is then called until it answers
/// `Done` or `Fatal`, doing what each answer asks. After `Acquire`, the caller
/// reports the outcome with `acquired`, and if told to render, draws, presents
/// and reports with `presented`.
pub struct Framework {
    time: Time,
    surface: Surface,
    stage: Stage,
}

impl View for Framework {
    type V = FrameworkView;

    closed spec fn view(&self) -> FrameworkView {
        FrameworkView { time: self.time@, surface: self.surface@, stage: self.stage }
    }
}

impl Framework {
    pub open spec fn wf(&self) -> bool {
        self@.wf()
    }

    pub fn new(time: Time, surface: Surface) -> (r: Framework)
        requires
            time.wf(),
            surface.wf(),
        ensures
            r.wf(),
            r@ == (FrameworkView { time: time@, surface: surface@, stage: Stage::Created }),
    {
        Framework { time, surface, stage: Stage::Created }
    }

    pub fn time(&self) -> (r: &Time)
        ensures
            r@ == self@.time,
    {
        &self.time
    }

    pub fn surface(&self) -> (r: &Surface)
        ensures
            r@ == self@.surface,
    {
        &self.surface
    }

    pub fn stage(&self) -> (r: Stage)
        ensures
            r == self@.stage,
    {
        self.stage
    }

    /// Whether an acquire or present outcome is owed before anything else.
    pub fn awaiting_outcome(&self) -> (r: bool)
        ensures
            r == self@.awaiting_outcome(),
    {
        match self.stage {
            Stage::Acquiring | Stage::Presenting => true,
            _ => false,
        }
    }

    /// Starts the application: true exactly once, before any frame, when its
    /// `start` callback must run.
    pub fn start(&mut self) -> (r: bool)
        requires
            old(self).wf(),
        ensures
            final(self).wf(),
            r == (old(self)@.stage == Stage::Created),
            r ==> final(self)@ == (FrameworkView { stage: Stage::Idle, ..old(self)@ }),
            !r ==> final(self)@ == old(self)@,
    {
        if self.stage == Stage::Created {
            self.stage = Stage::Idle;
            true
        } else {
            false
        }
    }

    /// Handles a window or input event; returns the callback to run, if any.
    /// Before `start` and after a close request nothing is returned.
    pub fn handle(&mut self, event: PlatformEvent) -> (r: Option<Hook>)
        requires
            old(self).wf(),
            !old(self)@.awaiting_outcome(),
        ensures
            final(self).wf(),
            r == old(self)@.hook_for(event),
            final(self)@ == old(self)@.after_event(event),
    {
        if self.stage == Stage::Stopped {
            return None;
        }
        let started = match self.stage {
            Stage::Created => false,
            _ => true,
        };
        let hook = match event {
            PlatformEvent::Window(e) => {
                match e {
                    WindowEvent::Resized { width, height } => {
                        self.surface.reconfigure_for_resize(width, height);
                    },
                    WindowEvent::Rescaled { width, height } => {
                        self.surface.reconfigure_for_resize(width, height);
                    },
                    WindowEvent::Moved { .. } => {},
                }
                Hook::Window(e)
            },
            PlatformEvent::CloseRequested => {
                self.stage = Stage::Stopped;
                Hook::Stop
            },
            PlatformEvent::Input(e) => Hook::Input(e),
        };
        if started {
            Some(hook)
        } else {
            None
        }
    }

    /// Asks for `mode` from now on (see `Surface::set_present_mode`).
    pub fn set_present_mode(&mut self, mode: PresentMode) -> (r: Result<(), FoxyError>)
        requires
            old(self).wf(),
            !old(self)@.awaiting_outcome(),
        ensures
            final(self).wf(),
            final(self)@.time == old(self)@.time,
            final(self)@.stage == old(self)@.stage,
            old(self)@.surface.supported_modes.contains(mode) ==> {
                &&& r is Ok
                &&& final(self)@.surface == SurfaceView {
                    requested_mode: mode,
                    ..old(self)@.surface.invalidated()
                }
            },
            !old(self)@.surface.supported_modes.contains(mode) ==> {
                &&& r == Err::<(), FoxyError>(FoxyError::InvalidPresentMode(mode))
                &&& final(self)@.surface == old(self)@.surface
            },
    {
        self.surface.set_present_mode(mode)
    }

    /// Starts a frame at clock reading `now`. Before `start` and after a close
    /// request it does nothing.
    pub fn begin_frame(&mut self, now: u64)
        requires
            old(self).wf(),
            !old(self)@.awaiting_outcome(),
        ensures
            final(self).wf(),
            final(self)@ == old(self)@.after_begin(now as nat),
    {
        match self.stage {
            Stage::Created | Stage::Stopped => {},
            _ => {
                self.time.update(now);
                self.stage = Stage::Ticking;
            },
        }
    }

    /// Takes the frame's next step at clock reading `now` and says what the caller must do.
    pub fn step(&mut self, now: u64) -> (r: Step)
        requires
            old(self).wf(),
            !old(self)@.awaiting_outcome(),
        ensures
            final(self).wf(),
            r == old(self)@.next_step(),
            final(self)@ == old(self)@.after_step(now as nat),
    {
        match self.stage {
            Stage::Ticking => {
                if self.time.should_do_tick() {
                    self.time.tick(now);
                    Step::Tick
                } else {
                    self.stage = Stage::PostUpdate;
                    Step::Update
                }
            },
            Stage::PostUpdate => {
                self.stage = Stage::Draw;
                Step::PostUpdate
            },
            Stage::Draw => {
                match self.surface.validity() {
                    Validity::Lost => {
                        self.stage = Stage::Idle;
                        Step::Fatal
                    },
                    Validity::Valid => {
                        self.stage = Stage::Acquiring;
                        Step::Acquire
                    },
                    _ => {
                        let (width, height) = self.surface.window_size();
                        if self.surface.configure(width, height) {
                            Step::Configure(self.surface.config())
                        } else {
                            self.stage = Stage::Idle;
                            Step::Done
                        }
                    },
                }
            },
            _ => Step::Done,
        }
    }

    /// Reports the outcome of `Acquire`. On `Render` the caller draws into the
    /// image, presents it and reports with `presented`; otherwise the frame is over.
    pub fn acquired(&mut self, outcome: AcquireOutcome) -> (r: AcquireAction)
        requires
            old(self).wf(),
            old(self)@.stage == Stage::Acquiring,
        ensures
            final(self).wf(),
            r == SurfaceView::acquire_action(outcome),
            final(self)@ == (FrameworkView {
                surface: old(self)@.surface.after_acquire(outcome),
                stage: if r == AcquireAction::Render {
                    Stage::Presenting
                } else {
                    Stage::Idle
                },
                ..old(self)@
            }),
    {
        let action = self.surface.on_acquire(outcome);
        match action {
            AcquireAction::Render => self.stage = Stage::Presenting,
            _ => self.stage = Stage::Idle,
        }
        action
    }

    /// Reports the outcome of presenting; ends the frame. Returns false when the device is lost.
    pub fn presented(&mut self, outcome: PresentOutcome) -> (r: bool)
        requires
            old(self).wf(),
            old(self)@.stage == Stage::Presenting,
        ensures
            final(self).wf(),
            r == (outcome != PresentOutcome::Failed),
            final(self)@ == (FrameworkView {
                surface: old(self)@.surface.after_present(outcome),
                stage: Stage::Idle,
                ..old(self)@
            }),
    {
        let ok = self.surface.on_present(outcome);
        self.stage = Stage::Idle;
        ok
    }
}

proof fn lemma_tick_steps(u: FrameworkView, nows: Seq<nat>)
    requires
        u.stage == Stage::Ticking,
        forall|i: int|
            0 <= i < nows.len() ==> #[trigger] u.after_steps(nows.take(i)).next_step() == Step::Tick,
    ensures
        u.after_steps(nows) == (FrameworkView { time: u.time.after_ticks(nows), ..u }),
    decreases nows.len(),
{
    if nows.len() > 0 {
        let n = nows.len() as int;
        let front = nows.drop_last();
        assert forall|i: int| 0 <= i < front.len() implies #[trigger] u.after_steps(
            front.take(i),
        ).next_step() == Step::Tick by {
            assert(front.take(i) =~= nows.take(i));
            assert(u.after_steps(nows.take(i)).next_step() == Step::Tick);
        }
        lemma_tick_steps(u, front);
        assert(nows.take(n - 1) =~= front);
        assert(u.after_steps(nows.take(n - 1)).next_step() == Step::Tick);
    }
}

/// The ticks a frame hands out are a run of due clock ticks from the frame's
/// update: each `Tick` step consumes one due tick, so a frame never hands out
/// more ticks than the bail threshold, and the clock ends where that run of
/// ticks leaves it (the lag one period lower per tick).
pub proof fn lemma_frame_ticks(v: FrameworkView, now: nat, nows: Seq<nat>)
    requires
        v.wf(),
        v.in_frame_or_idle(),
        forall|i: int|
            0 <= i < nows.len() ==> #[trigger] v.after_begin(now).after_steps(nows.take(i)).next_step()
                == Step::Tick,
    ensures
        v.after_begin(now).after_steps(nows).time == v.time.updated(now).after_ticks(nows),
        v.time.updated(now).all_ticks_due(nows),
        nows.len() <= v.time.bail_threshold,
{
    let u = v.after_begin(now);
    lemma_tick_steps(u, nows);
    assert forall|i: int| 0 <= i < nows.len() implies #[trigger] v.time.updated(now).after_ticks(
        nows.take(i),
    ).should_tick() by {
        let pre = nows.take(i);
        assert forall|j: int| 0 <= j < pre.len() implies #[trigger] u.after_steps(
            pre.take(j),
        ).next_step() == Step::Tick by {
            assert(pre.take(j) =~= nows.take(j));
            assert(u.after_steps(nows.take(j)).next_step() == Step::Tick);
        }
        lemma_tick_steps(u, pre);
        assert(u.after_steps(nows.take(i)).next_step() == Step::Tick);
    }
    crate::time::lemma_frame_ticks_bounded(v.time, now, nows);
}

/// The surface is acquired from only while it is valid, and only a `Configure`
/// step makes it valid again: an out-of-date acquire leaves it needing a
/// rebuild, no event or frame start makes it valid, so the next render attempt
/// configures before it acquires.
pub proof fn lemma_configure_before_acquire(v: FrameworkView, event: PlatformEvent, now: nat)
    requires
        v.wf(),
    ensures
        v.next_step() == Step::Acquire ==> v.surface.validity == Validity::Valid,
        v.stage == Stage::Acquiring ==> v.surface.after_acquire(AcquireOutcome::OutOfDate).validity
            == Validity::NeedsRecreate,
        v.surface.validity != Validity::Valid ==> v.after_event(event).surface.validity
            != Validity::Valid,
        v.surface.validity != Validity::Valid ==> v.after_begin(now).surface.validity
            != Validity::Valid,
        v.surface.validity != Validity::Valid && v.after_step(now).surface.validity
            == Validity::Valid ==> v.next_step() is Configure,
{
}

/// Before `start`, no event calls for a callback and no frame runs.
pub proof fn lemma_nothing_before_start(v: FrameworkView, event: PlatformEvent, now: nat)
    requires
        v.stage == Stage::Created,
    ensures
        v.hook_for(event) is None,
        v.after_begin(now) == v,
        v.next_step() == Step::Done,
        v.after_step(now) == v,
{
}

/// Once started, a close request calls for `stop` once, from any point of a frame; after it
/// the driver is done for good: no event calls for a callback, no frame starts,
/// and every step answers `Done` and changes nothing.
pub proof fn lemma_close_is_final(
    v: FrameworkView,
    later_event: PlatformEvent,
    now: nat,
)
    requires
        v.stage != Stage::Stopped,
        v.stage != Stage::Created,
    ensures
        v.hook_for(PlatformEvent::CloseRequested) == Some(Hook::Stop),
        v.after_event(PlatformEvent::CloseRequested).stage == Stage::Stopped,
        ({
            let s = v.after_event(PlatformEvent::CloseRequested);
            &&& s.hook_for(later_event) is None
            &&& s.after_event(later_event) == s
            &&& s.after_begin(now) == s
            &&& s.next_step() == Step::Done
            &&& s.after_step(now) == s
        }),
{
}

/// Most ticks a frame runs before it stops catching up.
pub const BAIL_THRESHOLD: u32 = 1024;

/// Logging verbosity.
#[derive(Debug, Clone, Copy, PartialEq, Eq, Structural)]
pub enum Level {
    Trace,
    Debug,
    Info,
    Warn,
    Error,
}

impl Level {
    /// The level's name as log filters spell it.
    pub fn as_str(&self) -> (r: &'static str)
        ensures
            *self == Level::Trace ==> r == "trace",
            *self == Level::Debug ==> r == "debug",
            *self == Level::Info ==> r == "info",
            *self == Level::Warn ==> r == "warn",
            *self == Level::Error ==> r == "error",
    {
        match self {
            Level::Trace => "trace",
            Level::Debug => "debug",
            Level::Info => "info",
            Level::Warn => "warn",
            Level::Error => "error",
        }
    }
}

impl Default for Level {
    fn default() -> (r: Level)
        ensures
            r == Level::Info,
    {
        Level::Info
    }
}

/// A level's name in a log filter, `off` for none.
pub open spec fn level_filter_name(level: Option<Level>) -> &'static str {
    match level {
        None => "off",
        Some(Level::Trace) => "trace",
        Some(Level::Debug) => "debug",
        Some(Level::Info) => "info",
        Some(Level::Warn) => "warn",
        Some(Level::Error) => "error",
    }
}

fn filter_name(level: Option<Level>) -> (r: &'static str)
    ensures
        r == level_filter_name(level),
{
    match level {
        None => "off",
        Some(level) => level.as_str(),
    }
}

/// The application's configuration: window title and size, placement, tick rate
/// and log verbosity for the framework and for the GPU backend.
#[derive(Debug, Clone, Copy)]
pub struct FrameworkBuilder {
    pub title: &'static str,
    pub width: u32,
    pub height: u32,
    pub centered: bool,
    /// Ticks per second.
    pub tick_rate: u32,
    /// Length of a tick in nanoseconds; when set it takes the place of `tick_rate`.
    pub tick_period: Option<u64>,
    pub logging_level: Option<Level>,
    pub wgpu_logging_level: Option<Level>,
}

impl Default for FrameworkBuilder {
    fn default() -> (r: FrameworkBuilder)
        ensures
            r.title == "Foxy",
            r.width == 800,
            r.height == 500,
            !r.centered,
            r.tick_rate == 128,
            r.tick_period is None,
            r.logging_level is None,
            r.wgpu_logging_level is None,
    {
        FrameworkBuilder {
            title: "Foxy",
            width: 800,
            height: 500,
            centered: false,
            tick_rate: 128,
            tick_period: None,
            logging_level: None,
            wgpu_logging_level: None,
        }
    }
}

impl FrameworkBuilder {
    pub fn with_title(self, title: &'static str) -> (r: Self)
        ensures
            r == (FrameworkBuilder { title, ..self }),
    {
        FrameworkBuilder { title, ..self }
    }

    pub fn with_size(self, width: u32, height: u32) -> (r: Self)
        ensures
            r == (FrameworkBuilder { width, height, ..self }),
    {
        FrameworkBuilder { width, height, ..self }
    }

    pub fn with_centered(self, centered: bool) -> (r: Self)
        ensures
            r == (FrameworkBuilder { centered, ..self }),
    {
        FrameworkBuilder { centered, ..self }
    }

    pub fn with_tick_rate(self, tick_rate: u32) -> (r: Self)
        ensures
            r == (FrameworkBuilder { tick_rate, tick_period: None, ..self }),
    {
        FrameworkBuilder { tick_rate, tick_period: None, ..self }
    }

    /// Sets the tick length in nanoseconds, for rates that are not a whole
    /// number of ticks per second.
    pub fn with_tick_period(self, nanos: u64) -> (r: Self)
        ensures
            r == (FrameworkBuilder { tick_period: Some(nanos), ..self }),
    {
        FrameworkBuilder { tick_period: Some(nanos), ..self }
    }

    /// The log filter: `foxy=<level>,wgpu=<level>`, with `off` for no logging.
    pub fn log_filter(&self) -> (r: String)
        ensures
            r@ == "foxy="@ + level_filter_name(self.logging_level)@ + ",wgpu="@
                + level_filter_name(self.wgpu_logging_level)@,
    {
        let mut filter = String::from_str("foxy=");
        filter.append(filter_name(self.logging_level));
        filter.append(",wgpu=");
        filter.append(filter_name(self.wgpu_logging_level));
        filter
    }

    pub fn with_logging(self, level: Option<Level>) -> (r: Self)
        ensures
            r == (FrameworkBuilder { logging_level: level, ..self }),
    {
        FrameworkBuilder { logging_level: level, ..self }
    }

    pub fn with_wgpu_logging(self, level: Option<Level>) -> (r: Self)
        ensures
            r == (FrameworkBuilder { wgpu_logging_level: level, ..self }),
    {
        FrameworkBuilder { wgpu_logging_level: level, ..self }
    }

    /// The frame driver for this configuration, on a device whose surface supports
    /// `supported_modes`: a clock at the tick rate with a bail threshold of 1024
    /// ticks per frame, and a surface at the configured size that asks for
    /// presentation without vsync. The tick length is `tick_period` when set,
    /// else one over `tick_rate`; a zero period, or a tick rate of zero or above
    /// one tick per nanosecond, is rejected.
    pub fn build(self, supported_modes: Vec<PresentMode>) -> (r: Result<Framework, FoxyError>)
        ensures
            self.tick_period matches Some(p) ==> (r is Err <==> p == 0),
            self.tick_period matches Some(p) ==> (r matches Err(e) ==> e
                == FoxyError::InvalidTickPeriod(p)),
            self.tick_period is None ==> (r is Err <==> !(0 < self.tick_rate <= NANOS_PER_SEC)),
            self.tick_period is None ==> (r matches Err(e) ==> e == FoxyError::InvalidTickRate(
                self.tick_rate,
            )),
            r matches Ok(f) ==> {
                &&& f.wf()
                &&& f@.stage == Stage::Created
                &&& self.tick_period matches Some(p) ==> {
                    &&& f@.time.tick_time == p
                    &&& f@.time.tick_rate == NANOS_PER_SEC as nat / p as nat
                }
                &&& self.tick_period is None ==> {
                    &&& f@.time.tick_rate == self.tick_rate
                    &&& f@.time.tick_time == period_of(self.tick_rate as nat)
                }
                &&& f@.time.bail_threshold == BAIL_THRESHOLD
                &&& f@.time.lag == 0
                &&& f@.time.step_count == 0
                &&& f@.time.previous_frame == 0
                &&& f@.time.delta == 0
                &&& f@.time.previous_tick == 0
                &&& f@.time.tick_delta == 0
                &&& f@.surface.config == SurfaceConfig {
                    width: 0,
                    height: 0,
                    present_mode: PresentMode::Fifo,
                }
                &&& f@.surface.validity == Validity::Uninitialized
                &&& f@.surface.window_width == self.width
                &&& f@.surface.window_height == self.height
                &&& f@.surface.requested_mode == PresentMode::AutoNoVsync
                &&& f@.surface.supported_modes == supported_modes@
            },
    {
        let time = match self.tick_period {
            Some(p) => match Time::from_period(p, BAIL_THRESHOLD) {
                Some(time) => time,
                None => return Err(FoxyError::InvalidTickPeriod(p)),
            },
            None => match Time::new(self.tick_rate, BAIL_THRESHOLD) {
                Some(time) => time,
                None => return Err(FoxyError::InvalidTickRate(self.tick_rate)),
            },
        };
        let surface = Surface::new(self.width, self.height, PresentMode::AutoNoVsync, supported_modes);
        Ok(Framework::new(time, surface))
    }
}

} // verus!

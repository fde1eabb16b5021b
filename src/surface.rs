use vstd::prelude::*;
use crate::error::FoxyError;
use crate::event::ElementState;

verus! {

/// How presented images are paced against the display.
#[derive(Debug, Clone, Copy, PartialEq, Eq, Structural)]
pub enum PresentMode {
    /// FIFO if relaxed FIFO is not available; the driver picks.
    AutoVsync,
    /// Immediate or mailbox, else FIFO; the driver picks.
    AutoNoVsync,
    Immediate,
    Mailbox,
    Fifo,
    FifoRelaxed,
}

/// Vertical synchronisation as the application asks for it.
#[derive(Debug, Clone, Copy, PartialEq, Eq, Structural)]
pub enum VsyncMode {
    Enabled,
    Disabled,
    Hybrid,
}

pub open spec fn present_mode_of(v: VsyncMode) -> PresentMode {
    match v {
        VsyncMode::Enabled => PresentMode::Fifo,
        VsyncMode::Disabled => PresentMode::Immediate,
        VsyncMode::Hybrid => PresentMode::Mailbox,
    }
}

pub open spec fn vsync_of(m: PresentMode) -> VsyncMode {
    match m {
        PresentMode::Fifo => VsyncMode::Enabled,
        PresentMode::Immediate => VsyncMode::Disabled,
        _ => VsyncMode::Hybrid,
    }
}

impl VsyncMode {
    /// The next mode in the cycle enabled, disabled, hybrid, enabled.
    pub fn next(&self) -> (r: VsyncMode)
        ensures
            *self == VsyncMode::Enabled ==> r == VsyncMode::Disabled,
            *self == VsyncMode::Disabled ==> r == VsyncMode::Hybrid,
            *self == VsyncMode::Hybrid ==> r == VsyncMode::Enabled,
    {
        match self {
            VsyncMode::Enabled => VsyncMode::Disabled,
            VsyncMode::Disabled => VsyncMode::Hybrid,
            VsyncMode::Hybrid => VsyncMode::Enabled,
        }
    }

    pub fn to_present_mode(&self) -> (r: PresentMode)
        ensures
            r == present_mode_of(*self),
    {
        match self {
            VsyncMode::Enabled => PresentMode::Fifo,
            VsyncMode::Disabled => PresentMode::Immediate,
            VsyncMode::Hybrid => PresentMode::Mailbox,
        }
    }
}

impl From<PresentMode> for VsyncMode {
    fn from(value: PresentMode) -> (r: VsyncMode) {
        match value {
            PresentMode::Fifo => VsyncMode::Enabled,
            PresentMode::Immediate => VsyncMode::Disabled,
            _ => VsyncMode::Hybrid,
        }
    }
}

impl vstd::std_specs::convert::FromSpecImpl<PresentMode> for VsyncMode {
    open spec fn obeys_from_spec() -> bool {
        true
    }

    open spec fn from_spec(v: PresentMode) -> VsyncMode {
        vsync_of(v)
    }
}

/// The requested present mode when the surface supports it, else an error naming it.
pub fn pick_present_mode(requested: PresentMode, supported: &Vec<PresentMode>) -> (r: Result<
    PresentMode,
    FoxyError,
>)
    ensures
        supported@.contains(requested) ==> r == Ok::<PresentMode, FoxyError>(requested),
        !supported@.contains(requested) ==> r == Err::<PresentMode, FoxyError>(
            FoxyError::InvalidPresentMode(requested),
        ),
{
    let mut i: usize = 0;
    while i < supported.len()
        invariant
            0 <= i <= supported@.len(),
            forall|j: int| 0 <= j < i ==> supported@[j] != requested,
        decreases supported@.len() - i,
    {
        if supported[i] == requested {
            return Ok(requested);
        }
        i = i + 1;
    }
    Err(FoxyError::InvalidPresentMode(requested))
}

/// The window system's virtual key code of the V key, which cycles vsync.
pub const VSYNC_KEY: u32 = 31;

/// The vsync mode after a key event: pressing V moves to the next mode, any
/// other key event leaves it.
pub fn vsync_after_key(current: VsyncMode, state: ElementState, keycode: Option<u32>) -> (r:
    VsyncMode)
    ensures
        state == ElementState::Pressed && keycode == Some(VSYNC_KEY) ==> r == match current {
            VsyncMode::Enabled => VsyncMode::Disabled,
            VsyncMode::Disabled => VsyncMode::Hybrid,
            VsyncMode::Hybrid => VsyncMode::Enabled,
        },
        !(state == ElementState::Pressed && keycode == Some(VSYNC_KEY)) ==> r == current,
{
    match (state, keycode) {
        (ElementState::Pressed, Some(k)) => {
            if k == VSYNC_KEY {
                current.next()
            } else {
                current
            }
        },
        _ => current,
    }
}

/// The index of the surface format to use, given which of the offered formats
/// are sRGB: the first sRGB one, else the first one.
pub fn pick_surface_format(srgb: &Vec<bool>) -> (r: usize)
    requires
        srgb@.len() > 0,
    ensures
        r < srgb@.len(),
        (exists|i: int| 0 <= i < srgb@.len() && srgb@[i]) ==> {
            &&& srgb@[r as int]
            &&& forall|i: int| 0 <= i < r ==> !srgb@[i]
        },
        (forall|i: int| 0 <= i < srgb@.len() ==> !srgb@[i]) ==> r == 0,
{
    let mut i: usize = 0;
    while i < srgb.len()
        invariant
            0 <= i <= srgb@.len(),
            forall|j: int| 0 <= j < i ==> !srgb@[j],
        decreases srgb@.len() - i,
    {
        if srgb[i] {
            return i;
        }
        i = i + 1;
    }
    0
}

/// The mode a configuration uses: the requested one if supported, else FIFO,
/// which every surface supports.
pub open spec fn effective_mode(requested: PresentMode, supported: Seq<PresentMode>) -> PresentMode {
    if supported.contains(requested) {
        requested
    } else {
        PresentMode::Fifo
    }
}

/// Where the presentation surface stands.
#[derive(Debug, Clone, Copy, PartialEq, Eq, Structural)]
pub enum Validity {
    /// Never configured.
    Uninitialized,
    /// Configured for the current window size.
    Valid,
    /// Must be rebuilt before the next image is acquired.
    NeedsRecreate,
    /// The device is gone; nothing can be presented any more.
    Lost,
}

/// The parameters the swapchain is built with.
#[derive(Debug, Clone, Copy, PartialEq, Eq, Structural)]
pub struct SurfaceConfig {
    pub width: u32,
    pub height: u32,
    pub present_mode: PresentMode,
}

/// What came of asking for the next presentable image.
#[derive(Debug, Clone, Copy, PartialEq, Eq, Structural)]
pub enum AcquireOutcome {
    /// An image was acquired; `suboptimal` says it no longer matches the surface exactly.
    Acquired { suboptimal: bool },
    /// The swapchain no longer matches the surface.
    OutOfDate,
    /// Any other failure.
    Failed,
}

/// What came of presenting an image.
#[derive(Debug, Clone, Copy, PartialEq, Eq, Structural)]
pub enum PresentOutcome {
    Presented,
    Suboptimal,
    OutOfDate,
    Failed,
}

/// What to do with a frame once acquisition has been tried.
#[derive(Debug, Clone, Copy, PartialEq, Eq, Structural)]
pub enum AcquireAction {
    /// Draw into the acquired image and present it.
    Render,
    /// Draw nothing this frame.
    Skip,
    /// The device is lost.
    Fatal,
}

/// What a `Surface` stands for.
pub struct SurfaceView {
    pub window_width: nat,
    pub window_height: nat,
    pub requested_mode: PresentMode,
    pub supported_modes: Seq<PresentMode>,
    pub config: SurfaceConfig,
    pub validity: Validity,
}

impl SurfaceView {
    pub open spec fn wf(self) -> bool {
        self.validity == Validity::Valid ==> {
            &&& self.config.width == self.window_width
            &&& self.config.height == self.window_height
            &&& self.config.width > 0
            &&& self.config.height > 0
        }
    }

    pub open spec fn needs_configure(self) -> bool {
        self.validity == Validity::Uninitialized || self.validity == Validity::NeedsRecreate
    }

    /// The state marked for rebuilding, unless the device is lost or it was never built.
    pub open spec fn invalidated(self) -> SurfaceView {
        if self.validity == Validity::Valid {
            SurfaceView { validity: Validity::NeedsRecreate, ..self }
        } else {
            self
        }
    }

    /// The configuration a rebuild at `width` x `height` uses.
    pub open spec fn config_for(self, width: nat, height: nat) -> SurfaceConfig {
        SurfaceConfig {
            width: width as u32,
            height: height as u32,
            present_mode: effective_mode(self.requested_mode, self.supported_modes),
        }
    }

    /// Whether a rebuild at `width` x `height` happens: never on a lost device, and
    /// not at a zero size (a minimised window), which is skipped.
    pub open spec fn configures(self, width: nat, height: nat) -> bool {
        self.validity != Validity::Lost && width > 0 && height > 0
    }

    /// The surface after `configure(width, height)`.
    pub open spec fn configured(self, width: nat, height: nat) -> SurfaceView {
        if self.validity == Validity::Lost {
            self
        } else if width > 0 && height > 0 {
            SurfaceView {
                window_width: width,
                window_height: height,
                config: self.config_for(width, height),
                validity: Validity::Valid,
                ..self
            }
        } else {
            SurfaceView {
                window_width: width,
                window_height: height,
                ..self.invalidated()
            }
        }
    }

    /// The surface after the window was resized to `width` x `height`.
    pub open spec fn resized(self, width: nat, height: nat) -> SurfaceView {
        SurfaceView { window_width: width, window_height: height, ..self.invalidated() }
    }

    pub open spec fn acquire_action(outcome: AcquireOutcome) -> AcquireAction {
        match outcome {
            AcquireOutcome::Acquired { .. } => AcquireAction::Render,
            AcquireOutcome::OutOfDate => AcquireAction::Skip,
            AcquireOutcome::Failed => AcquireAction::Fatal,
        }
    }

    /// The surface after an acquisition with `outcome`: a suboptimal image is still
    /// drawn, and the surface is rebuilt before the next one.
    pub open spec fn after_acquire(self, outcome: AcquireOutcome) -> SurfaceView {
        match outcome {
            AcquireOutcome::Acquired { suboptimal } => if suboptimal {
                self.invalidated()
            } else {
                self
            },
            AcquireOutcome::OutOfDate => self.invalidated(),
            AcquireOutcome::Failed => SurfaceView { validity: Validity::Lost, ..self },
        }
    }

    /// The surface after presenting with `outcome`.
    pub open spec fn after_present(self, outcome: PresentOutcome) -> SurfaceView {
        match outcome {
            PresentOutcome::Presented => self,
            PresentOutcome::Suboptimal => self.invalidated(),
            PresentOutcome::OutOfDate => self.invalidated(),
            PresentOutcome::Failed => SurfaceView { validity: Validity::Lost, ..self },
        }
    }
}

/// The presentation surface's lifecycle: when the swapchain must be rebuilt, with
/// which configuration, and what a frame does after each acquire and present.
pub struct Surface {
    window_width: u32,
    window_height: u32,
    requested_mode: PresentMode,
    supported_modes: Vec<PresentMode>,
    config: SurfaceConfig,
    validity: Validity,
}

impl View for Surface {
    type V = SurfaceView;

    closed spec fn view(&self) -> SurfaceView {
        SurfaceView {
            window_width: self.window_width as nat,
            window_height: self.window_height as nat,
            requested_mode: self.requested_mode,
            supported_modes: self.supported_modes@,
            config: self.config,
            validity: self.validity,
        }
    }
}

impl Surface {
    pub open spec fn wf(&self) -> bool {
        self@.wf()
    }

    /// A surface for a window of `width` x `height` that asks for `requested_mode`
    /// among the `supported_modes` the device offers. It is built by the first `configure`.
    pub fn new(width: u32, height: u32, requested_mode: PresentMode, supported_modes: Vec<
        PresentMode,
    >) -> (r: Surface)
        ensures
            r.wf(),
            r@.validity == Validity::Uninitialized,
            r@.window_width == width,
            r@.window_height == height,
            r@.requested_mode == requested_mode,
            r@.supported_modes == supported_modes@,
            r@.config == (SurfaceConfig { width: 0, height: 0, present_mode: PresentMode::Fifo }),
    {
        Surface {
            window_width: width,
            window_height: height,
            requested_mode,
            supported_modes,
            config: SurfaceConfig { width: 0, height: 0, present_mode: PresentMode::Fifo },
            validity: Validity::Uninitialized,
        }
    }

    pub fn validity(&self) -> (r: Validity)
        ensures
            r == self@.validity,
    {
        self.validity
    }

    pub fn config(&self) -> (r: SurfaceConfig)
        ensures
            r == self@.config,
    {
        self.config
    }

    /// The window size the surface last heard of.
    pub fn window_size(&self) -> (r: (u32, u32))
        ensures
            r.0 == self@.window_width,
            r.1 == self@.window_height,
    {
        (self.window_width, self.window_height)
    }

    /// The present mode the surface runs on: the requested one if supported, else FIFO.
    pub fn present_mode(&self) -> (r: PresentMode)
        ensures
            r == effective_mode(self@.requested_mode, self@.supported_modes),
    {
        match pick_present_mode(self.requested_mode, &self.supported_modes) {
            Ok(mode) => mode,
            Err(_) => PresentMode::Fifo,
        }
    }

    /// The present mode the application asked for.
    pub fn requested_present_mode(&self) -> (r: PresentMode)
        ensures
            r == self@.requested_mode,
    {
        self.requested_mode
    }

    pub fn needs_configure(&self) -> (r: bool)
        ensures
            r == self@.needs_configure(),
    {
        match self.validity {
            Validity::Uninitialized | Validity::NeedsRecreate => true,
            _ => false,
        }
    }

    fn invalidate(&mut self)
        requires
            old(self).wf(),
        ensures
            final(self).wf(),
            final(self)@ == old(self)@.invalidated(),
    {
        if self.validity == Validity::Valid {
            self.validity = Validity::NeedsRecreate;
        }
    }

    /// Rebuilds the swapchain configuration for a window of `width` x `height`.
    /// Returns whether the caller must rebuild its per-image resources with
    /// `config()`: a zero size or a lost device leaves them as they are.
    pub fn configure(&mut self, width: u32, height: u32) -> (r: bool)
        requires
            old(self).wf(),
        ensures
            final(self).wf(),
            final(self)@ == old(self)@.configured(width as nat, height as nat),
            r == old(self)@.configures(width as nat, height as nat),
    {
        if self.validity == Validity::Lost {
            return false;
        }
        if width > 0 && height > 0 {
            self.window_width = width;
            self.window_height = height;
            let mode = match pick_present_mode(self.requested_mode, &self.supported_modes) {
                Ok(mode) => mode,
                Err(_) => PresentMode::Fifo,
            };
            self.config = SurfaceConfig { width, height, present_mode: mode };
            self.validity = Validity::Valid;
            true
        } else {
            self.invalidate();
            self.window_width = width;
            self.window_height = height;
            false
        }
    }

    /// The window now measures `width` x `height`: rebuild before the next frame
    /// rather than stretch this one.
    pub fn reconfigure_for_resize(&mut self, width: u32, height: u32)
        requires
            old(self).wf(),
        ensures
            final(self).wf(),
            final(self)@ == old(self)@.resized(width as nat, height as nat),
    {
        self.invalidate();
        self.window_width = width;
        self.window_height = height;
    }

    /// Asks for `mode` from now on; the swapchain is rebuilt with it before the next frame.
    pub fn set_present_mode(&mut self, mode: PresentMode) -> (r: Result<(), FoxyError>)
        requires
            old(self).wf(),
        ensures
            final(self).wf(),
            old(self)@.supported_modes.contains(mode) ==> {
                &&& r is Ok
                &&& final(self)@ == SurfaceView {
                    requested_mode: mode,
                    ..old(self)@.invalidated()
                }
            },
            !old(self)@.supported_modes.contains(mode) ==> {
                &&& r == Err::<(), FoxyError>(FoxyError::InvalidPresentMode(mode))
                &&& final(self)@ == old(self)@
            },
    {
        match pick_present_mode(mode, &self.supported_modes) {
            Ok(mode) => {
                self.requested_mode = mode;
                self.invalidate();
                Ok(())
            },
            Err(e) => Err(e),
        }
    }

    /// Records the outcome of acquiring the next image and says what the frame does.
    pub fn on_acquire(&mut self, outcome: AcquireOutcome) -> (r: AcquireAction)
        requires
            old(self).wf(),
        ensures
            final(self).wf(),
            final(self)@ == old(self)@.after_acquire(outcome),
            r == SurfaceView::acquire_action(outcome),
    {
        match outcome {
            AcquireOutcome::Acquired { suboptimal } => {
                if suboptimal {
                    self.invalidate();
                }
                AcquireAction::Render
            },
            AcquireOutcome::OutOfDate => {
                self.invalidate();
                AcquireAction::Skip
            },
            AcquireOutcome::Failed => {
                self.validity = Validity::Lost;
                AcquireAction::Fatal
            },
        }
    }

    /// Records the outcome of presenting; returns false when the device is lost.
    pub fn on_present(&mut self, outcome: PresentOutcome) -> (r: bool)
        requires
            old(self).wf(),
        ensures
            final(self).wf(),
            final(self)@ == old(self)@.after_present(outcome),
            r == (outcome != PresentOutcome::Failed),
    {
        match outcome {
            PresentOutcome::Presented => true,
            PresentOutcome::Suboptimal | PresentOutcome::OutOfDate => {
                self.invalidate();
                true
            },
            PresentOutcome::Failed => {
                self.validity = Validity::Lost;
                false
            },
        }
    }
}

/// Configuring twice in a row at the same size leaves the surface exactly as
/// configuring once, and the second call asks for the same rebuild as the first.
pub proof fn lemma_configure_idempotent(s: SurfaceView, width: nat, height: nat)
    requires
        s.wf(),
    ensures
        s.configured(width, height).configured(width, height) == s.configured(width, height),
        s.configured(width, height).configures(width, height) == s.configures(width, height),
        s.configures(width, height) ==> s.configured(width, height).config == s.configured(
            width,
            height,
        ).configured(width, height).config,
{
}

/// Configuring at a zero size is harmless: it rebuilds nothing, and the next
/// configure at a non-zero size succeeds with that size.
pub proof fn lemma_zero_size_configure(s: SurfaceView, zw: nat, zh: nat, width: nat, height: nat)
    requires
        s.wf(),
        s.validity != Validity::Lost,
        zw == 0 || zh == 0,
        width > 0,
        height > 0,
    ensures
        !s.configures(zw, zh),
        s.configured(zw, zh).wf(),
        s.configured(zw, zh).configures(width, height),
        s.configured(zw, zh).configured(width, height).validity == Validity::Valid,
        s.configured(zw, zh).configured(width, height).config == s.config_for(width, height),
{
}

} // verus!

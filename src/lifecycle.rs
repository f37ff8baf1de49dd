//! The surface lifecycle: a single-threaded state machine that decides, for each
//! platform event, how the window's drawable surface is brought up, kept in step
//! with the window's size, rendered to and shut down.
//!
//! The decisions are pure: `Controller::dispatch` takes an event and returns the
//! action that the host loop must carry out against the graphics backend.
use vstd::prelude::*;

verus! {

/// A window dimension as applied to a surface: zero is raised to one, so that
/// the surface never gets a degenerate configuration.
pub open spec fn clamped(v: u32) -> u32 {
    if v == 0 {
        1
    } else {
        v
    }
}

/// Floors a window dimension to one.
pub fn clamp_dimension(v: u32) -> (r: u32)
    ensures
        r == clamped(v),
        r as int == vstd::math::max(v as int, 1),
{
    if v == 0 {
        1
    } else {
        v
    }
}

/// The dimensions of a surface configuration, in physical pixels.
#[derive(Clone, Copy, Debug, PartialEq, Eq, Structural)]
pub struct SurfaceSize {
    pub width: u32,
    pub height: u32,
}

impl SurfaceSize {
    /// The configuration applied for a window of the given physical size.
    pub open spec fn for_window(width: u32, height: u32) -> SurfaceSize {
        SurfaceSize { width: clamped(width), height: clamped(height) }
    }

    /// Both dimensions are at least one.
    pub open spec fn is_applicable(self) -> bool {
        self.width >= 1 && self.height >= 1
    }

    /// The configuration for a window of the given physical size, each
    /// dimension floored to one.
    pub fn from_window(width: u32, height: u32) -> (r: SurfaceSize)
        ensures
            r == SurfaceSize::for_window(width, height),
            r.is_applicable(),
    {
        SurfaceSize { width: clamp_dimension(width), height: clamp_dimension(height) }
    }

    /// Takes the window's new physical size, each dimension floored to one.
    pub fn resize(&mut self, width: u32, height: u32)
        ensures
            *final(self) == SurfaceSize::for_window(width, height),
    {
        self.width = clamp_dimension(width);
        self.height = clamp_dimension(height);
    }
}

/// What the controller holds while its surface exists.
#[derive(Clone, Copy, Debug, PartialEq, Eq, Structural)]
pub struct ActiveSurface {
    /// The configuration last applied to the surface.
    pub size: SurfaceSize,
    /// Frames that were skipped because the backend could not hand out a
    /// drawable; counted, saturating at the largest `u64`.
    pub skipped_frames: u64,
}

/// The controller's state.
#[derive(Clone, Copy, Debug, PartialEq, Eq, Structural)]
pub enum Lifecycle {
    /// No window or surface exists yet.
    Uninitialized,
    /// The surface exists and has been configured at least once.
    Active(ActiveSurface),
    /// The host loop has been told to stop; no resource is used any more.
    Terminated,
}

/// A platform event, as delivered by the host loop.
#[derive(Clone, Copy, Debug, PartialEq, Eq, Structural)]
pub enum Event {
    /// The application became active; the window it has (or is about to have)
    /// measures `width` by `height` physical pixels.
    Activated { width: u32, height: u32 },
    /// The window now measures `width` by `height` physical pixels.
    Resized { width: u32, height: u32 },
    /// The platform asks for a new frame.
    RedrawRequested,
    /// A frame could not be acquired from the surface and was skipped.
    FrameSkipped,
    /// The user asked to close the window.
    CloseRequested,
}

/// What the host loop must do in answer to an event.
#[derive(Clone, Copy, Debug, PartialEq, Eq, Structural)]
pub enum Action {
    /// Nothing; no resource is touched.
    Ignore,
    /// Create the window's surface and device, then apply this configuration.
    Initialize(SurfaceSize),
    /// Apply this configuration to the surface, then request a redraw.
    Reconfigure(SurfaceSize),
    /// Render one frame of this size and present it.
    Render(SurfaceSize),
    /// Stop the event loop.
    Exit,
}

/// The surface lifecycle controller.
#[derive(Clone, Copy, Debug, PartialEq, Eq, Structural)]
pub struct Controller {
    pub state: Lifecycle,
}

/// A count that stops at the largest `u64`.
pub open spec fn saturating_inc(n: u64) -> u64 {
    if n == u64::MAX {
        n
    } else {
        (n + 1) as u64
    }
}

/// The transition of the lifecycle on one event: the next controller and the
/// action that the host loop carries out.
pub open spec fn step(c: Controller, e: Event) -> (Controller, Action) {
    match c.state {
        Lifecycle::Uninitialized => match e {
            Event::Activated { width, height } => {
                let size = SurfaceSize::for_window(width, height);
                (
                    Controller { state: Lifecycle::Active(ActiveSurface { size, skipped_frames: 0 }) },
                    Action::Initialize(size),
                )
            },
            Event::CloseRequested => (Controller { state: Lifecycle::Terminated }, Action::Exit),
            _ => (c, Action::Ignore),
        },
        Lifecycle::Active(a) => match e {
            Event::Activated { .. } => (c, Action::Ignore),
            Event::Resized { width, height } => {
                let size = SurfaceSize::for_window(width, height);
                (
                    Controller { state: Lifecycle::Active(ActiveSurface { size, ..a }) },
                    Action::Reconfigure(size),
                )
            },
            Event::RedrawRequested => (c, Action::Render(a.size)),
            Event::FrameSkipped => (
                Controller {
                    state: Lifecycle::Active(
                        ActiveSurface { skipped_frames: saturating_inc(a.skipped_frames), ..a },
                    ),
                },
                Action::Ignore,
            ),
            Event::CloseRequested => (Controller { state: Lifecycle::Terminated }, Action::Exit),
        },
        Lifecycle::Terminated => (c, Action::Ignore),
    }
}

impl Controller {
    /// Every configuration the controller holds has both dimensions at least one.
    pub open spec fn wf(self) -> bool {
        match self.state {
            Lifecycle::Active(a) => a.size.is_applicable(),
            _ => true,
        }
    }

    /// A controller that has not seen its first activation.
    pub fn new() -> (r: Controller)
        ensures
            r.state == Lifecycle::Uninitialized,
            r.wf(),
    {
        Controller { state: Lifecycle::Uninitialized }
    }

    /// Handles one platform event and returns what the host loop must do.
    pub fn dispatch(&mut self, e: Event) -> (r: Action)
        ensures
            (*final(self), r) == step(*old(self), e),
            old(self).wf() ==> final(self).wf(),
    {
        match self.state {
            Lifecycle::Uninitialized => match e {
                Event::Activated { width, height } => {
                    let size = SurfaceSize::from_window(width, height);
                    self.state = Lifecycle::Active(ActiveSurface { size, skipped_frames: 0 });
                    Action::Initialize(size)
                },
                Event::CloseRequested => {
                    self.state = Lifecycle::Terminated;
                    Action::Exit
                },
                _ => Action::Ignore,
            },
            Lifecycle::Active(a) => match e {
                Event::Activated { .. } => Action::Ignore,
                Event::Resized { width, height } => {
                    let mut size = a.size;
                    size.resize(width, height);
                    self.state = Lifecycle::Active(ActiveSurface { size, ..a });
                    Action::Reconfigure(size)
                },
                Event::RedrawRequested => Action::Render(a.size),
                Event::FrameSkipped => {
                    let skipped_frames = a.skipped_frames.saturating_add(1);
                    self.state = Lifecycle::Active(ActiveSurface { skipped_frames, ..a });
                    Action::Ignore
                },
                Event::CloseRequested => {
                    self.state = Lifecycle::Terminated;
                    Action::Exit
                },
            },
            Lifecycle::Terminated => Action::Ignore,
        }
    }

    /// Whether the surface exists and may be rendered to.
    pub fn is_active(&self) -> (r: bool)
        ensures
            r == (self.state is Active),
    {
        match self.state {
            Lifecycle::Active(_) => true,
            _ => false,
        }
    }

    /// Whether the host loop has been told to stop.
    pub fn is_terminated(&self) -> (r: bool)
        ensures
            r == (self.state is Terminated),
    {
        match self.state {
            Lifecycle::Terminated => true,
            _ => false,
        }
    }

    /// The configuration currently applied to the surface, if it exists.
    pub fn surface_size(&self) -> (r: Option<SurfaceSize>)
        ensures
            r == (match self.state {
                Lifecycle::Active(a) => Some(a.size),
                _ => None,
            }),
    {
        match self.state {
            Lifecycle::Active(a) => Some(a.size),
            _ => None,
        }
    }

    /// How many frames were skipped since activation.
    pub fn skipped_frames(&self) -> (r: u64)
        ensures
            r == (match self.state {
                Lifecycle::Active(a) => a.skipped_frames,
                _ => 0,
            }),
    {
        match self.state {
            Lifecycle::Active(a) => a.skipped_frames,
            _ => 0,
        }
    }
}

impl Default for Controller {
    /// A controller that has not seen its first activation.
    fn default() -> (r: Controller)
        ensures
            r.state == Lifecycle::Uninitialized,
    {
        Controller::new()
    }
}

/// Whatever the window's size, the configuration that activation or a resize
/// applies is that size with each dimension raised to at least one, and it is
/// the configuration the controller then holds.
pub proof fn lemma_applied_size_is_clamped(c: Controller, width: u32, height: u32)
    requires
        !(c.state is Terminated),
    ensures
        ({
            let e = if c.state is Uninitialized {
                Event::Activated { width, height }
            } else {
                Event::Resized { width, height }
            };
            let (next, action) = step(c, e);
            let applied = SurfaceSize {
                width: vstd::math::max(width as int, 1) as u32,
                height: vstd::math::max(height as int, 1) as u32,
            };
            &&& next.state is Active
            &&& next.state->Active_0.size == applied
            &&& (action == Action::Initialize(applied) || action == Action::Reconfigure(applied))
        }),
{
}

/// Resizing twice to the same dimensions is idempotent: the second resize
/// leaves the controller as the first left it and asks for the same
/// configuration.
pub proof fn lemma_resize_idempotent(c: Controller, width: u32, height: u32)
    requires
        c.state is Active,
    ensures
        ({
            let e = Event::Resized { width, height };
            let (first, first_action) = step(c, e);
            let (second, second_action) = step(first, e);
            second == first && second_action == first_action
        }),
{
}

/// Before the first activation a redraw request does nothing: the controller
/// is unchanged and no resource is touched.
pub proof fn lemma_redraw_before_activation_is_noop(c: Controller)
    requires
        c.state is Uninitialized,
    ensures
        step(c, Event::RedrawRequested) == (c, Action::Ignore),
{
}

/// A frame is rendered only while the surface is active, and always at the
/// configuration last applied to it, which is never degenerate.
pub proof fn lemma_render_only_when_configured(c: Controller, e: Event)
    requires
        c.wf(),
    ensures
        step(c, e).1 is Render ==> {
            &&& c.state is Active
            &&& step(c, e).1->Render_0 == c.state->Active_0.size
            &&& step(c, e).1->Render_0.is_applicable()
        },
{
}

/// Every transition keeps the controller well formed.
pub proof fn lemma_step_preserves_wf(c: Controller, e: Event)
    requires
        c.wf(),
    ensures
        step(c, e).0.wf(),
{
}

} // verus!

//! The lifecycle coordinator's state machine.
//!
//! Platform callbacks are reduced to [`LifecycleEvent`]s; the machine answers
//! each with the [`Action`]s the host must carry out, in order. Frame
//! acquisition is split in two: a [`LifecycleEvent::RedrawRequested`] step
//! emits [`Action::AcquireFrame`], and the host reports what came of the
//! attempt through [`Coordinator::frame_outcome`]. Everything here is plain
//! data, so the machine can be driven both by the real platform glue and by
//! synthetic scenarios.

use vstd::prelude::*;

verus! {

/// Width and height of the presentation surface, in physical pixels.
#[derive(Clone, Copy, PartialEq, Eq, Structural, Debug)]
pub struct SurfaceSize {
    pub width: u32,
    pub height: u32,
}

impl SurfaceSize {
    /// Both dimensions are strictly positive.
    pub open spec fn nonzero(self) -> bool {
        self.width > 0 && self.height > 0
    }

    /// The size can be configured on a device whose texture-dimension limit
    /// is `limit`: nonzero, and within the limit in both dimensions. The
    /// GPU rejects a zero or beyond-limit dimension fatally, so such a size
    /// never reaches it.
    pub open spec fn fits(self, limit: u32) -> bool {
        self.nonzero() && self.width <= limit && self.height <= limit
    }

    pub fn new(width: u32, height: u32) -> (s: SurfaceSize)
        ensures
            s == (SurfaceSize { width, height }),
    {
        SurfaceSize { width, height }
    }
}

/// Where the coordinator stands in its life. `Uninitialized` is the only
/// initial phase and `Terminated` the only terminal one.
#[derive(Clone, Copy, PartialEq, Eq, Structural, Debug)]
pub enum Phase {
    Uninitialized,
    Active,
    Terminated,
}

/// What came of one attempt to acquire a presentable frame.
///
/// `Lost` covers a lost as well as an outdated surface: both demand a
/// reconfiguration with the last known size. `Unknown` stands for any
/// condition the machine cannot classify; it is treated as fatal rather than
/// silently retried.
#[derive(Clone, Copy, PartialEq, Eq, Structural, Debug)]
pub enum FrameStatus {
    Acquired,
    Lost,
    OutOfMemory,
    Timeout,
    Unknown,
}

/// A platform callback, reduced to what the lifecycle machine reads of it.
///
/// `Input` stands for any window event the machine only forwards to the
/// render state; `DeviceInput` for a device-scoped event.
#[derive(Clone, Copy, PartialEq, Eq, Structural, Debug)]
pub enum LifecycleEvent {
    Activated,
    CloseRequested,
    Resized { width: u32, height: u32 },
    RedrawRequested,
    Input,
    DeviceInput,
}

/// One thing the host must do on the machine's behalf.
#[derive(Clone, Copy, PartialEq, Eq, Structural, Debug)]
pub enum Action {
    /// Create the surface/device context (first activation only).
    CreateContext,
    /// Construct the render state from the fresh context.
    CreateState,
    /// Hand the current window event to the render state.
    ForwardEvent,
    /// Hand the current device event to the render state.
    ForwardDeviceEvent,
    /// Reconfigure the surface to the given size.
    Reconfigure { width: u32, height: u32 },
    /// Try to acquire the next presentable frame and report the outcome.
    AcquireFrame,
    /// Have the render state draw into the acquired frame.
    Draw,
    /// Ask the platform for the next redraw, to keep the loop polling.
    RequestRedraw,
    /// Stop the event loop.
    Exit,
}

/// The lifecycle coordinator's abstract state.
///
/// `config` is the configuration the surface currently carries: `None` until
/// the context exists and has been configured with a size that fits.
/// `limit` is the device's texture-dimension limit, learned when the context
/// is created; a resize beyond it is refused like a zero one, since the
/// device would reject the configuration fatally. `acquiring` is set between
/// an emitted [`Action::AcquireFrame`] and the host's
/// [`Coordinator::frame_outcome`] report, and guards against a second
/// acquisition starting while one is in flight.
#[derive(Clone, Copy, Debug)]
pub struct Coordinator {
    pub phase: Phase,
    pub config: Option<SurfaceSize>,
    pub limit: u32,
    pub acquiring: bool,
}

/// The machine's transition on one platform event: the state after, and the
/// actions owed, in order.
///
/// An event that arrives before activation or after termination is ignored.
/// A second activation is a no-op refresh. A resize to a zero or
/// beyond-limit dimension leaves the configuration untouched. A redraw
/// request while an acquisition is already in flight, or while the surface
/// is unconfigured, only forwards the event.
pub open spec fn next(s: Coordinator, e: LifecycleEvent) -> (Coordinator, Seq<Action>) {
    match s.phase {
        Phase::Uninitialized => match e {
            LifecycleEvent::Activated => (
                Coordinator { phase: Phase::Active, config: None, acquiring: false, ..s },
                seq![Action::CreateContext, Action::CreateState],
            ),
            _ => (s, Seq::empty()),
        },
        Phase::Active => match e {
            LifecycleEvent::Activated => (s, Seq::empty()),
            LifecycleEvent::CloseRequested => (
                Coordinator { phase: Phase::Terminated, acquiring: false, ..s },
                seq![Action::ForwardEvent, Action::Exit],
            ),
            LifecycleEvent::Resized { width, height } => if (SurfaceSize {
                width,
                height,
            }).fits(s.limit) {
                (
                    Coordinator { config: Some(SurfaceSize { width, height }), ..s },
                    seq![Action::ForwardEvent, Action::Reconfigure { width, height }],
                )
            } else {
                (s, seq![Action::ForwardEvent])
            },
            LifecycleEvent::RedrawRequested => if !s.acquiring && s.config is Some {
                (
                    Coordinator { acquiring: true, ..s },
                    seq![Action::ForwardEvent, Action::AcquireFrame],
                )
            } else {
                (s, seq![Action::ForwardEvent])
            },
            LifecycleEvent::Input => (s, seq![Action::ForwardEvent]),
            LifecycleEvent::DeviceInput => (s, seq![Action::ForwardDeviceEvent]),
        },
        Phase::Terminated => (s, Seq::empty()),
    }
}

/// The machine's transition on the report of one frame-acquisition attempt.
///
/// Success draws and keeps polling; a lost or outdated surface is
/// reconfigured with the last known size and the frame skipped; a timeout
/// skips the frame with no other change; out-of-memory, and anything
/// unclassifiable, terminates the machine. A report with no acquisition in
/// flight is ignored.
pub open spec fn outcome(s: Coordinator, st: FrameStatus) -> (Coordinator, Seq<Action>) {
    if !s.acquiring {
        (s, Seq::empty())
    } else {
        let done = Coordinator { acquiring: false, ..s };
        match st {
            FrameStatus::Acquired => (done, seq![Action::Draw, Action::RequestRedraw]),
            FrameStatus::Lost => match s.config {
                Some(c) => (
                    done,
                    seq![
                        Action::Reconfigure { width: c.width, height: c.height },
                        Action::RequestRedraw,
                    ],
                ),
                None => (done, seq![Action::RequestRedraw]),
            },
            FrameStatus::Timeout => (done, seq![Action::RequestRedraw]),
            FrameStatus::OutOfMemory => (
                Coordinator { phase: Phase::Terminated, acquiring: false, ..s },
                seq![Action::Exit],
            ),
            FrameStatus::Unknown => (
                Coordinator { phase: Phase::Terminated, acquiring: false, ..s },
                seq![Action::Exit],
            ),
        }
    }
}

impl Coordinator {
    /// The state is internally consistent: a stored configuration fits the
    /// device limit and presupposes activation, and an acquisition can only
    /// be in flight on a configured, active machine.
    pub open spec fn wf(self) -> bool {
        &&& (self.config matches Some(c) ==> c.fits(self.limit) && self.phase
            != Phase::Uninitialized)
        &&& (self.acquiring ==> self.phase == Phase::Active && self.config is Some)
    }

    /// A fresh machine, not yet activated. The device limit is unknown
    /// until context creation, so it starts unbounded.
    pub fn new() -> (c: Coordinator)
        ensures
            c == (Coordinator {
                phase: Phase::Uninitialized,
                config: None,
                limit: u32::MAX,
                acquiring: false,
            }),
            c.wf(),
    {
        Coordinator { phase: Phase::Uninitialized, config: None, limit: u32::MAX, acquiring: false }
    }

    /// Feed one platform event to the machine; returns the actions owed, in
    /// order. Behaves exactly as [`next`] says.
    pub fn step(&mut self, e: LifecycleEvent) -> (acts: Vec<Action>)
        ensures
            *final(self) == next(*old(self), e).0,
            acts@ == next(*old(self), e).1,
            old(self).wf() ==> final(self).wf(),
    {
        match self.phase {
            Phase::Uninitialized => match e {
                LifecycleEvent::Activated => {
                    self.phase = Phase::Active;
                    self.config = None;
                    self.acquiring = false;
                    vec![Action::CreateContext, Action::CreateState]
                },
                _ => vec![],
            },
            Phase::Active => match e {
                LifecycleEvent::Activated => vec![],
                LifecycleEvent::CloseRequested => {
                    self.phase = Phase::Terminated;
                    self.acquiring = false;
                    vec![Action::ForwardEvent, Action::Exit]
                },
                LifecycleEvent::Resized { width, height } => {
                    if width > 0 && height > 0 && width <= self.limit && height <= self.limit {
                        self.config = Some(SurfaceSize { width, height });
                        vec![Action::ForwardEvent, Action::Reconfigure { width, height }]
                    } else {
                        vec![Action::ForwardEvent]
                    }
                },
                LifecycleEvent::RedrawRequested => {
                    if !self.acquiring && self.config.is_some() {
                        self.acquiring = true;
                        vec![Action::ForwardEvent, Action::AcquireFrame]
                    } else {
                        vec![Action::ForwardEvent]
                    }
                },
                LifecycleEvent::Input => vec![Action::ForwardEvent],
                LifecycleEvent::DeviceInput => vec![Action::ForwardDeviceEvent],
            },
            Phase::Terminated => vec![],
        }
    }

    /// Report what came of the acquisition the machine asked for; returns the
    /// actions owed, in order. Behaves exactly as [`outcome`] says.
    pub fn frame_outcome(&mut self, st: FrameStatus) -> (acts: Vec<Action>)
        ensures
            *final(self) == outcome(*old(self), st).0,
            acts@ == outcome(*old(self), st).1,
            old(self).wf() ==> final(self).wf(),
    {
        if !self.acquiring {
            vec![]
        } else {
            self.acquiring = false;
            match st {
                FrameStatus::Acquired => vec![Action::Draw, Action::RequestRedraw],
                FrameStatus::Lost => match self.config {
                    Some(c) => vec![
                        Action::Reconfigure { width: c.width, height: c.height },
                        Action::RequestRedraw,
                    ],
                    None => vec![Action::RequestRedraw],
                },
                FrameStatus::Timeout => vec![Action::RequestRedraw],
                FrameStatus::OutOfMemory => {
                    self.phase = Phase::Terminated;
                    vec![Action::Exit]
                },
                FrameStatus::Unknown => {
                    self.phase = Phase::Terminated;
                    vec![Action::Exit]
                },
            }
        }
    }

    /// Record the outcome of context creation: the configuration the fresh
    /// surface carries (`None` if it could not be configured yet) and the
    /// device's texture-dimension limit.
    pub fn context_created(&mut self, config: Option<SurfaceSize>, limit: u32)
        requires
            old(self).phase == Phase::Active,
            !old(self).acquiring,
            config matches Some(c) ==> c.fits(limit),
        ensures
            *final(self) == (Coordinator { config, limit, ..*old(self) }),
            final(self).wf(),
    {
        self.config = config;
        self.limit = limit;
    }

    /// Terminate the machine at once (fatal failure during activation).
    pub fn abort(&mut self)
        ensures
            *final(self) == (Coordinator {
                phase: Phase::Terminated,
                acquiring: false,
                ..*old(self)
            }),
            old(self).wf() ==> final(self).wf(),
    {
        self.phase = Phase::Terminated;
        self.acquiring = false;
    }
}

/// Resizing is idempotent: a second resize to the same size leaves the
/// machine exactly where the first left it, whatever phase it is in.
pub proof fn lemma_resize_idempotent(s: Coordinator, width: u32, height: u32)
    ensures
        next(
            next(s, LifecycleEvent::Resized { width, height }).0,
            LifecycleEvent::Resized { width, height },
        ).0 == next(s, LifecycleEvent::Resized { width, height }).0,
{
}

/// A resize with a zero dimension never moves the machine: the stored
/// configuration stays exactly as it was.
pub proof fn lemma_zero_resize_noop(s: Coordinator, width: u32, height: u32)
    requires
        width == 0 || height == 0,
    ensures
        next(s, LifecycleEvent::Resized { width, height }).0 == s,
{
}

/// A resize beyond the device's texture-dimension limit never moves the
/// machine either: the device would reject such a configuration fatally,
/// so it is refused like a zero one.
pub proof fn lemma_oversize_resize_noop(s: Coordinator, width: u32, height: u32)
    requires
        width > s.limit || height > s.limit,
    ensures
        next(s, LifecycleEvent::Resized { width, height }).0 == s,
{
}

/// Resize strictly precedes the next draw: after a resize and a redraw
/// request the machine holds the new configuration, and a successful
/// acquisition then draws under exactly that configuration.
pub proof fn lemma_resize_precedes_draw(s: Coordinator, width: u32, height: u32)
    requires
        s.phase == Phase::Active,
        !s.acquiring,
        (SurfaceSize { width, height }).fits(s.limit),
    ensures
        ({
            let s1 = next(s, LifecycleEvent::Resized { width, height }).0;
            let s2 = next(s1, LifecycleEvent::RedrawRequested).0;
            &&& s1.config == Some(SurfaceSize { width, height })
            &&& next(s1, LifecycleEvent::RedrawRequested).1 == seq![
                Action::ForwardEvent,
                Action::AcquireFrame,
            ]
            &&& s2.config == Some(SurfaceSize { width, height })
            &&& outcome(s2, FrameStatus::Acquired).1 == seq![Action::Draw, Action::RequestRedraw]
        }),
{
}

/// Classification of one frame attempt, on an active machine with an
/// acquisition in flight: a lost surface issues exactly one reconfigure,
/// with the previously known size, and no draw; exhausted memory terminates
/// the machine; a timeout issues neither reconfigure nor draw, only the
/// next redraw request.
pub proof fn lemma_failure_classification(s: Coordinator)
    requires
        s.wf(),
        s.acquiring,
    ensures
        s.config matches Some(c) ==> outcome(s, FrameStatus::Lost).1 == seq![
            Action::Reconfigure { width: c.width, height: c.height },
            Action::RequestRedraw,
        ],
        outcome(s, FrameStatus::Lost).0 == (Coordinator { acquiring: false, ..s }),
        outcome(s, FrameStatus::OutOfMemory).0.phase == Phase::Terminated,
        outcome(s, FrameStatus::OutOfMemory).1 == seq![Action::Exit],
        outcome(s, FrameStatus::Timeout).0 == (Coordinator { acquiring: false, ..s }),
        outcome(s, FrameStatus::Timeout).1 == seq![Action::RequestRedraw],
{
}

/// A terminated machine never moves again and owes nothing: in particular,
/// no redraw request ever follows termination.
pub proof fn lemma_terminated_is_final(s: Coordinator, e: LifecycleEvent)
    requires
        s.phase == Phase::Terminated,
    ensures
        next(s, e).0 == s,
        next(s, e).1 == Seq::<Action>::empty(),
{
}

/// Activation happens at most once: the first notification creates the
/// context and then the render state, exactly once each; a second one moves
/// nothing and creates nothing.
pub proof fn lemma_single_activation(s: Coordinator)
    requires
        s.phase == Phase::Uninitialized,
    ensures
        next(s, LifecycleEvent::Activated).1 == seq![Action::CreateContext, Action::CreateState],
        next(next(s, LifecycleEvent::Activated).0, LifecycleEvent::Activated).0 == next(
            s,
            LifecycleEvent::Activated,
        ).0,
        next(next(s, LifecycleEvent::Activated).0, LifecycleEvent::Activated).1 == Seq::<
            Action,
        >::empty(),
{
}

/// While one acquisition is in flight the machine never starts another,
/// whatever event arrives; an input event delivered mid-cycle is still
/// dispatched and completes without moving the machine. With ownership
/// lent out one borrow at a time there is no guard to take twice, so a
/// reentrant dispatch cannot deadlock.
pub proof fn lemma_no_reentrant_acquire(s: Coordinator, e: LifecycleEvent)
    requires
        s.wf(),
        s.acquiring,
    ensures
        !next(s, e).1.contains(Action::AcquireFrame),
        next(s, LifecycleEvent::Input).0 == s,
        next(s, LifecycleEvent::Input).1 == seq![Action::ForwardEvent],
{
    let acts = next(s, e).1;
    assert forall|i: int| 0 <= i < acts.len() implies acts[i] != Action::AcquireFrame by {}
}

/// Reporting a frame outcome never starts an acquisition by itself.
pub proof fn lemma_outcome_no_acquire(s: Coordinator, st: FrameStatus)
    ensures
        !outcome(s, st).1.contains(Action::AcquireFrame),
{
    let acts = outcome(s, st).1;
    assert forall|i: int| 0 <= i < acts.len() implies acts[i] != Action::AcquireFrame by {}
}

} // verus!

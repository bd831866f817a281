//! The lifecycle coordinator and the render-state capability interface.
//!
//! [`App`] owns the surface/device context and the render state, creates
//! both on the first activation, and serializes every callback: each event
//! is forwarded to the render state first, then handled by the machine in
//! [`crate::lifecycle`]. Ownership is strict single-owner-passes-borrow:
//! the context is lent to the render state one mutable borrow at a time,
//! so no guard is ever taken twice within one callback.

use std::sync::Arc;
use vstd::prelude::*;

use crate::display::{AcquireError, CreateError, Display};
use crate::lifecycle;
use crate::lifecycle::{Coordinator, FrameStatus, LifecycleEvent, Phase, SurfaceSize};
use crate::platform;

verus! {

/// The capability interface a host application implements: construct from a
/// context, draw a frame, react to window and device events. All methods
/// are invoked by the coordinator only, never concurrently with each other,
/// and each is handed exclusive mutable access to the context for the
/// call's duration only.
pub trait AppState: Sized {
    /// Build the render state from a fresh context: pipelines, buffers and
    /// whatever else drawing needs. The context is lent for the call only
    /// and must be handed back exactly as it was: its configuration, its
    /// negotiated parameters and its handles all stay.
    fn new(display: &mut Display) -> (s: Self)
        ensures
            *final(display) == *old(display),
    ;

    /// Create the surface/device context the coordinator will own. The
    /// default builds it straight from the window.
    fn create_display(window: Arc<winit::window::Window>) -> (r: Result<Display, CreateError>)
        ensures
            r matches Ok(d) ==> d.wf() && d.spec_window() == window,
    {
        Display::from_window(window)
    }

    /// Record and submit one frame's commands against the given view; the
    /// coordinator presents the frame afterwards. Must hand the context
    /// back exactly as it was.
    fn draw(&mut self, display: &mut Display, view: &wgpu::TextureView)
        ensures
            *final(display) == *old(display),
    ;

    /// React to a window event, before the coordinator's own handling of
    /// it. Must hand the context back exactly as it was.
    fn event(&mut self, display: &mut Display, event: &winit::event::WindowEvent)
        ensures
            *final(display) == *old(display),
    {
    }

    /// React to a device-scoped event, such as raw pointer deltas. Same
    /// contract as [`AppState::event`].
    fn device_event(&mut self, display: &mut Display, event: &winit::event::DeviceEvent)
        ensures
            *final(display) == *old(display),
    {
    }
}

/// The lifecycle coordinator: owns the optional context and render state
/// (present together, from first activation on) and the machine that
/// decides every transition.
pub struct App<State: AppState> {
    pub display: Option<Display>,
    pub state: Option<State>,
    pub core: Coordinator,
    pub initial_size: SurfaceSize,
}

impl<State: AppState> App<State> {
    /// The coordinator's invariant between callbacks: the machine is well
    /// formed with no acquisition in flight, context and render state exist
    /// together exactly from activation on, and the machine's configuration
    /// and device limit are the surface's.
    pub open spec fn wf(self) -> bool {
        &&& self.core.wf()
        &&& !self.core.acquiring
        &&& (self.display is Some <==> self.state is Some)
        &&& (self.core.phase == Phase::Active ==> self.display is Some)
        &&& (self.core.phase == Phase::Uninitialized ==> self.display is None)
        &&& (self.display matches Some(d) ==> d.wf() && d.spec_config() == self.core.config
            && d.spec_max_dimension() == self.core.limit)
    }

    /// A coordinator that will open its window at the given size, not yet
    /// activated.
    pub fn from_window_size(width: u32, height: u32) -> (app: App<State>)
        ensures
            app.wf(),
            app.core.phase == Phase::Uninitialized,
            app.display is None && app.state is None,
            app.initial_size == (SurfaceSize { width, height }),
    {
        App {
            display: None,
            state: None,
            core: Coordinator::new(),
            initial_size: SurfaceSize::new(width, height),
        }
    }

    /// The platform's activated/resumed notification. The first one creates
    /// the surface/device context and then the render state from it, in
    /// that order and exactly once; every further one is a no-op refresh.
    /// A creation failure is fatal: the machine terminates, the event loop
    /// is told to exit, and the error comes back.
    pub fn resumed(&mut self, event_loop: &winit::event_loop::ActiveEventLoop) -> (r: Result<
        (),
        CreateError,
    >)
        ensures
            old(self).wf() ==> final(self).wf(),
            old(self).core.phase != Phase::Uninitialized ==> *final(self) == *old(self)
                && (r matches Ok(())),
            old(self).wf() && old(self).core.phase == Phase::Uninitialized ==> match r {
                Ok(()) => final(self).core.phase == Phase::Active
                    && final(self).display is Some && final(self).state is Some,
                Err(_) => final(self).core.phase == Phase::Terminated
                    && final(self).display is None,
            },
    {
        match self.core.phase {
            Phase::Uninitialized => {},
            _ => { return Ok(()); },
        }
        let _acts = self.core.step(LifecycleEvent::Activated);
        let window = match platform::create_window_from_size(
            event_loop,
            self.initial_size.width,
            self.initial_size.height,
        ) {
            Ok(w) => w,
            Err(_) => {
                self.core.abort();
                platform::exit_event_loop(event_loop);
                return Err(CreateError::Window);
            },
        };
        let mut display = match State::create_display(window) {
            Ok(d) => d,
            Err(e) => {
                self.core.abort();
                platform::exit_event_loop(event_loop);
                return Err(e);
            },
        };
        self.core.context_created(display.config(), display.max_dimension());
        let state = State::new(&mut display);
        self.display = Some(display);
        self.state = Some(state);
        Ok(())
    }

    /// One window callback: the event is classified, forwarded to the
    /// render state first, then handled as [`handle_event`] says. Which
    /// lifecycle event the outside event classifies to cannot be promised
    /// here, but whatever it was, the machine moved by exactly one
    /// [`lifecycle::next`] transition on it — with, for a redraw, one
    /// [`lifecycle::outcome`] transition on the acquisition's report.
    ///
    /// [`handle_event`]: App::handle_event
    pub fn window_event(
        &mut self,
        event_loop: &winit::event_loop::ActiveEventLoop,
        event: &winit::event::WindowEvent,
    )
        ensures
            old(self).wf() ==> final(self).wf(),
            old(self).core.phase != Phase::Active ==> final(self).core == old(self).core,
            old(self).wf() ==> exists|kind: LifecycleEvent|
                kind != LifecycleEvent::Activated && kind != LifecycleEvent::DeviceInput && (kind
                    != LifecycleEvent::RedrawRequested ==> final(self).core == lifecycle::next(
                    old(self).core,
                    kind,
                ).0) && (kind == LifecycleEvent::RedrawRequested ==> exists|st: FrameStatus|
                    final(self).core == lifecycle::outcome(
                        lifecycle::next(old(self).core, kind).0,
                        st,
                    ).0),
    {
        let kind = platform::classify_window_event(event);
        self.handle_event(event_loop, kind, event);
        proof {
            if old(self).wf() {
                assert(kind != LifecycleEvent::RedrawRequested ==> self.core == lifecycle::next(
                    old(self).core,
                    kind,
                ).0);
                assert(kind == LifecycleEvent::RedrawRequested ==> exists|st: FrameStatus|
                    self.core == lifecycle::outcome(
                        lifecycle::next(old(self).core, kind).0,
                        st,
                    ).0);
            }
        }
    }

    /// Handle one classified window event. Outside the active phase the
    /// event is ignored. Otherwise it is forwarded to the render state
    /// first; then the machine moves exactly as [`lifecycle::next`] says,
    /// and its actions are carried out in order: close exits the loop, a
    /// resize reconfigures the surface, a redraw acquires a frame and feeds
    /// what came of it straight back through [`lifecycle::outcome`] — draw
    /// and present on success, reconfigure with the last known size on a
    /// lost surface, terminate on exhausted memory, skip the frame on a
    /// timeout — and keeps the loop polling with one more redraw request.
    pub fn handle_event(
        &mut self,
        event_loop: &winit::event_loop::ActiveEventLoop,
        kind: LifecycleEvent,
        event: &winit::event::WindowEvent,
    )
        requires
            kind != LifecycleEvent::Activated,
            kind != LifecycleEvent::DeviceInput,
        ensures
            old(self).wf() ==> final(self).wf(),
            old(self).core.phase != Phase::Active ==> final(self).core == old(self).core,
            old(self).wf() && kind != LifecycleEvent::RedrawRequested ==> final(self).core
                == lifecycle::next(old(self).core, kind).0,
            old(self).wf() && kind == LifecycleEvent::RedrawRequested ==> exists|st: FrameStatus|
                final(self).core == lifecycle::outcome(
                    lifecycle::next(old(self).core, kind).0,
                    st,
                ).0,
    {
        match self.core.phase {
            Phase::Active => {},
            _ => {
                proof {
                    if old(self).wf() && kind == LifecycleEvent::RedrawRequested {
                        assert(self.core == lifecycle::outcome(
                            lifecycle::next(old(self).core, kind).0,
                            FrameStatus::Acquired,
                        ).0);
                    }
                }
                return;
            },
        }
        let _acts = self.core.step(kind);
        match (&mut self.display, &mut self.state) {
            (Some(d), Some(s)) => {
                s.event(d, event);
                match kind {
                    LifecycleEvent::CloseRequested => {
                        platform::exit_event_loop(event_loop);
                    },
                    LifecycleEvent::Resized { width, height } => {
                        d.resize(width, height);
                    },
                    LifecycleEvent::RedrawRequested => {
                        match d.acquire() {
                            Ok(frame) => {
                                let _a = self.core.frame_outcome(FrameStatus::Acquired);
                                s.draw(d, &frame.view);
                                platform::present_frame(frame.texture);
                                platform::request_redraw(d.window());
                            },
                            Err(AcquireError::Lost) => {
                                let _a = self.core.frame_outcome(FrameStatus::Lost);
                                let c = d.config();
                                match c {
                                    Some(sz) => { d.resize(sz.width, sz.height); },
                                    None => {},
                                }
                                platform::request_redraw(d.window());
                            },
                            Err(AcquireError::OutOfMemory) => {
                                let _a = self.core.frame_outcome(FrameStatus::OutOfMemory);
                                platform::exit_event_loop(event_loop);
                            },
                            Err(AcquireError::Timeout) => {
                                let _a = self.core.frame_outcome(FrameStatus::Timeout);
                                platform::request_redraw(d.window());
                            },
                            Err(AcquireError::NotConfigured) => {
                                proof {
                                    if old(self).wf() {
                                        assert(self.core == lifecycle::outcome(
                                            lifecycle::next(old(self).core, kind).0,
                                            FrameStatus::Acquired,
                                        ).0);
                                    }
                                }
                            },
                        }
                    },
                    _ => {},
                }
            },
            _ => {},
        }
    }

    /// One device-scoped callback: forwarded to the render state, nothing
    /// else; the machine does not move. Ignored outside the active phase.
    pub fn device_event(&mut self, event: &winit::event::DeviceEvent)
        ensures
            old(self).wf() ==> final(self).wf(),
            final(self).core == old(self).core,
    {
        match self.core.phase {
            Phase::Active => {},
            _ => { return; },
        }
        match (&mut self.display, &mut self.state) {
            (Some(d), Some(s)) => {
                s.device_event(d, event);
            },
            _ => {},
        }
    }
}

} // verus!

//! The trusted boundary to the GPU API (wgpu) and the windowing platform
//! (winit).
//!
//! Nothing in this module is proved: the type declarations make the outside
//! types known, and each wrapper's contract is believed on the strength of
//! the outside function its doc comment names. Every wrapper body holds one
//! such call and the conversions around it, nothing more.

use std::sync::Arc;
use vstd::prelude::*;

use crate::display::{Display, FRAME_LATENCY};
use crate::lifecycle::LifecycleEvent;

verus! {

#[verifier::external_type_specification]
#[verifier::external_body]
pub struct ExWindow(winit::window::Window);

#[verifier::external_type_specification]
#[verifier::external_body]
pub struct ExActiveEventLoop(winit::event_loop::ActiveEventLoop);

#[verifier::external_type_specification]
#[verifier::external_body]
pub struct ExWindowEvent(winit::event::WindowEvent);

#[verifier::external_type_specification]
#[verifier::external_body]
pub struct ExDeviceEvent(winit::event::DeviceEvent);

#[verifier::external_type_specification]
#[verifier::external_body]
pub struct ExOsError(winit::error::OsError);

#[verifier::external_type_specification]
#[verifier::external_body]
pub struct ExInstance(wgpu::Instance);

#[verifier::external_type_specification]
#[verifier::external_body]
pub struct ExAdapter(wgpu::Adapter);

#[verifier::external_type_specification]
#[verifier::external_body]
pub struct ExDevice(wgpu::Device);

#[verifier::external_type_specification]
#[verifier::external_body]
pub struct ExQueue(wgpu::Queue);

#[verifier::external_type_specification]
#[verifier::external_body]
pub struct ExSurface<'a>(wgpu::Surface<'a>);

#[verifier::external_type_specification]
#[verifier::external_body]
pub struct ExCreateSurfaceError(wgpu::CreateSurfaceError);

#[verifier::external_type_specification]
#[verifier::external_body]
pub struct ExRequestDeviceError(wgpu::RequestDeviceError);

#[verifier::external_type_specification]
#[verifier::external_body]
pub struct ExTextureFormat(wgpu::TextureFormat);

#[verifier::external_type_specification]
#[verifier::external_body]
pub struct ExPresentMode(wgpu::PresentMode);

#[verifier::external_type_specification]
#[verifier::external_body]
pub struct ExCompositeAlphaMode(wgpu::CompositeAlphaMode);

#[verifier::external_type_specification]
#[verifier::external_body]
pub struct ExSurfaceTexture(wgpu::SurfaceTexture);

#[verifier::external_type_specification]
#[verifier::external_body]
pub struct ExTextureView(wgpu::TextureView);

/// What the surface reported it supports, reduced to what the library reads:
/// the supported formats with a parallel flag telling, for each, whether it
/// is an sRGB format, and the supported present and alpha modes. Each list
/// keeps the adapter's preference order.
pub struct SurfaceProbe {
    pub formats: Vec<wgpu::TextureFormat>,
    pub srgb: Vec<bool>,
    pub present_modes: Vec<wgpu::PresentMode>,
    pub alpha_modes: Vec<wgpu::CompositeAlphaMode>,
}

/// The distinct failures one frame-acquisition attempt can meet.
/// `NotConfigured` is the library's own guard: the surface has no
/// configuration yet, so no acquisition was attempted.
#[derive(Clone, Copy, PartialEq, Eq, Structural, Debug)]
pub enum AcquireError {
    NotConfigured,
    Lost,
    OutOfMemory,
    Timeout,
}

/// Relies on wgpu::Instance::new: creates a GPU instance over the primary
/// native back-ends.
#[verifier::external_body]
pub(crate) fn create_instance() -> wgpu::Instance {
    wgpu::Instance::new(wgpu::InstanceDescriptor {
        backends: wgpu::Backends::PRIMARY,
        ..Default::default()
    })
}

/// Relies on wgpu::Instance::create_surface: builds a presentation surface
/// that borrows the given window, kept alive by the cloned `Arc`.
#[verifier::external_body]
pub(crate) fn create_surface(
    instance: &wgpu::Instance,
    window: &Arc<winit::window::Window>,
) -> Result<wgpu::Surface<'static>, wgpu::CreateSurfaceError> {
    instance.create_surface(Arc::clone(window))
}

/// Relies on wgpu::Instance::request_adapter, driven to completion by
/// pollster::block_on: asks for a high-performance adapter compatible with
/// the surface; `None` when no adapter fits.
#[verifier::external_body]
pub(crate) fn request_adapter(
    instance: &wgpu::Instance,
    surface: &wgpu::Surface<'static>,
) -> Option<wgpu::Adapter> {
    pollster::block_on(instance.request_adapter(&wgpu::RequestAdapterOptions {
        power_preference: wgpu::PowerPreference::HighPerformance,
        compatible_surface: Some(surface),
        force_fallback_adapter: false,
    }))
}

/// Relies on wgpu::Adapter::request_device, driven to completion by
/// pollster::block_on: requests a device and its queue with no extra
/// features and default limits.
#[verifier::external_body]
pub(crate) fn request_device(
    adapter: &wgpu::Adapter,
) -> Result<(wgpu::Device, wgpu::Queue), wgpu::RequestDeviceError> {
    pollster::block_on(adapter.request_device(
        &wgpu::DeviceDescriptor {
            label: None,
            required_features: wgpu::Features::empty(),
            required_limits: wgpu::Limits::default(),
            memory_hints: wgpu::MemoryHints::default(),
        },
        None,
    ))
}

/// Relies on wgpu::Surface::get_capabilities and
/// wgpu::TextureFormat::is_srgb: flag `i` tells whether format `i` is an
/// sRGB format. Empty format or present-mode lists mean the surface is
/// incompatible with the adapter; the alpha-mode list is documented to hold
/// at least one element for a compatible one.
#[verifier::external_body]
pub(crate) fn probe_surface(
    surface: &wgpu::Surface<'static>,
    adapter: &wgpu::Adapter,
) -> (p: SurfaceProbe)
    ensures
        p.srgb@.len() == p.formats@.len(),
{
    let caps = surface.get_capabilities(adapter);
    let srgb = caps.formats.iter().map(|f| f.is_srgb()).collect();
    SurfaceProbe {
        formats: caps.formats,
        srgb,
        present_modes: caps.present_modes,
        alpha_modes: caps.alpha_modes,
    }
}

/// Relies on wgpu::Device::limits: the device's two-dimensional texture
/// limit, which wgpu validates every surface configuration against. The
/// value is fixed for the device's lifetime.
#[verifier::external_body]
pub(crate) fn device_max_texture_dimension(device: &wgpu::Device) -> u32 {
    device.limits().max_texture_dimension_2d
}

/// Relies on wgpu::Surface::configure: (re)configures the context's surface
/// against its device, with render-attachment usage, the negotiated format,
/// present and alpha mode, no extra view formats, and the fixed frame
/// latency. The required bounds — a configured size that is nonzero and
/// within the device's texture-dimension limit — are exactly what wgpu's
/// validation rejects fatally; the format and modes come from the surface's
/// own reported capabilities, and no acquired frame of this surface is
/// alive at any call (the coordinator presents each frame before any
/// reconfigure).
#[verifier::external_body]
pub(crate) fn configure_surface(display: &Display)
    requires
        display.spec_config() matches Some(c) && c.fits(display.spec_max_dimension()),
{
    let c = display.config.unwrap();
    display.surface.configure(&display.device, &wgpu::SurfaceConfiguration {
        usage: wgpu::TextureUsages::RENDER_ATTACHMENT,
        format: display.format,
        width: c.width,
        height: c.height,
        present_mode: display.present_mode,
        alpha_mode: display.alpha_mode,
        desired_maximum_frame_latency: FRAME_LATENCY,
        view_formats: Vec::new(),
    });
}

/// Relies on wgpu::Surface::get_current_texture, telling its error
/// conditions apart: a lost or an outdated surface both come back as
/// `Lost`, exhausted memory as `OutOfMemory`, a timeout as `Timeout`. The
/// call demands a configured surface — which the required context
/// configuration guarantees, since `Display` couples the two — and panics
/// without one.
#[verifier::external_body]
pub(crate) fn acquire_texture(display: &Display) -> (r: Result<
    wgpu::SurfaceTexture,
    AcquireError,
>)
    requires
        display.spec_config() is Some,
    ensures
        r matches Err(e) ==> e != AcquireError::NotConfigured,
{
    match display.surface.get_current_texture() {
        Ok(t) => Ok(t),
        Err(wgpu::SurfaceError::Lost) => Err(AcquireError::Lost),
        Err(wgpu::SurfaceError::Outdated) => Err(AcquireError::Lost),
        Err(wgpu::SurfaceError::OutOfMemory) => Err(AcquireError::OutOfMemory),
        Err(wgpu::SurfaceError::Timeout) => Err(AcquireError::Timeout),
    }
}

/// Relies on wgpu::Texture::create_view with default settings, on the
/// texture of an acquired frame.
#[verifier::external_body]
pub(crate) fn create_frame_view(texture: &wgpu::SurfaceTexture) -> wgpu::TextureView {
    texture.texture.create_view(&wgpu::TextureViewDescriptor::default())
}

/// Relies on wgpu::SurfaceTexture::present: schedules the drawn frame for
/// display.
#[verifier::external_body]
pub(crate) fn present_frame(texture: wgpu::SurfaceTexture) {
    texture.present();
}

/// Relies on winit's ActiveEventLoop::create_window: opens a native window,
/// asking the platform for the given inner size in physical pixels.
#[verifier::external_body]
pub(crate) fn create_window_from_size(
    event_loop: &winit::event_loop::ActiveEventLoop,
    width: u32,
    height: u32,
) -> Result<Arc<winit::window::Window>, winit::error::OsError> {
    let attrs = winit::window::WindowAttributes::default()
        .with_inner_size(winit::dpi::PhysicalSize::new(width, height));
    event_loop.create_window(attrs).map(Arc::new)
}

/// Relies on winit's Window::inner_size: the window's inner size in physical
/// pixels right now; a dimension can be zero, e.g. while minimized.
#[verifier::external_body]
pub(crate) fn window_inner_size(window: &Arc<winit::window::Window>) -> (u32, u32) {
    let s = window.inner_size();
    (s.width, s.height)
}

/// Relies on winit's Window::request_redraw: asks the platform to schedule
/// one more redraw of this window.
#[verifier::external_body]
pub(crate) fn request_redraw(window: &Arc<winit::window::Window>) {
    window.request_redraw();
}

/// Relies on winit's ActiveEventLoop::exit: makes the event loop stop
/// delivering events and return.
#[verifier::external_body]
pub(crate) fn exit_event_loop(event_loop: &winit::event_loop::ActiveEventLoop) {
    event_loop.exit();
}

/// Relies on telling winit's WindowEvent variants apart: close, resize
/// (carrying the new physical size) and redraw map to their lifecycle
/// events; every other window event is input to forward. Activation and
/// device input are separate callbacks, so neither ever comes back here.
#[verifier::external_body]
pub(crate) fn classify_window_event(event: &winit::event::WindowEvent) -> (r: LifecycleEvent)
    ensures
        r != LifecycleEvent::Activated,
        r != LifecycleEvent::DeviceInput,
{
    match event {
        winit::event::WindowEvent::CloseRequested => LifecycleEvent::CloseRequested,
        winit::event::WindowEvent::Resized(size) => LifecycleEvent::Resized {
            width: size.width,
            height: size.height,
        },
        winit::event::WindowEvent::RedrawRequested => LifecycleEvent::RedrawRequested,
        _ => LifecycleEvent::Input,
    }
}

} // verus!

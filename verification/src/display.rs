//! The surface/device context: the GPU device, its queue, the presentation
//! surface and the window it draws to, together with the surface's current
//! configuration.
//!
//! The configuration model is plain data: [`Display::spec_config`] is the
//! size the surface is configured with, `None` while it is not configured at
//! all. A configured surface never has a zero dimension, nor one beyond the
//! device's texture-dimension limit; a resize to such a size is a no-op that
//! leaves the prior configuration intact. The fields are crate-private, so
//! the coupling between the stored configuration and the state the GPU
//! surface actually carries is maintained by the methods here and cannot be
//! broken from outside.

use std::sync::Arc;
use vstd::prelude::*;

use crate::lifecycle::SurfaceSize;
use crate::platform;
use crate::platform::SurfaceProbe;
pub use crate::platform::AcquireError;

verus! {

/// Why the surface/device context could not be created. Any of these is
/// fatal to the run: there is nothing to retry.
#[derive(Clone, Copy, PartialEq, Eq, Structural, Debug)]
pub enum CreateError {
    /// The platform would not give a window.
    Window,
    /// The instance could not build a presentation surface on the window.
    Surface,
    /// No compatible GPU adapter is available.
    NoAdapter,
    /// The adapter would not give a device and queue.
    NoDevice,
    /// The surface is incompatible with the adapter: it reports no format,
    /// no present mode or no alpha mode.
    NoSurfaceSupport,
}

/// One acquired, presentable frame: the surface texture and a view of it to
/// attach draw commands to.
pub struct Frame {
    pub texture: wgpu::SurfaceTexture,
    pub view: wgpu::TextureView,
}

/// The surface/device context. Owns the window (shared with the surface
/// that borrows it), the device, the queue, and the negotiated presentation
/// parameters.
pub struct Display {
    pub(crate) window: Arc<winit::window::Window>,
    pub(crate) surface: wgpu::Surface<'static>,
    pub(crate) device: wgpu::Device,
    pub(crate) queue: wgpu::Queue,
    pub(crate) format: wgpu::TextureFormat,
    pub(crate) present_mode: wgpu::PresentMode,
    pub(crate) alpha_mode: wgpu::CompositeAlphaMode,
    pub(crate) max_dimension: u32,
    pub(crate) size: SurfaceSize,
    pub(crate) config: Option<SurfaceSize>,
    pub(crate) probe: Ghost<SurfaceProbe>,
}

/// How many frames the presentation engine may queue in advance.
pub const FRAME_LATENCY: u32 = 2;

/// `i` is the index of the format to use, given the per-format sRGB flags:
/// the first flagged one, else the first of all.
pub open spec fn is_first_srgb_choice(srgb: Seq<bool>, i: int) -> bool {
    &&& 0 <= i < srgb.len()
    &&& (exists|j: int| 0 <= j < srgb.len() && srgb[j]) ==> srgb[i] && (forall|j: int|
        0 <= j < i ==> !srgb[j])
    &&& !(exists|j: int| 0 <= j < srgb.len() && srgb[j]) ==> i == 0
}

/// The context `d` turns into when resized to `width` by `height`: with a
/// zero or beyond-limit dimension nothing changes; otherwise the stored
/// size and the configuration both take the new dimensions and everything
/// else stays.
pub closed spec fn resized(d: Display, width: u32, height: u32) -> Display {
    if (SurfaceSize { width, height }).fits(d.max_dimension) {
        Display {
            size: SurfaceSize { width, height },
            config: Some(SurfaceSize { width, height }),
            ..d
        }
    } else {
        d
    }
}

impl Display {
    /// The window the context draws to.
    pub closed spec fn spec_window(self) -> Arc<winit::window::Window> {
        self.window
    }

    /// The presentation surface.
    pub closed spec fn spec_surface(self) -> wgpu::Surface<'static> {
        self.surface
    }

    /// The GPU device.
    pub closed spec fn spec_device(self) -> wgpu::Device {
        self.device
    }

    /// The command-submission queue.
    pub closed spec fn spec_queue(self) -> wgpu::Queue {
        self.queue
    }

    /// The negotiated texture format.
    pub closed spec fn spec_format(self) -> wgpu::TextureFormat {
        self.format
    }

    /// The negotiated present mode.
    pub closed spec fn spec_present_mode(self) -> wgpu::PresentMode {
        self.present_mode
    }

    /// The negotiated alpha mode.
    pub closed spec fn spec_alpha_mode(self) -> wgpu::CompositeAlphaMode {
        self.alpha_mode
    }

    /// The device's texture-dimension limit, read at creation; the device
    /// rejects a surface configuration beyond it.
    pub closed spec fn spec_max_dimension(self) -> u32 {
        self.max_dimension
    }

    /// The last window size the context accepted.
    pub closed spec fn spec_size(self) -> SurfaceSize {
        self.size
    }

    /// The size the surface is configured with; `None` while unconfigured.
    pub closed spec fn spec_config(self) -> Option<SurfaceSize> {
        self.config
    }

    /// What the surface reported it supports, as probed at creation.
    pub closed spec fn spec_probe(self) -> SurfaceProbe {
        self.probe@
    }

    /// A configured surface always fits the device limit, and the stored
    /// size agrees with the configuration.
    pub open spec fn wf(self) -> bool {
        self.spec_config() matches Some(c) ==> c.fits(self.spec_max_dimension())
            && self.spec_size() == c
    }

    /// Create the context on a window: select an adapter and device, read
    /// the device's texture-dimension limit and what the surface supports,
    /// negotiate format, present mode and alpha mode (see [`negotiate`]),
    /// and configure the surface with the window's current inner size. An
    /// inner size with a zero or beyond-limit dimension leaves the surface
    /// unconfigured until the first acceptable resize.
    pub fn from_window(window: Arc<winit::window::Window>) -> (r: Result<Display, CreateError>)
        ensures
            r matches Ok(d) ==> d.wf() && d.spec_window() == window,
            r matches Ok(d) ==> (d.spec_config() is Some <==> d.spec_size().fits(
                d.spec_max_dimension(),
            )),
            r matches Ok(d) ==> (d.spec_config() matches Some(c) ==> c == d.spec_size()),
            r matches Ok(d) ==> ({
                let p = d.spec_probe();
                &&& p.srgb@.len() == p.formats@.len()
                &&& p.formats@.len() > 0 && p.present_modes@.len() > 0 && p.alpha_modes@.len() > 0
                &&& exists|i: int|
                    is_first_srgb_choice(p.srgb@, i) && d.spec_format() == p.formats@[i]
                &&& d.spec_present_mode() == p.present_modes@[0]
                &&& d.spec_alpha_mode() == p.alpha_modes@[0]
            }),
    {
        let instance = platform::create_instance();
        let surface = match platform::create_surface(&instance, &window) {
            Ok(s) => s,
            Err(_) => { return Err(CreateError::Surface); },
        };
        let adapter = match platform::request_adapter(&instance, &surface) {
            Some(a) => a,
            None => { return Err(CreateError::NoAdapter); },
        };
        let (device, queue) = match platform::request_device(&adapter) {
            Ok(dq) => dq,
            Err(_) => { return Err(CreateError::NoDevice); },
        };
        let max_dimension = platform::device_max_texture_dimension(&device);
        let probe = platform::probe_surface(&surface, &adapter);
        let (format_index, present_index, alpha_index) = match negotiate(&probe) {
            Ok(ix) => ix,
            Err(e) => { return Err(e); },
        };
        let format = probe.formats[format_index];
        let present_mode = probe.present_modes[present_index];
        let alpha_mode = probe.alpha_modes[alpha_index];
        let (width, height) = platform::window_inner_size(&window);
        let mut d = Display {
            window,
            surface,
            device,
            queue,
            format,
            present_mode,
            alpha_mode,
            max_dimension,
            size: SurfaceSize { width, height },
            config: None,
            probe: Ghost(probe),
        };
        d.resize(width, height);
        proof {
            assert(is_first_srgb_choice(d.spec_probe().srgb@, format_index as int)
                && d.spec_format() == d.spec_probe().formats@[format_index as int]);
        }
        Ok(d)
    }

    /// Resize the context. With a zero or beyond-limit dimension this is a
    /// no-op that keeps the prior configuration; otherwise the stored size
    /// and configuration take the new dimensions and the surface is
    /// reconfigured against the device. Reconfiguring twice with the same
    /// size is harmless.
    pub fn resize(&mut self, width: u32, height: u32)
        ensures
            *final(self) == resized(*old(self), width, height),
            (SurfaceSize { width, height }).fits(old(self).spec_max_dimension())
                ==> final(self).spec_config() == Some(SurfaceSize { width, height })
                && final(self).spec_size() == (SurfaceSize { width, height }),
            !(SurfaceSize { width, height }).fits(old(self).spec_max_dimension())
                ==> *final(self) == *old(self),
            final(self).spec_max_dimension() == old(self).spec_max_dimension(),
            old(self).wf() ==> final(self).wf(),
    {
        if width > 0 && height > 0 && width <= self.max_dimension && height <= self.max_dimension {
            self.size = SurfaceSize { width, height };
            self.config = Some(SurfaceSize { width, height });
            platform::configure_surface(&*self);
        }
    }

    /// Try to acquire the next presentable frame. On an unconfigured
    /// surface no acquisition is attempted and `NotConfigured` comes back;
    /// that error comes back in no other case. Any other failure is one of
    /// the classified acquisition failures, to be handled by the caller.
    pub fn acquire(&self) -> (r: Result<Frame, AcquireError>)
        ensures
            (r matches Err(e) && e == AcquireError::NotConfigured) <==> self.spec_config() is None,
    {
        match self.config {
            None => Err(AcquireError::NotConfigured),
            Some(_) => match platform::acquire_texture(self) {
                Ok(texture) => {
                    let view = platform::create_frame_view(&texture);
                    Ok(Frame { texture, view })
                },
                Err(e) => Err(e),
            },
        }
    }

    /// A borrow of the window.
    pub fn window(&self) -> (w: &Arc<winit::window::Window>)
        ensures
            w == self.spec_window(),
    {
        &self.window
    }

    /// A borrow of the presentation surface.
    pub fn surface(&self) -> (s: &wgpu::Surface<'static>)
        ensures
            s == self.spec_surface(),
    {
        &self.surface
    }

    /// A borrow of the GPU device.
    pub fn device(&self) -> (d: &wgpu::Device)
        ensures
            d == self.spec_device(),
    {
        &self.device
    }

    /// A borrow of the command-submission queue.
    pub fn queue(&self) -> (q: &wgpu::Queue)
        ensures
            q == self.spec_queue(),
    {
        &self.queue
    }

    /// The negotiated texture format.
    pub fn format(&self) -> (f: wgpu::TextureFormat)
        ensures
            f == self.spec_format(),
    {
        self.format
    }

    /// The negotiated present mode.
    pub fn present_mode(&self) -> (p: wgpu::PresentMode)
        ensures
            p == self.spec_present_mode(),
    {
        self.present_mode
    }

    /// The negotiated alpha mode.
    pub fn alpha_mode(&self) -> (a: wgpu::CompositeAlphaMode)
        ensures
            a == self.spec_alpha_mode(),
    {
        self.alpha_mode
    }

    /// The device's texture-dimension limit.
    pub fn max_dimension(&self) -> (m: u32)
        ensures
            m == self.spec_max_dimension(),
    {
        self.max_dimension
    }

    /// The last window size the context accepted.
    pub fn size(&self) -> (s: SurfaceSize)
        ensures
            s == self.spec_size(),
    {
        self.size
    }

    /// The size the surface is configured with; `None` while unconfigured.
    pub fn config(&self) -> (c: Option<SurfaceSize>)
        ensures
            c == self.spec_config(),
    {
        self.config
    }
}

/// Pick the presentation parameters from what the surface reported: the
/// first sRGB-capable format (else the first of all), the first supported
/// present mode and the first supported alpha mode — as indices into the
/// probe's lists. Fails with `NoSurfaceSupport` exactly when one of the
/// lists is empty.
pub fn negotiate(probe: &SurfaceProbe) -> (r: Result<(usize, usize, usize), CreateError>)
    requires
        probe.srgb@.len() == probe.formats@.len(),
    ensures
        (probe.formats@.len() == 0 || probe.present_modes@.len() == 0 || probe.alpha_modes@.len()
            == 0) <==> r is Err,
        r matches Err(e) ==> e == CreateError::NoSurfaceSupport,
        r matches Ok(ix) ==> is_first_srgb_choice(probe.srgb@, ix.0 as int) && ix.0
            < probe.formats@.len() && ix.1 == 0 && ix.2 == 0,
{
    if probe.formats.len() == 0 || probe.present_modes.len() == 0
        || probe.alpha_modes.len() == 0 {
        return Err(CreateError::NoSurfaceSupport);
    }
    let i = pick_format_index(&probe.srgb);
    Ok((i, 0, 0))
}

/// The index of the format to use, given the per-format sRGB flags: the
/// first flagged one, else the first of all.
pub fn pick_format_index(srgb: &Vec<bool>) -> (i: usize)
    requires
        srgb@.len() > 0,
    ensures
        is_first_srgb_choice(srgb@, i as int),
{
    let mut k: usize = 0;
    while k < srgb.len()
        invariant
            k <= srgb@.len(),
            forall|j: int| 0 <= j < k ==> !srgb@[j],
        decreases srgb@.len() - k,
    {
        if srgb[k] {
            return k;
        }
        k = k + 1;
    }
    0
}

/// Resizing is idempotent: a second resize to the same size leaves the
/// context exactly as the first left it.
pub proof fn lemma_resize_idempotent(d: Display, width: u32, height: u32)
    ensures
        resized(resized(d, width, height), width, height) == resized(d, width, height),
{
}

/// A resize with a zero dimension never mutates the context: neither the
/// stored size nor the configuration.
pub proof fn lemma_zero_resize_noop(d: Display, width: u32, height: u32)
    requires
        width == 0 || height == 0,
    ensures
        resized(d, width, height) == d,
{
}

/// A resize beyond the device's texture-dimension limit never mutates the
/// context either: the device would reject the configuration fatally, so
/// it is refused like a zero one.
pub proof fn lemma_oversize_resize_noop(d: Display, width: u32, height: u32)
    requires
        width > d.spec_max_dimension() || height > d.spec_max_dimension(),
    ensures
        resized(d, width, height) == d,
{
}

/// A resize establishes and preserves the context's well-formedness.
pub proof fn lemma_resize_wf(d: Display, width: u32, height: u32)
    requires
        d.wf(),
    ensures
        resized(d, width, height).wf(),
{
}

} // verus!

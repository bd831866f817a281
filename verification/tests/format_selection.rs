//! The surface format choice: the first sRGB-capable supported format, with
//! the first supported one as the fallback.

use sursface::display::{negotiate, pick_format_index, CreateError};
use sursface::lifecycle::SurfaceSize;
use sursface::platform::SurfaceProbe;

fn probe(srgb: Vec<bool>) -> SurfaceProbe {
    let formats = srgb
        .iter()
        .map(|&s| {
            if s {
                wgpu::TextureFormat::Bgra8UnormSrgb
            } else {
                wgpu::TextureFormat::Bgra8Unorm
            }
        })
        .collect();
    SurfaceProbe {
        formats,
        srgb,
        present_modes: vec![wgpu::PresentMode::Fifo, wgpu::PresentMode::Immediate],
        alpha_modes: vec![wgpu::CompositeAlphaMode::Opaque],
    }
}

#[test]
fn first_srgb_format_wins() {
    assert_eq!(pick_format_index(&vec![false, true, true]), 1);
    assert_eq!(pick_format_index(&vec![true, false]), 0);
    assert_eq!(pick_format_index(&vec![false, false, true]), 2);
}

#[test]
fn falls_back_to_first_format_when_none_is_srgb() {
    assert_eq!(pick_format_index(&vec![false]), 0);
    assert_eq!(pick_format_index(&vec![false, false, false]), 0);
}

#[test]
fn negotiation_picks_first_srgb_format_and_first_modes() {
    let r = negotiate(&probe(vec![false, true, true])).unwrap();
    assert_eq!(r, (1, 0, 0));
    let r = negotiate(&probe(vec![false, false])).unwrap();
    assert_eq!(r, (0, 0, 0));
}

#[test]
fn negotiation_fails_without_support() {
    let empty = SurfaceProbe {
        formats: vec![],
        srgb: vec![],
        present_modes: vec![wgpu::PresentMode::Fifo],
        alpha_modes: vec![wgpu::CompositeAlphaMode::Opaque],
    };
    assert_eq!(negotiate(&empty), Err(CreateError::NoSurfaceSupport));
    let no_present = SurfaceProbe {
        formats: vec![wgpu::TextureFormat::Bgra8Unorm],
        srgb: vec![false],
        present_modes: vec![],
        alpha_modes: vec![wgpu::CompositeAlphaMode::Opaque],
    };
    assert_eq!(negotiate(&no_present), Err(CreateError::NoSurfaceSupport));
}

#[test]
fn surface_size_carries_its_dimensions() {
    let s = SurfaceSize::new(1920, 1080);
    assert_eq!(s.width, 1920);
    assert_eq!(s.height, 1080);
    assert_eq!(s, SurfaceSize::new(1920, 1080));
}

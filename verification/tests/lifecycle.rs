//! Scenarios driving the lifecycle machine exactly as the platform glue
//! does: one `step` per callback, one `frame_outcome` per acquisition.

use sursface::lifecycle::{Action, Coordinator, FrameStatus, LifecycleEvent, Phase, SurfaceSize};

fn active(width: u32, height: u32) -> Coordinator {
    let mut c = Coordinator::new();
    let acts = c.step(LifecycleEvent::Activated);
    assert_eq!(acts, vec![Action::CreateContext, Action::CreateState]);
    c.context_created(Some(SurfaceSize::new(width, height)), u32::MAX);
    c
}

fn size(width: u32, height: u32) -> Option<SurfaceSize> {
    Some(SurfaceSize::new(width, height))
}

#[test]
fn resize_twice_same_size_is_idempotent() {
    let mut c = active(1280, 720);
    let first = c.step(LifecycleEvent::Resized { width: 800, height: 600 });
    let config_after_one = c.config;
    let second = c.step(LifecycleEvent::Resized { width: 800, height: 600 });
    assert_eq!(config_after_one, size(800, 600));
    assert_eq!(c.config, config_after_one);
    assert_eq!(first, vec![Action::ForwardEvent, Action::Reconfigure { width: 800, height: 600 }]);
    assert_eq!(second, first);
}

#[test]
fn resize_zero_width_is_a_noop() {
    let mut c = active(1280, 720);
    let acts = c.step(LifecycleEvent::Resized { width: 0, height: 600 });
    assert_eq!(c.config, size(1280, 720));
    assert_eq!(acts, vec![Action::ForwardEvent]);
}

#[test]
fn resize_zero_height_is_a_noop() {
    let mut c = active(1280, 720);
    let acts = c.step(LifecycleEvent::Resized { width: 800, height: 0 });
    assert_eq!(c.config, size(1280, 720));
    assert_eq!(acts, vec![Action::ForwardEvent]);
}

#[test]
fn resize_precedes_draw() {
    let mut c = active(1024, 768);
    c.step(LifecycleEvent::Resized { width: 800, height: 600 });
    let acts = c.step(LifecycleEvent::RedrawRequested);
    // the machine holds 800x600 before it even acquires, hence before any draw
    assert_eq!(c.config, size(800, 600));
    assert_eq!(acts, vec![Action::ForwardEvent, Action::AcquireFrame]);
    let after = c.frame_outcome(FrameStatus::Acquired);
    assert_eq!(after, vec![Action::Draw, Action::RequestRedraw]);
    assert_eq!(c.config, size(800, 600));
}

#[test]
fn lost_surface_reconfigures_once_with_last_size_and_never_draws() {
    let mut c = active(640, 480);
    c.step(LifecycleEvent::RedrawRequested);
    let acts = c.frame_outcome(FrameStatus::Lost);
    assert_eq!(
        acts,
        vec![Action::Reconfigure { width: 640, height: 480 }, Action::RequestRedraw]
    );
    assert!(!acts.contains(&Action::Draw));
    assert_eq!(c.phase, Phase::Active);
}

#[test]
fn out_of_memory_terminates_and_requests_no_more_redraws() {
    let mut c = active(640, 480);
    c.step(LifecycleEvent::RedrawRequested);
    let acts = c.frame_outcome(FrameStatus::OutOfMemory);
    assert_eq!(acts, vec![Action::Exit]);
    assert_eq!(c.phase, Phase::Terminated);
    let later = c.step(LifecycleEvent::RedrawRequested);
    assert_eq!(later, vec![]);
}

#[test]
fn timeout_skips_the_frame_and_keeps_polling() {
    let mut c = active(640, 480);
    c.step(LifecycleEvent::RedrawRequested);
    let acts = c.frame_outcome(FrameStatus::Timeout);
    assert_eq!(acts, vec![Action::RequestRedraw]);
    assert!(!acts.contains(&Action::Draw));
    assert!(!acts.iter().any(|a| matches!(a, Action::Reconfigure { .. })));
    assert_eq!(c.phase, Phase::Active);
    assert_eq!(c.config, size(640, 480));
}

#[test]
fn unclassified_failure_is_fatal() {
    let mut c = active(640, 480);
    c.step(LifecycleEvent::RedrawRequested);
    let acts = c.frame_outcome(FrameStatus::Unknown);
    assert_eq!(acts, vec![Action::Exit]);
    assert_eq!(c.phase, Phase::Terminated);
}

#[test]
fn two_activations_create_exactly_once() {
    let mut c = Coordinator::new();
    let first = c.step(LifecycleEvent::Activated);
    let second = c.step(LifecycleEvent::Activated);
    let creations = first
        .iter()
        .chain(second.iter())
        .filter(|a| matches!(a, Action::CreateContext | Action::CreateState))
        .count();
    assert_eq!(first, vec![Action::CreateContext, Action::CreateState]);
    assert_eq!(second, vec![]);
    assert_eq!(creations, 2);
    assert_eq!(c.phase, Phase::Active);
}

#[test]
fn input_during_redraw_completes_both_without_a_second_acquire() {
    let mut c = active(800, 600);
    let redraw = c.step(LifecycleEvent::RedrawRequested);
    assert_eq!(redraw, vec![Action::ForwardEvent, Action::AcquireFrame]);
    // an input event lands while the acquisition is still in flight
    let input = c.step(LifecycleEvent::Input);
    assert_eq!(input, vec![Action::ForwardEvent]);
    // and a redraw request mid-cycle does not start a second acquisition
    let nested = c.step(LifecycleEvent::RedrawRequested);
    assert_eq!(nested, vec![Action::ForwardEvent]);
    let done = c.frame_outcome(FrameStatus::Acquired);
    assert_eq!(done, vec![Action::Draw, Action::RequestRedraw]);
}

#[test]
fn close_request_terminates_unconditionally() {
    let mut c = active(800, 600);
    let acts = c.step(LifecycleEvent::CloseRequested);
    assert_eq!(acts, vec![Action::ForwardEvent, Action::Exit]);
    assert_eq!(c.phase, Phase::Terminated);
    assert_eq!(c.step(LifecycleEvent::Input), vec![]);
}

#[test]
fn redraw_on_unconfigured_surface_only_forwards() {
    let mut c = Coordinator::new();
    c.step(LifecycleEvent::Activated);
    c.context_created(None, u32::MAX);
    let acts = c.step(LifecycleEvent::RedrawRequested);
    assert_eq!(acts, vec![Action::ForwardEvent]);
    let after = c.frame_outcome(FrameStatus::Acquired);
    assert_eq!(after, vec![]);
}

#[test]
fn resize_beyond_the_device_limit_is_a_noop() {
    let mut c = Coordinator::new();
    c.step(LifecycleEvent::Activated);
    c.context_created(Some(SurfaceSize::new(1024, 768)), 8192);
    let acts = c.step(LifecycleEvent::Resized { width: 100_000, height: 100 });
    assert_eq!(c.config, size(1024, 768));
    assert_eq!(acts, vec![Action::ForwardEvent]);
    let tall = c.step(LifecycleEvent::Resized { width: 100, height: 100_000 });
    assert_eq!(c.config, size(1024, 768));
    assert_eq!(tall, vec![Action::ForwardEvent]);
    // at the limit itself the resize is accepted
    c.step(LifecycleEvent::Resized { width: 8192, height: 8192 });
    assert_eq!(c.config, size(8192, 8192));
}

#[test]
fn resize_to_the_largest_size_is_stored() {
    let mut c = active(1, 1);
    c.step(LifecycleEvent::Resized { width: u32::MAX, height: u32::MAX });
    assert_eq!(c.config, size(u32::MAX, u32::MAX));
}

#[test]
fn events_before_activation_are_ignored() {
    let mut c = Coordinator::new();
    assert_eq!(c.step(LifecycleEvent::Resized { width: 800, height: 600 }), vec![]);
    assert_eq!(c.step(LifecycleEvent::RedrawRequested), vec![]);
    assert_eq!(c.phase, Phase::Uninitialized);
    assert_eq!(c.config, None);
}

#[test]
fn end_to_end_scenario() {
    let mut draws: usize = 0;
    let mut c = Coordinator::new();
    c.step(LifecycleEvent::Activated);
    c.context_created(Some(SurfaceSize::new(1280, 720)), u32::MAX);
    assert_eq!(c.config, size(1280, 720));

    let acts = c.step(LifecycleEvent::RedrawRequested);
    assert_eq!(acts, vec![Action::ForwardEvent, Action::AcquireFrame]);
    let config_at_draw = c.config;
    for a in c.frame_outcome(FrameStatus::Acquired) {
        if a == Action::Draw {
            draws += 1;
        }
    }
    assert_eq!(draws, 1);
    assert_eq!(config_at_draw, size(1280, 720));

    c.step(LifecycleEvent::Resized { width: 640, height: 480 });
    assert_eq!(c.config, size(640, 480));

    c.step(LifecycleEvent::RedrawRequested);
    let config_at_second_draw = c.config;
    for a in c.frame_outcome(FrameStatus::Acquired) {
        if a == Action::Draw {
            draws += 1;
        }
    }
    assert_eq!(draws, 2);
    assert_eq!(config_at_second_draw, size(640, 480));
}

use window_render::lifecycle::{
    clamp_dimension, Action, ActiveSurface, Controller, Event, Lifecycle, SurfaceSize,
};

fn size(width: u32, height: u32) -> SurfaceSize {
    SurfaceSize { width, height }
}

fn active(width: u32, height: u32) -> Controller {
    let mut c = Controller::new();
    c.dispatch(Event::Activated { width, height });
    c
}

#[test]
fn clamp_dimension_raises_zero_to_one() {
    assert_eq!(clamp_dimension(0), 1);
    assert_eq!(clamp_dimension(1), 1);
    assert_eq!(clamp_dimension(640), 640);
    assert_eq!(clamp_dimension(u32::MAX), u32::MAX);
}

#[test]
fn surface_size_from_window_floors_each_dimension() {
    assert_eq!(SurfaceSize::from_window(0, 0), size(1, 1));
    assert_eq!(SurfaceSize::from_window(0, 480), size(1, 480));
    assert_eq!(SurfaceSize::from_window(800, 0), size(800, 1));
    assert_eq!(SurfaceSize::from_window(800, 600), size(800, 600));
}

#[test]
fn surface_size_resize_replaces_both_dimensions() {
    let mut s = size(800, 600);
    s.resize(1024, 0);
    assert_eq!(s, size(1024, 1));
    s.resize(0, 0);
    assert_eq!(s, size(1, 1));
}

#[test]
fn new_controller_is_uninitialized() {
    let c = Controller::new();
    assert_eq!(c.state, Lifecycle::Uninitialized);
    assert!(!c.is_active());
    assert!(!c.is_terminated());
    assert_eq!(c.surface_size(), None);
    assert_eq!(c.skipped_frames(), 0);
}

#[test]
fn activation_applies_clamped_window_size() {
    let mut c = Controller::new();
    let a = c.dispatch(Event::Activated { width: 0, height: 0 });
    assert_eq!(a, Action::Initialize(size(1, 1)));
    assert!(c.is_active());
    assert_eq!(c.surface_size(), Some(size(1, 1)));

    let mut d = Controller::new();
    let b = d.dispatch(Event::Activated { width: 1600, height: 1200 });
    assert_eq!(b, Action::Initialize(size(1600, 1200)));
    assert_eq!(d.surface_size(), Some(size(1600, 1200)));
}

#[test]
fn resize_reconfigures_with_clamped_size() {
    let mut c = active(800, 600);
    assert_eq!(c.dispatch(Event::Resized { width: 1024, height: 0 }), Action::Reconfigure(size(1024, 1)));
    assert_eq!(c.surface_size(), Some(size(1024, 1)));
    assert_eq!(c.dispatch(Event::Resized { width: 0, height: 0 }), Action::Reconfigure(size(1, 1)));
    assert_eq!(c.surface_size(), Some(size(1, 1)));
    assert_eq!(c.dispatch(Event::Resized { width: 300, height: 200 }), Action::Reconfigure(size(300, 200)));
    assert_eq!(c.surface_size(), Some(size(300, 200)));
}

#[test]
fn resizing_twice_to_same_size_is_idempotent() {
    let mut c = active(800, 600);
    let first = c.dispatch(Event::Resized { width: 640, height: 0 });
    let after_first = c;
    let second = c.dispatch(Event::Resized { width: 640, height: 0 });
    assert_eq!(first, second);
    assert_eq!(c, after_first);
    assert_eq!(c.surface_size(), Some(size(640, 1)));
}

#[test]
fn redraw_before_activation_is_noop() {
    let mut c = Controller::new();
    assert_eq!(c.dispatch(Event::RedrawRequested), Action::Ignore);
    assert_eq!(c, Controller::new());
    assert_eq!(c.surface_size(), None);
}

#[test]
fn resize_before_activation_is_noop() {
    let mut c = Controller::new();
    assert_eq!(c.dispatch(Event::Resized { width: 10, height: 20 }), Action::Ignore);
    assert_eq!(c.dispatch(Event::FrameSkipped), Action::Ignore);
    assert_eq!(c, Controller::new());
}

#[test]
fn redraw_renders_at_applied_size() {
    let mut c = active(0, 480);
    assert_eq!(c.dispatch(Event::RedrawRequested), Action::Render(size(1, 480)));
    c.dispatch(Event::Resized { width: 320, height: 240 });
    assert_eq!(c.dispatch(Event::RedrawRequested), Action::Render(size(320, 240)));
    assert_eq!(c.surface_size(), Some(size(320, 240)));
}

#[test]
fn second_activation_keeps_existing_surface() {
    let mut c = active(800, 600);
    assert_eq!(c.dispatch(Event::Activated { width: 10, height: 10 }), Action::Ignore);
    assert_eq!(c.surface_size(), Some(size(800, 600)));
}

#[test]
fn skipped_frames_are_counted_and_controller_stays_active() {
    let mut c = active(800, 600);
    assert_eq!(c.dispatch(Event::FrameSkipped), Action::Ignore);
    assert_eq!(c.dispatch(Event::FrameSkipped), Action::Ignore);
    assert_eq!(c.skipped_frames(), 2);
    assert!(c.is_active());
    assert_eq!(c.dispatch(Event::RedrawRequested), Action::Render(size(800, 600)));
}

#[test]
fn skipped_frame_count_saturates() {
    let mut c = Controller {
        state: Lifecycle::Active(ActiveSurface { size: size(2, 2), skipped_frames: u64::MAX }),
    };
    assert_eq!(c.dispatch(Event::FrameSkipped), Action::Ignore);
    assert_eq!(c.skipped_frames(), u64::MAX);
}

#[test]
fn close_terminates_and_later_events_are_ignored() {
    let mut c = active(800, 600);
    assert_eq!(c.dispatch(Event::CloseRequested), Action::Exit);
    assert!(c.is_terminated());
    assert!(!c.is_active());
    assert_eq!(c.surface_size(), None);
    assert_eq!(c.dispatch(Event::RedrawRequested), Action::Ignore);
    assert_eq!(c.dispatch(Event::Resized { width: 5, height: 5 }), Action::Ignore);
    assert_eq!(c.dispatch(Event::Activated { width: 5, height: 5 }), Action::Ignore);
    assert_eq!(c.dispatch(Event::CloseRequested), Action::Ignore);
    assert!(c.is_terminated());
}

#[test]
fn close_before_activation_exits() {
    let mut c = Controller::new();
    assert_eq!(c.dispatch(Event::CloseRequested), Action::Exit);
    assert!(c.is_terminated());
}

#[test]
fn default_controller_is_uninitialized() {
    assert_eq!(Controller::default(), Controller::new());
}

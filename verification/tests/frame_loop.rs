use autonomy::frame_loop::{Action, Event, FrameLoop};
use autonomy::target::{ColorTarget, DepthTarget};
use autonomy::types::{Extent3d, TextureFormat};
use autonomy::ScreenTargets;

fn extent(width: u32, height: u32) -> Extent3d {
    Extent3d { width, height, depth_or_array_layers: 1 }
}

#[test]
fn loop_starts_with_the_window_size_and_no_reload_pending() {
    let state = FrameLoop::new(800, 600);
    assert_eq!(state, FrameLoop { width: 800, height: 600, needs_reload: false });
    assert_eq!(state.extent(), extent(800, 600));
}

#[test]
fn resize_replaces_the_extent_and_asks_for_new_targets() {
    let mut state = FrameLoop::new(800, 600);
    let action = state.on_event(Event::Resized { width: 1024, height: 768 });
    assert_eq!(action, Action::Reconfigure(extent(1024, 768)));
    assert_eq!(state.extent(), extent(1024, 768));
    assert!(!state.needs_reload);
}

#[test]
fn frame_after_a_resize_has_the_new_extent() {
    let mut state = FrameLoop::new(800, 600);
    state.on_event(Event::Resized { width: 1024, height: 768 });
    assert_eq!(state.on_event(Event::MainEventsCleared), Action::Redraw);
    let targets = state.frame_targets(Some(3), 2, TextureFormat::Bgra8Unorm).unwrap();
    let color = ColorTarget { id: 3, width: 1024, height: 768, format: TextureFormat::Bgra8Unorm };
    let depth = DepthTarget { id: 2, width: 1024, height: 768 };
    assert_eq!(targets, ScreenTargets { extent: extent(1024, 768), color, depth });
    assert!(targets.is_well_formed());
}

#[test]
fn resize_back_restores_the_first_extent() {
    let mut state = FrameLoop::new(800, 600);
    state.on_event(Event::Resized { width: 1024, height: 768 });
    let action = state.on_event(Event::Resized { width: 800, height: 600 });
    assert_eq!(action, Action::Reconfigure(extent(800, 600)));
    assert_eq!(state, FrameLoop::new(800, 600));
}

#[test]
fn frame_is_dropped_when_no_image_is_ready() {
    let state = FrameLoop::new(800, 600);
    assert_eq!(state.frame_targets(None, 2, TextureFormat::Bgra8Unorm), None);
}

#[test]
fn losing_the_focus_asks_for_one_reload_when_it_comes_back() {
    let mut state = FrameLoop::new(1, 1);
    assert_eq!(state.on_event(Event::Focused(true)), Action::Wait);
    assert_eq!(state.on_event(Event::Focused(false)), Action::Wait);
    assert!(state.needs_reload);
    assert_eq!(state.on_event(Event::Focused(false)), Action::Wait);
    assert_eq!(state.on_event(Event::Focused(true)), Action::ReloadShaders);
    assert!(!state.needs_reload);
    assert_eq!(state.on_event(Event::Focused(true)), Action::Wait);
}

#[test]
fn close_request_leaves_the_loop() {
    let mut state = FrameLoop::new(5, 6);
    assert_eq!(state.on_event(Event::CloseRequested), Action::Exit);
    assert_eq!(state, FrameLoop::new(5, 6));
}

#[test]
fn other_events_change_nothing() {
    let mut state = FrameLoop::new(5, 6);
    state.on_event(Event::Focused(false));
    let before = state;
    assert_eq!(state.on_event(Event::Other), Action::Wait);
    assert_eq!(state.on_event(Event::MainEventsCleared), Action::Redraw);
    assert_eq!(state, before);
}

#[test]
fn targets_of_every_frame_are_well_formed() {
    let mut state = FrameLoop::new(0, 0);
    for (width, height) in [(0, 0), (1, 1), (1920, 1080), (u32::MAX, 7)] {
        state.on_event(Event::Resized { width, height });
        let targets = state.frame_targets(Some(9), 4, TextureFormat::Bgra8UnormSrgb).unwrap();
        assert!(targets.is_well_formed());
        assert_eq!(targets.extent, extent(width, height));
        assert_eq!(targets.color.format, TextureFormat::Bgra8UnormSrgb);
        assert_eq!((targets.color.id, targets.depth.id), (9, 4));
    }
}

use rust_on_rails::input::{MouseState, PointerTracker, TouchPhase, TrackedEvent, WindowInput};

#[test]
fn resize_and_scale_change() {
    let mut t = PointerTracker::new();
    assert_eq!(t.convert(WindowInput::Resized { width: 800, height: 600 }), Some(TrackedEvent::Resize { width: 800, height: 600 }));
    assert_eq!(t.convert(WindowInput::ScaleFactorChanged), Some(TrackedEvent::Resize { width: 800, height: 600 }));
}

#[test]
fn cursor_moves_only_when_position_changes() {
    let mut t = PointerTracker::new();
    assert_eq!(
        t.convert(WindowInput::CursorMoved { position: (5, 0) }),
        Some(TrackedEvent::Mouse { position: (5, 0), state: MouseState::Moved })
    );
    assert_eq!(t.convert(WindowInput::CursorMoved { position: (5, 0) }), None);
}

#[test]
fn buttons_act_where_the_pointer_is() {
    let mut t = PointerTracker::new();
    t.convert(WindowInput::CursorMoved { position: (3, 4) });
    assert_eq!(
        t.convert(WindowInput::MouseInput { pressed: true }),
        Some(TrackedEvent::Mouse { position: (3, 4), state: MouseState::Pressed })
    );
    assert_eq!(
        t.convert(WindowInput::MouseInput { pressed: false }),
        Some(TrackedEvent::Mouse { position: (3, 4), state: MouseState::Released })
    );
}

#[test]
fn touches_map_to_mouse_states() {
    let mut t = PointerTracker::new();
    let cases = [
        (TouchPhase::Started, MouseState::Pressed),
        (TouchPhase::Moved, MouseState::Moved),
        (TouchPhase::Ended, MouseState::Released),
        (TouchPhase::Cancelled, MouseState::Released),
    ];
    for (i, (phase, state)) in cases.iter().enumerate() {
        let position = (i as u32, 10);
        assert_eq!(t.convert(WindowInput::Touch { position, phase: *phase }), Some(TrackedEvent::Mouse { position, state: *state }));
        assert_eq!(t.mouse, position);
    }
}

use rust_on_rails::input::{PointerAction, WindowLoopEvent, WindowLoopInput, WindowTracker, LONG_PRESS_NANOS};

#[test]
fn short_touch_releases() {
    let mut t = WindowTracker::new();
    assert_eq!(
        t.handle(WindowLoopInput::TouchStarted { position: (1, 2), at: 1_000 }),
        Some(WindowLoopEvent::Pointer { position: (1, 2), action: PointerAction::Pressed })
    );
    assert_eq!(
        t.handle(WindowLoopInput::TouchEnded { position: (1, 2), at: 1_000 + LONG_PRESS_NANOS - 1 }),
        Some(WindowLoopEvent::Pointer { position: (1, 2), action: PointerAction::Released })
    );
    assert_eq!(t.touch_start, None);
}

#[test]
fn long_touch_is_long_press() {
    let mut t = WindowTracker::new();
    t.handle(WindowLoopInput::TouchStarted { position: (0, 0), at: 5 });
    assert_eq!(
        t.handle(WindowLoopInput::TouchEnded { position: (3, 3), at: 5 + LONG_PRESS_NANOS }),
        Some(WindowLoopEvent::Pointer { position: (3, 3), action: PointerAction::LongPressReleased })
    );
}

#[test]
fn touch_end_without_start_releases() {
    let mut t = WindowTracker::new();
    assert_eq!(
        t.handle(WindowLoopInput::TouchEnded { position: (3, 3), at: u128::MAX }),
        Some(WindowLoopEvent::Pointer { position: (3, 3), action: PointerAction::Released })
    );
}

#[test]
fn window_cursor_needs_both_axes() {
    let mut t = WindowTracker::new();
    assert_eq!(t.handle(WindowLoopInput::CursorMoved { position: (5, 0) }), None);
    assert_eq!(
        t.handle(WindowLoopInput::CursorMoved { position: (5, 6) }),
        Some(WindowLoopEvent::Pointer { position: (5, 6), action: PointerAction::Moved })
    );
    assert_eq!(
        t.handle(WindowLoopInput::MouseInput { pressed: true }),
        Some(WindowLoopEvent::Pointer { position: (5, 6), action: PointerAction::Pressed })
    );
}

#[test]
fn window_resize_and_scale() {
    let mut t = WindowTracker::new();
    assert_eq!(t.handle(WindowLoopInput::Resized { width: 10, height: 20 }), Some(WindowLoopEvent::Resized { width: 10, height: 20 }));
    assert_eq!(t.handle(WindowLoopInput::ScaleFactorChanged), Some(WindowLoopEvent::Resized { width: 10, height: 20 }));
}

use rust_on_rails::input::topmost_hit;

#[test]
fn topmost_hit_picks_the_last_child_hit() {
    assert_eq!(topmost_hit(&vec![true, false, true, false]), Some(2));
    assert_eq!(topmost_hit(&vec![true, false, false]), Some(0));
    assert_eq!(topmost_hit(&vec![false, false]), None);
    assert_eq!(topmost_hit(&vec![]), None);
    assert_eq!(topmost_hit(&vec![true, true, true]), Some(2));
}

use rust_on_rails::input::{requests_exit, ExitInput};

#[test]
fn exit_on_close_or_escape_press() {
    assert!(requests_exit(ExitInput::CloseRequested));
    assert!(requests_exit(ExitInput::Key { pressed: true, escape: true }));
    assert!(!requests_exit(ExitInput::Key { pressed: false, escape: true }));
    assert!(!requests_exit(ExitInput::Key { pressed: true, escape: false }));
    assert!(!requests_exit(ExitInput::Other));
}

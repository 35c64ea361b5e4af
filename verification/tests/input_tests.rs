use pogla::input::{
    CameraInput, EventAction, FrameEvents, InputEvent, InputState, InputTracker, Key, MouseButton,
};

const WINDOW: u32 = 3;

fn key_down(key: Key) -> InputEvent {
    InputEvent::KeyDown { window: WINDOW, key }
}

fn key_up(key: Key) -> InputEvent {
    InputEvent::KeyUp { window: WINDOW, key }
}

#[test]
fn the_input_starts_focused_and_captured() {
    let input = InputState::new();
    assert!(input.focused);
    assert!(input.capture_cursor);
    assert!(!input.forward && !input.backward && !input.left && !input.right);
    assert!(!input.up && !input.down);
    assert_eq!((input.mouse_x_axis, input.mouse_y_axis), (0, 0));
    let tracker = InputTracker::new(true);
    assert_eq!(tracker.input, input);
    assert!(tracker.broken_relative_mouse_mode);
    assert_eq!((tracker.prev_mouse_x, tracker.prev_mouse_y), (0, 0));
}

#[test]
fn keys_hold_and_release_the_directions() {
    let mut tracker = InputTracker::new(false);
    for (key, read) in [
        (Key::Z, (|i: &InputState| i.forward) as fn(&InputState) -> bool),
        (Key::S, |i: &InputState| i.backward),
        (Key::D, |i: &InputState| i.right),
        (Key::Q, |i: &InputState| i.left),
        (Key::LShift, |i: &InputState| i.down),
        (Key::Space, |i: &InputState| i.up),
    ] {
        assert_eq!(tracker.handle_event(WINDOW, key_down(key)), EventAction::Ignore);
        assert!(read(&tracker.input));
        assert_eq!(tracker.handle_event(WINDOW, key_up(key)), EventAction::Ignore);
        assert!(!read(&tracker.input));
    }
    assert_eq!(tracker, InputTracker::new(false));
}

#[test]
fn escape_and_quit_close() {
    let mut tracker = InputTracker::new(false);
    assert_eq!(tracker.handle_event(WINDOW, key_down(Key::Escape)), EventAction::Close);
    assert_eq!(tracker.handle_event(WINDOW, key_up(Key::Escape)), EventAction::Ignore);
    assert_eq!(tracker.handle_event(WINDOW, InputEvent::Quit), EventAction::Close);
    assert_eq!(tracker.handle_event(WINDOW + 1, InputEvent::Quit), EventAction::Close);
    assert_eq!(tracker, InputTracker::new(false));
}

#[test]
fn tab_releases_the_cursor_and_a_click_captures_it() {
    let mut tracker = InputTracker::new(false);
    assert_eq!(
        tracker.handle_event(WINDOW, key_down(Key::Tab)),
        EventAction::SetRelativeMouseMode(false)
    );
    assert!(!tracker.input.capture_cursor);
    assert_eq!(
        tracker.handle_event(
            WINDOW,
            InputEvent::MouseButtonDown { window: WINDOW, button: MouseButton::Other }
        ),
        EventAction::Ignore
    );
    assert!(!tracker.input.capture_cursor);
    assert_eq!(
        tracker.handle_event(
            WINDOW,
            InputEvent::MouseButtonDown { window: WINDOW, button: MouseButton::Left }
        ),
        EventAction::SetRelativeMouseMode(true)
    );
    assert!(tracker.input.capture_cursor);
}

#[test]
fn events_of_other_windows_are_ignored() {
    let mut tracker = InputTracker::new(false);
    let events = [
        InputEvent::KeyDown { window: WINDOW + 1, key: Key::Z },
        InputEvent::KeyDown { window: WINDOW + 1, key: Key::Escape },
        InputEvent::FocusLost { window: WINDOW + 1 },
        InputEvent::Resized { window: WINDOW + 1, width: 10, height: 10 },
        InputEvent::MouseMotion { window: WINDOW + 1, xrel: 5, yrel: 5 },
        InputEvent::Other { owner: None },
        InputEvent::Other { owner: Some(WINDOW) },
        key_down(Key::Other),
    ];
    for event in events {
        assert_eq!(tracker.handle_event(WINDOW, event), EventAction::Ignore);
    }
    assert_eq!(tracker, InputTracker::new(false));
    assert_eq!(InputEvent::Quit.get_window_id(), None);
    assert_eq!(InputEvent::FocusLost { window: 8 }.get_window_id(), Some(8));
}

#[test]
fn focus_resize_and_logging() {
    let mut tracker = InputTracker::new(false);
    assert_eq!(
        tracker.handle_event(WINDOW, InputEvent::FocusLost { window: WINDOW }),
        EventAction::Ignore
    );
    assert!(!tracker.input.focused);
    assert_eq!(
        tracker.handle_event(WINDOW, InputEvent::FocusGained { window: WINDOW }),
        EventAction::Ignore
    );
    assert!(tracker.input.focused);
    assert_eq!(
        tracker.handle_event(WINDOW, InputEvent::Resized { window: WINDOW, width: 800, height: 600 }),
        EventAction::Resize { width: 800, height: 600 }
    );
    assert_eq!(tracker.handle_event(WINDOW, key_down(Key::L)), EventAction::LogCamera);
    assert_eq!(tracker.handle_event(WINDOW, key_up(Key::L)), EventAction::Ignore);
}

#[test]
fn the_motion_is_what_the_window_system_reports() {
    let mut tracker = InputTracker::new(false);
    tracker.handle_event(WINDOW, InputEvent::MouseMotion { window: WINDOW, xrel: 12, yrel: -7 });
    assert_eq!((tracker.input.mouse_x_axis, tracker.input.mouse_y_axis), (12, -7));
    assert_eq!((tracker.prev_mouse_x, tracker.prev_mouse_y), (0, 0));
}

#[test]
fn in_the_broken_mode_the_motion_is_the_difference_of_positions() {
    let mut tracker = InputTracker::new(false);
    assert_eq!(tracker.handle_event(WINDOW, key_down(Key::B)), EventAction::Ignore);
    assert!(tracker.broken_relative_mouse_mode);
    tracker.handle_event(WINDOW, InputEvent::MouseMotion { window: WINDOW, xrel: 100, yrel: 50 });
    assert_eq!((tracker.input.mouse_x_axis, tracker.input.mouse_y_axis), (100, 50));
    tracker.handle_event(WINDOW, InputEvent::MouseMotion { window: WINDOW, xrel: 90, yrel: 65 });
    assert_eq!((tracker.input.mouse_x_axis, tracker.input.mouse_y_axis), (-10, 15));
    assert_eq!((tracker.prev_mouse_x, tracker.prev_mouse_y), (90, 65));
    tracker.handle_event(
        WINDOW,
        InputEvent::MouseMotion { window: WINDOW, xrel: i32::MIN, yrel: i32::MAX },
    );
    assert_eq!(tracker.input.mouse_x_axis, i32::MIN as i64 - 90);
    assert_eq!(tracker.input.mouse_y_axis, i32::MAX as i64 - 65);
    assert_eq!(tracker.handle_event(WINDOW, key_up(Key::B)), EventAction::Ignore);
    assert!(tracker.broken_relative_mouse_mode);
    assert_eq!(tracker.handle_event(WINDOW, key_down(Key::B)), EventAction::Ignore);
    assert!(!tracker.broken_relative_mouse_mode);
}

#[test]
fn a_frame_without_motion_reads_as_no_motion() {
    let mut tracker = InputTracker::new(false);
    tracker.handle_events(
        WINDOW,
        &vec![InputEvent::MouseMotion { window: WINDOW, xrel: 4, yrel: 9 }, key_down(Key::Z)],
    );
    assert_eq!((tracker.input.mouse_x_axis, tracker.input.mouse_y_axis), (4, 9));
    let frame = tracker.handle_events(WINDOW, &vec![]);
    assert_eq!(frame, FrameEvents { should_close: false, actions: vec![] });
    assert_eq!((tracker.input.mouse_x_axis, tracker.input.mouse_y_axis), (0, 0));
    assert!(tracker.input.forward);
}

#[test]
fn the_events_of_a_frame_are_handled_in_order_until_one_closes() {
    let mut tracker = InputTracker::new(false);
    let frame = tracker.handle_events(
        WINDOW,
        &vec![
            key_down(Key::Tab),
            InputEvent::Resized { window: WINDOW, width: 640, height: 480 },
            key_down(Key::Z),
            key_down(Key::L),
            InputEvent::Quit,
            key_down(Key::S),
            InputEvent::Resized { window: WINDOW, width: 1, height: 1 },
        ],
    );
    assert!(frame.should_close);
    assert_eq!(
        frame.actions,
        vec![
            EventAction::SetRelativeMouseMode(false),
            EventAction::Resize { width: 640, height: 480 },
            EventAction::LogCamera,
        ]
    );
    assert!(tracker.input.forward);
    assert!(!tracker.input.backward);
    assert!(!tracker.input.capture_cursor);
}

#[test]
fn the_camera_gets_nothing_without_focus() {
    let mut input = InputState::new();
    input.forward = true;
    input.mouse_x_axis = 3;
    input.focused = false;
    assert_eq!(input.camera_input(), None);
}

#[test]
fn the_camera_gets_the_held_directions_and_the_captured_motion() {
    let mut input = InputState::new();
    input.forward = true;
    input.left = true;
    input.up = true;
    input.down = true;
    input.mouse_x_axis = 3;
    input.mouse_y_axis = -4;
    assert_eq!(
        input.camera_input(),
        Some(CameraInput { look: Some((3, -4)), x: 1, y: -1, z: 0 })
    );
    input.capture_cursor = false;
    input.forward = false;
    input.backward = true;
    input.left = false;
    input.right = true;
    input.up = false;
    assert_eq!(input.camera_input(), Some(CameraInput { look: None, x: -1, y: 1, z: -1 }));
    assert_eq!(
        InputState::new().camera_input(),
        Some(CameraInput { look: Some((0, 0)), x: 0, y: 0, z: 0 })
    );
}

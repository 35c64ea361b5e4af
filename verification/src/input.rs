//! The input of one frame, and how the events of the window change it.

use vstd::prelude::*;

verus! {

/// What the camera is to do, as the last events left it.
#[derive(Clone, Copy, Debug, PartialEq, Eq)]
pub struct InputState {
    pub forward: bool,
    pub backward: bool,
    pub left: bool,
    pub right: bool,
    pub up: bool,
    pub down: bool,
    /// How far the mouse moved to the right in this frame, in pixels.
    pub mouse_x_axis: i64,
    /// How far the mouse moved down in this frame, in pixels.
    pub mouse_y_axis: i64,
    pub capture_cursor: bool,
    pub focused: bool,
}

/// The keys that mean something to the demo.
#[derive(Clone, Copy, Debug, PartialEq, Eq, Structural)]
pub enum Key {
    Escape,
    Tab,
    Z,
    S,
    D,
    Q,
    LShift,
    Space,
    B,
    L,
    Other,
}

#[derive(Clone, Copy, Debug, PartialEq, Eq, Structural)]
pub enum MouseButton {
    Left,
    Other,
}

/// An event of the window system.
#[derive(Clone, Copy, Debug, PartialEq, Eq)]
pub enum InputEvent {
    /// The application is asked to end. The event belongs to no window.
    Quit,
    KeyDown { window: u32, key: Key },
    KeyUp { window: u32, key: Key },
    MouseButtonDown { window: u32, button: MouseButton },
    FocusGained { window: u32 },
    FocusLost { window: u32 },
    Resized { window: u32, width: i32, height: i32 },
    /// The mouse moved; `xrel` and `yrel` are what the window system reports
    /// as the motion.
    MouseMotion { window: u32, xrel: i32, yrel: i32 },
    /// Any other event, of the window `window` if it belongs to one.
    Other { owner: Option<u32> },
}

/// What the caller has to do about an event.
#[derive(Clone, Copy, Debug, PartialEq, Eq)]
pub enum EventAction {
    /// Nothing.
    Ignore,
    /// End the render loop.
    Close,
    /// Switch the relative mode of the mouse on or off.
    SetRelativeMouseMode(bool),
    /// Fit the viewport and the projection to the new size of the window.
    Resize { width: i32, height: i32 },
    /// Log where the camera is and where it looks.
    LogCamera,
}

/// What the camera gets of the input of a frame.
#[derive(Clone, Copy, Debug, PartialEq, Eq)]
pub struct CameraInput {
    /// The motion of the mouse, right and down, if the cursor is captured.
    pub look: Option<(i64, i64)>,
    /// Forward is 1, backward -1.
    pub x: i32,
    /// Right is 1, left -1.
    pub y: i32,
    /// Up is 1, down -1.
    pub z: i32,
}

/// One direction against its opposite: 1, -1, or 0 where both or neither are held.
pub open spec fn axis(positive: bool, negative: bool) -> i32 {
    if positive == negative {
        0
    } else if positive {
        1i32
    } else {
        -1i32
    }
}

impl InputEvent {
    /// The window that the event belongs to, if it belongs to one.
    pub open spec fn window(self) -> Option<u32> {
        match self {
            InputEvent::Quit => None,
            InputEvent::KeyDown { window, .. } => Some(window),
            InputEvent::KeyUp { window, .. } => Some(window),
            InputEvent::MouseButtonDown { window, .. } => Some(window),
            InputEvent::FocusGained { window } => Some(window),
            InputEvent::FocusLost { window } => Some(window),
            InputEvent::Resized { window, .. } => Some(window),
            InputEvent::MouseMotion { window, .. } => Some(window),
            InputEvent::Other { owner } => owner,
        }
    }

    /// The window that the event belongs to, if it belongs to one.
    pub fn get_window_id(&self) -> (window: Option<u32>)
        ensures
            window == self.window(),
    {
        match *self {
            InputEvent::Quit => None,
            InputEvent::KeyDown { window, .. } => Some(window),
            InputEvent::KeyUp { window, .. } => Some(window),
            InputEvent::MouseButtonDown { window, .. } => Some(window),
            InputEvent::FocusGained { window } => Some(window),
            InputEvent::FocusLost { window } => Some(window),
            InputEvent::Resized { window, .. } => Some(window),
            InputEvent::MouseMotion { window, .. } => Some(window),
            InputEvent::Other { owner } => owner,
        }
    }
}

impl InputState {
    /// The input before any event: the window has the focus and the cursor
    /// is captured; nothing is held and nothing has moved.
    pub open spec fn initial() -> InputState {
        InputState {
            forward: false,
            backward: false,
            left: false,
            right: false,
            up: false,
            down: false,
            mouse_x_axis: 0,
            mouse_y_axis: 0,
            capture_cursor: true,
            focused: true,
        }
    }

    /// The input before any event.
    pub fn new() -> (input: InputState)
        ensures
            input == InputState::initial(),
    {
        InputState {
            forward: false,
            backward: false,
            left: false,
            right: false,
            up: false,
            down: false,
            mouse_x_axis: 0,
            mouse_y_axis: 0,
            capture_cursor: true,
            focused: true,
        }
    }

    /// What the camera gets of the input.
    pub open spec fn for_camera(self) -> Option<CameraInput> {
        if !self.focused {
            None
        } else {
            Some(
                CameraInput {
                    look: if self.capture_cursor {
                        Some((self.mouse_x_axis, self.mouse_y_axis))
                    } else {
                        None
                    },
                    x: axis(self.forward, self.backward),
                    y: axis(self.right, self.left),
                    z: axis(self.up, self.down),
                },
            )
        }
    }

    /// What the camera gets of the input: nothing while the window is
    /// without focus; else the directions that are held, and the motion of
    /// the mouse if the cursor is captured.
    pub fn camera_input(&self) -> (input: Option<CameraInput>)
        ensures
            input == self.for_camera(),
    {
        if !self.focused {
            return None;
        }
        let look = if self.capture_cursor {
            Some((self.mouse_x_axis, self.mouse_y_axis))
        } else {
            None
        };
        Some(
            CameraInput {
                look,
                x: held(self.forward, self.backward),
                y: held(self.right, self.left),
                z: held(self.up, self.down),
            },
        )
    }
}

fn held(positive: bool, negative: bool) -> (value: i32)
    ensures
        value == axis(positive, negative),
{
    if positive == negative {
        0
    } else if positive {
        1
    } else {
        -1
    }
}

/// The input, and what is remembered of the mouse between events.
#[derive(Clone, Copy, Debug, PartialEq, Eq)]
pub struct InputTracker {
    pub input: InputState,
    /// Whether the window system reports positions where it should report
    /// motions. Then the motion is the difference to the last report.
    pub broken_relative_mouse_mode: bool,
    pub prev_mouse_x: i32,
    pub prev_mouse_y: i32,
}

/// The events of one frame, handled.
#[derive(Debug, PartialEq, Eq)]
pub struct FrameEvents {
    /// Whether the render loop is to end.
    pub should_close: bool,
    /// What the caller has to do, in the order of the events that asked for it.
    pub actions: Vec<EventAction>,
}

impl InputTracker {
    /// The tracker with one field of the input changed.
    pub open spec fn with_input(self, input: InputState) -> InputTracker {
        InputTracker { input, ..self }
    }

    /// What a key that is pressed or let go does to the input.
    pub open spec fn after_key(self, key: Key, pressed: bool) -> (InputTracker, EventAction) {
        let input = self.input;
        match key {
            Key::Escape if pressed => (self, EventAction::Close),
            Key::Tab if pressed => (
                self.with_input(InputState { capture_cursor: false, ..input }),
                EventAction::SetRelativeMouseMode(false),
            ),
            Key::Z => (self.with_input(InputState { forward: pressed, ..input }), EventAction::Ignore),
            Key::S => (self.with_input(InputState { backward: pressed, ..input }), EventAction::Ignore),
            Key::D => (self.with_input(InputState { right: pressed, ..input }), EventAction::Ignore),
            Key::Q => (self.with_input(InputState { left: pressed, ..input }), EventAction::Ignore),
            Key::LShift => (self.with_input(InputState { down: pressed, ..input }), EventAction::Ignore),
            Key::Space => (self.with_input(InputState { up: pressed, ..input }), EventAction::Ignore),
            Key::B if pressed => (
                InputTracker {
                    broken_relative_mouse_mode: !self.broken_relative_mouse_mode,
                    ..self
                },
                EventAction::Ignore,
            ),
            Key::L if pressed => (self, EventAction::LogCamera),
            _ => (self, EventAction::Ignore),
        }
    }

    /// What one event does, for the window `window`.
    ///
    /// A request to end closes, whatever window it is for. Any other event
    /// counts only if it belongs to `window`.
    pub open spec fn after_event(self, window: u32, event: InputEvent) -> (InputTracker, EventAction) {
        let input = self.input;
        if event == InputEvent::Quit {
            (self, EventAction::Close)
        } else if event.window() != Some(window) {
            (self, EventAction::Ignore)
        } else {
            match event {
                InputEvent::KeyDown { key, .. } => self.after_key(key, true),
                InputEvent::KeyUp { key, .. } => self.after_key(key, false),
                InputEvent::MouseButtonDown { button: MouseButton::Left, .. } => (
                    self.with_input(InputState { capture_cursor: true, ..input }),
                    EventAction::SetRelativeMouseMode(true),
                ),
                InputEvent::FocusGained { .. } => (
                    self.with_input(InputState { focused: true, ..input }),
                    EventAction::Ignore,
                ),
                InputEvent::FocusLost { .. } => (
                    self.with_input(InputState { focused: false, ..input }),
                    EventAction::Ignore,
                ),
                InputEvent::Resized { width, height, .. } => (
                    self,
                    EventAction::Resize { width, height },
                ),
                InputEvent::MouseMotion { xrel, yrel, .. } => if self.broken_relative_mouse_mode {
                    (
                        InputTracker {
                            input: InputState {
                                mouse_x_axis: (xrel - self.prev_mouse_x) as i64,
                                mouse_y_axis: (yrel - self.prev_mouse_y) as i64,
                                ..input
                            },
                            prev_mouse_x: xrel,
                            prev_mouse_y: yrel,
                            ..self
                        },
                        EventAction::Ignore,
                    )
                } else {
                    (
                        self.with_input(
                            InputState {
                                mouse_x_axis: xrel as i64,
                                mouse_y_axis: yrel as i64,
                                ..input
                            },
                        ),
                        EventAction::Ignore,
                    )
                },
                _ => (self, EventAction::Ignore),
            }
        }
    }

    /// The tracker at the start of a frame: the mouse has not moved yet.
    pub open spec fn at_frame_start(self) -> InputTracker {
        self.with_input(InputState { mouse_x_axis: 0, mouse_y_axis: 0, ..self.input })
    }

    /// The tracker after the first `count` events of a frame, what they
    /// asked for, and whether the loop is to end. The event that closes is
    /// the last that is looked at.
    pub open spec fn after_events(self, window: u32, events: Seq<InputEvent>, count: int) -> (
        InputTracker,
        Seq<EventAction>,
        bool,
    )
        decreases count,
    {
        if count <= 0 {
            (self.at_frame_start(), Seq::empty(), false)
        } else {
            let (tracker, actions, closed) = self.after_events(window, events, count - 1);
            if closed {
                (tracker, actions, true)
            } else {
                let (next, action) = tracker.after_event(window, events[count - 1]);
                match action {
                    EventAction::Ignore => (next, actions, false),
                    EventAction::Close => (next, actions, true),
                    _ => (next, actions.push(action), false),
                }
            }
        }
    }

    /// Once the loop is to end, further events change nothing.
    pub proof fn lemma_closed_stands(self, window: u32, events: Seq<InputEvent>, count: int, more: int)
        requires
            count <= more,
            self.after_events(window, events, count).2,
        ensures
            self.after_events(window, events, more) == self.after_events(window, events, count),
        decreases more - count,
    {
        if count < more {
            self.lemma_closed_stands(window, events, count, more - 1);
        }
    }

    /// A tracker before any event.
    pub fn new(broken_relative_mouse_mode: bool) -> (tracker: InputTracker)
        ensures
            tracker.input == InputState::initial(),
            tracker.broken_relative_mouse_mode == broken_relative_mouse_mode,
            tracker.prev_mouse_x == 0,
            tracker.prev_mouse_y == 0,
    {
        InputTracker {
            input: InputState::new(),
            broken_relative_mouse_mode,
            prev_mouse_x: 0,
            prev_mouse_y: 0,
        }
    }

    fn handle_key(&mut self, key: Key, pressed: bool) -> (action: EventAction)
        ensures
            (*final(self), action) == old(self).after_key(key, pressed),
    {
        match key {
            Key::Escape => {
                if pressed {
                    return EventAction::Close;
                }
            },
            Key::Tab => {
                if pressed {
                    self.input.capture_cursor = false;
                    return EventAction::SetRelativeMouseMode(false);
                }
            },
            Key::Z => {
                self.input.forward = pressed;
            },
            Key::S => {
                self.input.backward = pressed;
            },
            Key::D => {
                self.input.right = pressed;
            },
            Key::Q => {
                self.input.left = pressed;
            },
            Key::LShift => {
                self.input.down = pressed;
            },
            Key::Space => {
                self.input.up = pressed;
            },
            Key::B => {
                if pressed {
                    self.broken_relative_mouse_mode = !self.broken_relative_mouse_mode;
                }
            },
            Key::L => {
                if pressed {
                    return EventAction::LogCamera;
                }
            },
            Key::Other => {},
        }
        EventAction::Ignore
    }

    /// Handles one event for the window `window`.
    pub fn handle_event(&mut self, window: u32, event: InputEvent) -> (action: EventAction)
        ensures
            (*final(self), action) == old(self).after_event(window, event),
    {
        match event {
            InputEvent::Quit => {
                return EventAction::Close;
            },
            _ => {},
        }
        match event.get_window_id() {
            Some(id) => {
                if id != window {
                    return EventAction::Ignore;
                }
            },
            None => {
                return EventAction::Ignore;
            },
        }
        match event {
            InputEvent::KeyDown { key, .. } => self.handle_key(key, true),
            InputEvent::KeyUp { key, .. } => self.handle_key(key, false),
            InputEvent::MouseButtonDown { button: MouseButton::Left, .. } => {
                self.input.capture_cursor = true;
                EventAction::SetRelativeMouseMode(true)
            },
            InputEvent::FocusGained { .. } => {
                self.input.focused = true;
                EventAction::Ignore
            },
            InputEvent::FocusLost { .. } => {
                self.input.focused = false;
                EventAction::Ignore
            },
            InputEvent::Resized { width, height, .. } => EventAction::Resize { width, height },
            InputEvent::MouseMotion { xrel, yrel, .. } => {
                if self.broken_relative_mouse_mode {
                    self.input.mouse_x_axis = xrel as i64 - self.prev_mouse_x as i64;
                    self.input.mouse_y_axis = yrel as i64 - self.prev_mouse_y as i64;
                    self.prev_mouse_x = xrel;
                    self.prev_mouse_y = yrel;
                } else {
                    self.input.mouse_x_axis = xrel as i64;
                    self.input.mouse_y_axis = yrel as i64;
                }
                EventAction::Ignore
            },
            _ => EventAction::Ignore,
        }
    }

    /// Handles the events of one frame, in order, for the window `window`.
    /// The motion of the mouse starts at zero, so that a frame without
    /// motion reads as no motion. Events after the one that closes are not
    /// looked at.
    pub fn handle_events(&mut self, window: u32, events: &Vec<InputEvent>) -> (frame: FrameEvents)
        ensures
            (*final(self), frame.actions@, frame.should_close) == old(self).after_events(
                window,
                events@,
                events.len() as int,
            ),
    {
        self.input.mouse_x_axis = 0;
        self.input.mouse_y_axis = 0;
        let mut actions: Vec<EventAction> = Vec::new();
        let mut i: usize = 0;
        while i < events.len()
            invariant
                i <= events.len(),
                (*self, actions@, false) == old(self).after_events(window, events@, i as int),
            decreases events.len() - i,
        {
            let action = self.handle_event(window, events[i]);
            match action {
                EventAction::Ignore => {},
                EventAction::Close => {
                    proof {
                        old(self).lemma_closed_stands(window, events@, i + 1, events.len() as int);
                    }
                    return FrameEvents { should_close: true, actions };
                },
                _ => {
                    actions.push(action);
                },
            }
            i += 1;
        }
        FrameEvents { should_close: false, actions }
    }
}

} // verus!

//! What the drawing does in answer to input: which events stop it, move the
//! camera, change the speed or start the trace anew, and how long it rests
//! between two frames.

use vstd::prelude::*;

verus! {

/// The keys that have a meaning, and all the others.
#[derive(Clone, Copy, Debug, PartialEq, Eq, Structural)]
pub enum Key {
    Equals,
    Minus,
    R,
    L,
    Other,
}

/// An input event, reduced to what the controls look at.
#[derive(Clone, Copy, Debug, PartialEq, Eq, Structural)]
pub enum Event {
    /// The window is asked to close.
    Quit,
    /// The mouse moved by this many pixels; `left` says whether its left
    /// button is held.
    MouseMotion { left: bool, xrel: i32, yrel: i32 },
    /// The wheel turned by `y` notches.
    MouseWheel { y: i32 },
    /// A key went down; `repeat` says whether it is held and repeating.
    KeyDown { key: Key, repeat: bool },
    /// Any other event.
    Other,
}

/// What the caller has to do after an event.
#[derive(Clone, Copy, Debug, PartialEq, Eq, Structural)]
pub enum Action {
    Nothing,
    /// Drag the camera along with the mouse, by this many pixels.
    MoveCamera { x: i32, y: i32 },
    /// Zoom about the mouse position, by one factor for each notch.
    Zoom { notches: i32 },
    /// Let time run faster by one factor.
    Faster,
    /// Let time run slower by one factor.
    Slower,
    /// Forget the trail and start the time anew.
    Restart,
}

/// The switches that input events flip.
#[derive(Clone, Copy, Debug, PartialEq, Eq, Structural)]
pub struct Controls {
    /// Whether the drawing goes on.
    pub running: bool,
    /// Whether the camera follows the traced point. A locked camera is not
    /// dragged by the mouse.
    pub camera_lock: bool,
}

/// The number of nanoseconds in a second.
pub const NANOS_PER_SECOND: u32 = 1_000_000_000;

impl Controls {
    /// The controls after `event`.
    pub open spec fn after(self, event: Event) -> Controls {
        match event {
            Event::Quit => Controls { running: false, camera_lock: self.camera_lock },
            Event::KeyDown { key: Key::L, repeat: false } => Controls {
                running: self.running,
                camera_lock: !self.camera_lock,
            },
            _ => self,
        }
    }

    /// What `event` asks of the caller.
    pub open spec fn action(self, event: Event) -> Action {
        match event {
            Event::MouseMotion { left, xrel, yrel } => if left && !self.camera_lock {
                Action::MoveCamera { x: xrel, y: yrel }
            } else {
                Action::Nothing
            },
            Event::MouseWheel { y } => Action::Zoom { notches: y },
            Event::KeyDown { key, repeat: false } => match key {
                Key::Equals => Action::Faster,
                Key::Minus => Action::Slower,
                Key::R => Action::Restart,
                _ => Action::Nothing,
            },
            _ => Action::Nothing,
        }
    }

    /// Controls of a drawing that has not started, with a free camera.
    pub fn new() -> (controls: Controls)
        ensures
            controls == (Controls { running: false, camera_lock: false }),
    {
        Controls { running: false, camera_lock: false }
    }

    /// Whether the drawing goes on.
    pub fn get_running(&self) -> (running: bool)
        ensures
            running == self.running,
    {
        self.running
    }

    /// Starts or stops the drawing.
    pub fn set_running(&mut self, value: bool)
        ensures
            *final(self) == (Controls { running: value, camera_lock: old(self).camera_lock }),
    {
        self.running = value;
    }

    /// Takes one event: flips the switches that it flips and says what is
    /// left for the caller to do. A repeating key does nothing.
    pub fn handle_event(&mut self, event: Event) -> (action: Action)
        ensures
            *final(self) == old(self).after(event),
            action == old(self).action(event),
    {
        match event {
            Event::Quit => {
                self.running = false;
                Action::Nothing
            },
            Event::MouseMotion { left, xrel, yrel } => {
                if left && !self.camera_lock {
                    Action::MoveCamera { x: xrel, y: yrel }
                } else {
                    Action::Nothing
                }
            },
            Event::MouseWheel { y } => Action::Zoom { notches: y },
            Event::KeyDown { key, repeat } => {
                if repeat {
                    Action::Nothing
                } else {
                    match key {
                        Key::Equals => Action::Faster,
                        Key::Minus => Action::Slower,
                        Key::R => Action::Restart,
                        Key::L => {
                            self.camera_lock = !self.camera_lock;
                            Action::Nothing
                        },
                        Key::Other => Action::Nothing,
                    }
                }
            },
            Event::Other => Action::Nothing,
        }
    }
}

/// The time that one frame is given, in nanoseconds: a second divided by
/// the frame rate, rounded down.
pub open spec fn frame_time(frame_rate: u32) -> int {
    NANOS_PER_SECOND as int / frame_rate as int
}

/// How long to rest after a frame that took `elapsed` nanoseconds, so that
/// frames come `frame_rate` times a second: what is left of the frame's
/// time, and nothing where the frame took longer.
pub fn frame_pause(frame_rate: u32, elapsed: u64) -> (pause: u64)
    requires
        frame_rate > 0,
    ensures
        pause == if elapsed < frame_time(frame_rate) {
            frame_time(frame_rate) - elapsed
        } else {
            0
        },
{
    let delay = (NANOS_PER_SECOND / frame_rate) as u64;
    if elapsed < delay {
        delay - elapsed
    } else {
        0
    }
}

} // verus!

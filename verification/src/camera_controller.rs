//! Which movement keys are held down.

use vstd::prelude::*;

verus! {

/// The keys the free camera listens to, and one value for all others.
#[derive(Copy, Clone, Debug, PartialEq, Eq, Structural)]
pub enum MovementKey {
    KeyS,
    KeyD,
    KeyW,
    KeyA,
    Space,
    ControlLeft,
    Other,
}

/// The direction a held key moves the camera in, in the camera's own frame.
#[derive(Copy, Clone, Debug, PartialEq, Eq, Structural)]
pub enum Direction {
    Forward,
    Right,
    Backward,
    Left,
    Up,
    Down,
}

/// The direction bound to `key`, if any.
pub open spec fn binding(key: MovementKey) -> Option<Direction> {
    match key {
        MovementKey::KeyS => Some(Direction::Forward),
        MovementKey::KeyD => Some(Direction::Left),
        MovementKey::KeyW => Some(Direction::Backward),
        MovementKey::KeyA => Some(Direction::Right),
        MovementKey::Space => Some(Direction::Up),
        MovementKey::ControlLeft => Some(Direction::Down),
        MovementKey::Other => None,
    }
}

/// Tracks, for each direction, whether its key is currently pressed.
#[derive(Copy, Clone, Debug, PartialEq, Eq, Structural)]
pub struct CameraController {
    pub is_forward_pressed: bool,
    pub is_right_pressed: bool,
    pub is_backward_pressed: bool,
    pub is_left_pressed: bool,
    pub is_up_pressed: bool,
    pub is_down_pressed: bool,
}

impl CameraController {
    /// Whether the key of direction `d` is held.
    pub open spec fn held(self, d: Direction) -> bool {
        match d {
            Direction::Forward => self.is_forward_pressed,
            Direction::Right => self.is_right_pressed,
            Direction::Backward => self.is_backward_pressed,
            Direction::Left => self.is_left_pressed,
            Direction::Up => self.is_up_pressed,
            Direction::Down => self.is_down_pressed,
        }
    }

    /// A controller with no key held.
    pub fn new() -> (c: Self)
        ensures
            forall|d: Direction| !c.held(d),
    {
        CameraController {
            is_forward_pressed: false,
            is_right_pressed: false,
            is_backward_pressed: false,
            is_left_pressed: false,
            is_down_pressed: false,
            is_up_pressed: false,
        }
    }

    /// Takes note of a key going down or up. Returns whether the key is one
    /// of the movement keys; any other key changes nothing.
    pub fn process_events(&mut self, key: MovementKey, is_pressed: bool) -> (handled: bool)
        ensures
            handled == binding(key) is Some,
            forall|d: Direction|
                final(self).held(d) == (if binding(key) == Some(d) {
                    is_pressed
                } else {
                    old(self).held(d)
                }),
    {
        match key {
            MovementKey::KeyS => {
                self.is_forward_pressed = is_pressed;
                true
            },
            MovementKey::KeyD => {
                self.is_left_pressed = is_pressed;
                true
            },
            MovementKey::KeyW => {
                self.is_backward_pressed = is_pressed;
                true
            },
            MovementKey::KeyA => {
                self.is_right_pressed = is_pressed;
                true
            },
            MovementKey::Space => {
                self.is_up_pressed = is_pressed;
                true
            },
            MovementKey::ControlLeft => {
                self.is_down_pressed = is_pressed;
                true
            },
            MovementKey::Other => false,
        }
    }
}

} // verus!

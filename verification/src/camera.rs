//! The camera controller: the key-state machine that accumulates input
//! between frames. The floating-point eye movement it drives is applied by
//! the application when it executes the camera-uniform write; the verified
//! state here is which direction keys are held and the configured speed.

use vstd::prelude::*;

verus! {

/// A direction key the controller reacts to.
#[derive(Clone, Copy, Debug, PartialEq, Eq, Structural)]
pub enum CameraKey {
    Forward,
    Backward,
    Left,
    Right,
}

/// Mutable key state plus a configurable movement speed, stored in
/// thousandths of a scene unit per frame.
#[derive(Clone, Copy, Debug, PartialEq, Eq, Structural)]
pub struct CameraController {
    pub speed_milli: u32,
    pub is_forward_pressed: bool,
    pub is_backward_pressed: bool,
    pub is_left_pressed: bool,
    pub is_right_pressed: bool,
}

impl CameraController {
    /// A controller with the given speed and no key held.
    pub fn new(speed_milli: u32) -> (c: CameraController)
        ensures
            c.speed_milli == speed_milli,
            !c.is_forward_pressed,
            !c.is_backward_pressed,
            !c.is_left_pressed,
            !c.is_right_pressed,
    {
        CameraController {
            speed_milli,
            is_forward_pressed: false,
            is_backward_pressed: false,
            is_left_pressed: false,
            is_right_pressed: false,
        }
    }

    /// The controller after recording that `key` is now pressed or released.
    pub open spec fn with_key(self, key: CameraKey, pressed: bool) -> CameraController {
        match key {
            CameraKey::Forward => CameraController { is_forward_pressed: pressed, ..self },
            CameraKey::Backward => CameraController { is_backward_pressed: pressed, ..self },
            CameraKey::Left => CameraController { is_left_pressed: pressed, ..self },
            CameraKey::Right => CameraController { is_right_pressed: pressed, ..self },
        }
    }

    /// Records a key press or release. A recognized direction key is
    /// consumed (the event is handled); anything else never reaches this
    /// controller, so `key` is already one of the four directions.
    pub fn process_events(&mut self, key: CameraKey, pressed: bool) -> (handled: bool)
        ensures
            *final(self) == old(self).with_key(key, pressed),
            handled,
    {
        match key {
            CameraKey::Forward => {
                self.is_forward_pressed = pressed;
            }
            CameraKey::Backward => {
                self.is_backward_pressed = pressed;
            }
            CameraKey::Left => {
                self.is_left_pressed = pressed;
            }
            CameraKey::Right => {
                self.is_right_pressed = pressed;
            }
        }
        true
    }
}

} // verus!

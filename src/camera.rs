use vstd::prelude::*;
use crate::input::Key;

verus! {

/// Which directional keys are held, one flag per direction.
#[derive(Clone, Copy, Debug, PartialEq, Eq, Structural)]
pub struct CameraController {
    pub forward: bool,
    pub backward: bool,
    pub left: bool,
    pub right: bool,
    pub up: bool,
    pub down: bool,
}

/// The translation a camera update applies, in steps along the camera's own
/// axes: each component is -1, 0 or 1. One and the same translation moves both
/// the eye and the target, so the camera's orientation is kept.
#[derive(Clone, Copy, Debug, PartialEq, Eq, Structural)]
pub struct Movement {
    pub forward: i8,
    pub right: i8,
    pub up: i8,
}

/// Net step along one axis from the keys for its two directions.
pub open spec fn axis(positive: bool, negative: bool) -> i8 {
    if positive && !negative {
        1
    } else if negative && !positive {
        -1i8
    } else {
        0
    }
}

fn axis_step(positive: bool, negative: bool) -> (r: i8)
    ensures
        r == axis(positive, negative),
{
    if positive && !negative {
        1
    } else if negative && !positive {
        -1
    } else {
        0
    }
}

impl Movement {
    pub open spec fn is_zero(&self) -> bool {
        self.forward == 0 && self.right == 0 && self.up == 0
    }
}

impl CameraController {
    /// No direction held.
    pub open spec fn idle(&self) -> bool {
        !self.forward && !self.backward && !self.left && !self.right && !self.up && !self.down
    }

    /// The controller after `key` was pressed or released.
    pub open spec fn with_key(self, key: Key, pressed: bool) -> CameraController {
        match key {
            Key::W | Key::ArrowUp => CameraController { forward: pressed, ..self },
            Key::S | Key::ArrowDown => CameraController { backward: pressed, ..self },
            Key::A | Key::ArrowLeft => CameraController { left: pressed, ..self },
            Key::D | Key::ArrowRight => CameraController { right: pressed, ..self },
            Key::Space => CameraController { up: pressed, ..self },
            Key::LeftShift => CameraController { down: pressed, ..self },
            _ => self,
        }
    }

    /// Whether `key` steers the camera.
    pub open spec fn steers(key: Key) -> bool {
        !(key is Q || key is Other)
    }

    /// The translation of one update.
    pub open spec fn spec_movement(&self) -> Movement {
        Movement {
            forward: axis(self.forward, self.backward),
            right: axis(self.right, self.left),
            up: axis(self.up, self.down),
        }
    }

    /// A controller with no key held.
    pub fn new() -> (r: CameraController)
        ensures
            r.idle(),
    {
        CameraController {
            forward: false,
            backward: false,
            left: false,
            right: false,
            up: false,
            down: false,
        }
    }

    /// Records a key press or release; tells whether the key steers the camera.
    pub fn handle_key(&mut self, key: Key, pressed: bool) -> (r: bool)
        ensures
            *final(self) == old(self).with_key(key, pressed),
            r == CameraController::steers(key),
    {
        match key {
            Key::W | Key::ArrowUp => {
                self.forward = pressed;
                true
            },
            Key::S | Key::ArrowDown => {
                self.backward = pressed;
                true
            },
            Key::A | Key::ArrowLeft => {
                self.left = pressed;
                true
            },
            Key::D | Key::ArrowRight => {
                self.right = pressed;
                true
            },
            Key::Space => {
                self.up = pressed;
                true
            },
            Key::LeftShift => {
                self.down = pressed;
                true
            },
            _ => false,
        }
    }

    /// The translation that this frame's camera update applies.
    pub fn movement(&self) -> (r: Movement)
        ensures
            r == self.spec_movement(),
    {
        Movement {
            forward: axis_step(self.forward, self.backward),
            right: axis_step(self.right, self.left),
            up: axis_step(self.up, self.down),
        }
    }
}

} // verus!

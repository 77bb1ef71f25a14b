//! The keyboard side of the fly-camera controller: which movement keys are
//! held down, and the signed movement axes the camera update derives from
//! them. The floating-point integration of speed and frame time stays with
//! the front end.

use vstd::prelude::*;

verus! {

/// The keys the controller reacts to; anything else is `Other`.
#[derive(Clone, Copy, PartialEq, Eq, Structural, Debug)]
pub enum Key {
    W,
    A,
    S,
    D,
    Up,
    Down,
    Left,
    Right,
    Space,
    LShift,
    Other,
}

/// Whether a key steers the camera.
pub open spec fn key_handled(key: Key) -> bool {
    key != Key::Other
}

/// Held-down state of the six movement directions.
#[derive(Clone, Copy, PartialEq, Eq, Structural, Debug)]
pub struct CameraController {
    pub forward_pressed: bool,
    pub backward_pressed: bool,
    pub left_pressed: bool,
    pub right_pressed: bool,
    pub up_pressed: bool,
    pub down_pressed: bool,
}

/// The signed unit amount of an axis with a positive and a negative key.
pub open spec fn spec_axis(positive: bool, negative: bool) -> int {
    (if positive {
        1int
    } else {
        0int
    }) - (if negative {
        1int
    } else {
        0int
    })
}

impl CameraController {
    /// Initially no key is held.
    pub fn new() -> (c: CameraController)
        ensures
            !c.forward_pressed,
            !c.backward_pressed,
            !c.left_pressed,
            !c.right_pressed,
            !c.up_pressed,
            !c.down_pressed,
    {
        CameraController {
            forward_pressed: false,
            backward_pressed: false,
            left_pressed: false,
            right_pressed: false,
            up_pressed: false,
            down_pressed: false,
        }
    }

    /// Records a key going down or up. Returns whether the key was one the
    /// controller reacts to; exactly the direction the key steers takes the
    /// new state and every other direction keeps its state.
    pub fn process_key(&mut self, key: Key, is_pressed: bool) -> (handled: bool)
        ensures
            handled == key_handled(key),
            final (self).forward_pressed == if key == Key::W || key == Key::Up {
                is_pressed
            } else {
                old(self).forward_pressed
            },
            final (self).backward_pressed == if key == Key::S || key == Key::Down {
                is_pressed
            } else {
                old(self).backward_pressed
            },
            final (self).left_pressed == if key == Key::A || key == Key::Left {
                is_pressed
            } else {
                old(self).left_pressed
            },
            final (self).right_pressed == if key == Key::D || key == Key::Right {
                is_pressed
            } else {
                old(self).right_pressed
            },
            final (self).up_pressed == if key == Key::Space {
                is_pressed
            } else {
                old(self).up_pressed
            },
            final (self).down_pressed == if key == Key::LShift {
                is_pressed
            } else {
                old(self).down_pressed
            },
    {
        match key {
            Key::W | Key::Up => {
                self.forward_pressed = is_pressed;
                true
            },
            Key::S | Key::Down => {
                self.backward_pressed = is_pressed;
                true
            },
            Key::A | Key::Left => {
                self.left_pressed = is_pressed;
                true
            },
            Key::D | Key::Right => {
                self.right_pressed = is_pressed;
                true
            },
            Key::Space => {
                self.up_pressed = is_pressed;
                true
            },
            Key::LShift => {
                self.down_pressed = is_pressed;
                true
            },
            Key::Other => false,
        }
    }

    /// Signed amount of movement along the camera's forward axis.
    pub fn forward_axis(&self) -> (a: i8)
        ensures
            a == spec_axis(self.forward_pressed, self.backward_pressed),
    {
        axis(self.forward_pressed, self.backward_pressed)
    }

    /// Signed amount of movement along the camera's right axis.
    pub fn right_axis(&self) -> (a: i8)
        ensures
            a == spec_axis(self.right_pressed, self.left_pressed),
    {
        axis(self.right_pressed, self.left_pressed)
    }

    /// Signed amount of vertical movement.
    pub fn up_axis(&self) -> (a: i8)
        ensures
            a == spec_axis(self.up_pressed, self.down_pressed),
    {
        axis(self.up_pressed, self.down_pressed)
    }
}

/// The signed unit amount of one axis.
fn axis(positive: bool, negative: bool) -> (a: i8)
    ensures
        a == spec_axis(positive, negative),
{
    let p: i8 = if positive {
        1
    } else {
        0
    };
    let n: i8 = if negative {
        1
    } else {
        0
    };
    p - n
}

} // verus!

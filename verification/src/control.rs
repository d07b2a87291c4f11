//! Control state: the boolean intent flags and the aim target that drive
//! a soldier, plus the plain key and mouse-button values that the event
//! boundary hands in for translation.

use vstd::prelude::*;

verus! {

/// A key or button transition.
#[derive(Clone, Copy, PartialEq, Eq, Structural, Debug)]
pub enum KeyState {
    Pressed,
    Released,
}

/// The keyboard keys the soldier listens to.
#[derive(Clone, Copy, PartialEq, Eq, Structural, Debug)]
pub enum Key {
    A,
    D,
    W,
    S,
    Q,
    E,
    X,
    Other,
}

/// The mouse buttons the soldier listens to.
#[derive(Clone, Copy, PartialEq, Eq, Structural, Debug)]
pub enum MouseButton {
    Left,
    Right,
    Other,
}

/// Per-tick control input: intent flags plus the aim target in world
/// coordinates (fixed-point).
#[derive(Clone, Copy, PartialEq, Eq, Structural, Debug)]
pub struct Control {
    pub left: bool,
    pub right: bool,
    pub up: bool,
    pub down: bool,
    pub change: bool,
    pub throw: bool,
    pub prone: bool,
    pub fire: bool,
    pub jets: bool,
    pub mouse_aim_x: i64,
    pub mouse_aim_y: i64,
}

impl Default for Control {
    /// All flags off, aim at the origin.
    fn default() -> (r: Control)
        ensures
            r == (Control {
                left: false,
                right: false,
                up: false,
                down: false,
                change: false,
                throw: false,
                prone: false,
                fire: false,
                jets: false,
                mouse_aim_x: 0,
                mouse_aim_y: 0,
            }),
    {
        Control {
            left: false,
            right: false,
            up: false,
            down: false,
            change: false,
            throw: false,
            prone: false,
            fire: false,
            jets: false,
            mouse_aim_x: 0,
            mouse_aim_y: 0,
        }
    }
}

} // verus!

//! Controller input state and the motor command packet.
use vstd::prelude::*;

verus! {

/// The four directional keys of the pad.
#[derive(Debug, Clone, Copy, PartialEq, Eq, Structural)]
pub struct Dpad {
    pub up_key: bool,
    pub down_key: bool,
    pub left_key: bool,
    pub right_key: bool,
}

impl Dpad {
    /// A pad with no key pressed.
    pub fn new() -> (pad: Dpad)
        ensures
            !pad.up_key,
            !pad.down_key,
            !pad.left_key,
            !pad.right_key,
    {
        Dpad { up_key: false, down_key: false, left_key: false, right_key: false }
    }
}

/// The face, shoulder and stick buttons of the controller.
#[derive(Debug, Clone, Copy, PartialEq, Eq, Structural)]
pub struct Buttons {
    pub circle: bool,
    pub cross: bool,
    pub triangle: bool,
    pub cube: bool,
    pub r1: bool,
    pub r2: bool,
    pub l1: bool,
    pub l2: bool,
    pub left_push: bool,
    pub right_push: bool,
}

impl Buttons {
    /// A button set with no button pressed.
    pub fn new() -> (btns: Buttons)
        ensures
            !btns.circle,
            !btns.cross,
            !btns.triangle,
            !btns.cube,
            !btns.r1,
            !btns.r2,
            !btns.l1,
            !btns.l2,
            !btns.left_push,
            !btns.right_push,
    {
        Buttons {
            circle: false,
            cross: false,
            triangle: false,
            cube: false,
            r1: false,
            r2: false,
            l1: false,
            l2: false,
            left_push: false,
            right_push: false,
        }
    }
}

/// A motor command: the three body axes and two auxiliary motors.
#[derive(Debug, Clone, Copy, PartialEq, Eq, Structural)]
pub struct Packet {
    pub x: i32,
    pub y: i32,
    pub ro: i32,
    pub m1: i32,
    pub m2: i32,
}

impl Packet {
    /// The packet with every value zero.
    pub fn new() -> (p: Packet)
        ensures
            p == (Packet { x: 0, y: 0, ro: 0, m1: 0, m2: 0 }),
    {
        Packet { x: 0, y: 0, ro: 0, m1: 0, m2: 0 }
    }

    /// The packet holding the given values.
    pub fn from_value(x_: i32, y_: i32, ro_: i32, m1_: i32, m2_: i32) -> (p: Packet)
        ensures
            p == (Packet { x: x_, y: y_, ro: ro_, m1: m1_, m2: m2_ }),
    {
        Packet { x: x_, y: y_, ro: ro_, m1: m1_, m2: m2_ }
    }
}

} // verus!

use vstd::prelude::*;
use crate::geometry::{PADDLE_OFFSET, SCALE};

verus! {

/// The two players, and the two goal lines.
#[derive(PartialEq, Eq, Structural, Clone, Copy, Debug)]
pub enum Side {
    Left,
    Right,
}

/// The side facing `s`.
pub open spec fn opposite(s: Side) -> Side {
    match s {
        Side::Left => Side::Right,
        Side::Right => Side::Left,
    }
}

impl Side {
    /// The side facing this one.
    pub fn other(self) -> (r: Side)
        ensures
            r == opposite(self),
    {
        match self {
            Side::Left => Side::Right,
            Side::Right => Side::Left,
        }
    }
}

/// A point or a velocity in the plane, in sub-units (or units per second).
#[derive(PartialEq, Eq, Structural, Clone, Copy, Debug)]
pub struct Vec2 {
    pub x: i64,
    pub y: i64,
}

/// An abstract input that the host reports as held or not.
#[derive(PartialEq, Eq, Structural, Clone, Copy, Debug)]
pub enum Control {
    LeftUp,
    LeftDown,
    RightUp,
    RightDown,
}

/// Which controls are held during one tick.
#[derive(PartialEq, Eq, Structural, Clone, Copy, Debug)]
pub struct HeldControls {
    pub left_up: bool,
    pub left_down: bool,
    pub right_up: bool,
    pub right_down: bool,
}

impl HeldControls {
    /// Whether control `c` is held.
    pub open spec fn held(self, c: Control) -> bool {
        match c {
            Control::LeftUp => self.left_up,
            Control::LeftDown => self.left_down,
            Control::RightUp => self.right_up,
            Control::RightDown => self.right_down,
        }
    }

    /// No control held.
    pub fn none() -> (r: HeldControls)
        ensures
            forall|c: Control| !r.held(c),
    {
        HeldControls { left_up: false, left_down: false, right_up: false, right_down: false }
    }

    /// Whether control `c` is held.
    pub fn is_held(&self, c: Control) -> (r: bool)
        ensures
            r == self.held(c),
    {
        match c {
            Control::LeftUp => self.left_up,
            Control::LeftDown => self.left_down,
            Control::RightUp => self.right_up,
            Control::RightDown => self.right_down,
        }
    }
}

/// The ball: its centre and its velocity.
#[derive(PartialEq, Eq, Structural, Clone, Copy, Debug)]
pub struct Ball {
    pub position: Vec2,
    pub velocity: Vec2,
}

/// A paddle: its player, that player's score, its controls and its centre.
#[derive(PartialEq, Eq, Structural, Clone, Copy, Debug)]
pub struct Paddle {
    pub side: Side,
    pub score: u64,
    pub up: Control,
    pub down: Control,
    pub position: Vec2,
}

/// The horizontal position of the paddle of side `s`, in sub-units.
pub open spec fn paddle_x(s: Side) -> int {
    match s {
        Side::Left => -(PADDLE_OFFSET * SCALE),
        Side::Right => PADDLE_OFFSET * SCALE,
    }
}

impl Paddle {
    /// A paddle of side `side` at the midline, with no points.
    pub fn new(side: Side) -> (r: Paddle)
        ensures
            r.side == side,
            r.score == 0,
            r.position.x == paddle_x(side),
            r.position.y == 0,
            side == Side::Left ==> r.up == Control::LeftUp && r.down == Control::LeftDown,
            side == Side::Right ==> r.up == Control::RightUp && r.down == Control::RightDown,
    {
        match side {
            Side::Left => Paddle {
                side,
                score: 0,
                up: Control::LeftUp,
                down: Control::LeftDown,
                position: Vec2 { x: -(PADDLE_OFFSET * SCALE), y: 0 },
            },
            Side::Right => Paddle {
                side,
                score: 0,
                up: Control::RightUp,
                down: Control::RightDown,
                position: Vec2 { x: PADDLE_OFFSET * SCALE, y: 0 },
            },
        }
    }
}

} // verus!

use vstd::prelude::*;

verus! {

/// Fixed ticks per second; also the number of sub-units in one playfield unit.
pub const SCALE: i64 = 60;

/// Half the playfield width, in playfield units.
pub const HALF_EXTENT_X: i64 = 960;

/// Half the playfield height, in playfield units.
pub const HALF_EXTENT_Y: i64 = 540;

/// Half the side length of the square ball, in playfield units.
pub const HALF_BALL_SIZE: i64 = 10;

/// Speed given to each axis of the ball when it is launched, in units per second.
pub const BALL_SPEED: i64 = 250;

/// Half the paddle width, in playfield units.
pub const HALF_PADDLE_WIDTH: i64 = 10;

/// Half the paddle height, in playfield units.
pub const HALF_PADDLE_HEIGHT: i64 = 80;

/// Horizontal distance of each paddle from the centre, in playfield units.
pub const PADDLE_OFFSET: i64 = 800;

/// Vertical paddle speed, in units per second.
pub const PADDLE_SPEED: i64 = 275;

/// Horizontal speed the ball gains on every paddle hit, in units per second.
pub const SPEED_INCREMENT: i64 = 10;

/// Largest distance of a paddle's centre from the horizontal midline, in sub-units.
pub const PADDLE_LIMIT: i64 = (HALF_EXTENT_Y - HALF_PADDLE_HEIGHT) * SCALE;

/// Distance from the midline beyond which the ball touches a wall, in sub-units.
pub const WALL_LIMIT: i64 = (HALF_EXTENT_Y - HALF_BALL_SIZE) * SCALE;

/// Distance from the centre line beyond which the ball is past a goal line, in sub-units.
pub const GOAL_LIMIT: i64 = (HALF_EXTENT_X - HALF_BALL_SIZE) * SCALE;

/// Horizontal centre distance under which ball and paddle overlap, in sub-units.
pub const REACH_X: i64 = (HALF_BALL_SIZE + HALF_PADDLE_WIDTH) * SCALE;

/// Vertical centre distance under which ball and paddle overlap, in sub-units.
pub const REACH_Y: i64 = (HALF_BALL_SIZE + HALF_PADDLE_HEIGHT) * SCALE;

/// Bound on coordinates and speeds under which a tick cannot overflow.
pub const MAGNITUDE_LIMIT: i64 = 1_000_000_000_000;

/// Absolute value of an integer.
pub open spec fn abs(v: int) -> int {
    if v < 0 { -v } else { v }
}

} // verus!

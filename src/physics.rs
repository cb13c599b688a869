use vstd::prelude::*;
use crate::geometry::{
    abs, GOAL_LIMIT, MAGNITUDE_LIMIT, PADDLE_LIMIT, PADDLE_SPEED, REACH_X, REACH_Y, SPEED_INCREMENT,
    WALL_LIMIT,
};
use crate::state::{Ball, HeldControls, Paddle, Side, Vec2};

verus! {

/// Direction of paddle motion: +1 up, -1 down, 0 for both or neither.
pub open spec fn factor(up: bool, down: bool) -> int {
    (if up { 1int } else { 0int }) - (if down { 1int } else { 0int })
}

/// `y` held within the paddle's range.
pub open spec fn clamp_paddle(y: int) -> int {
    if y > PADDLE_LIMIT { PADDLE_LIMIT as int }
    else if y < -PADDLE_LIMIT { -PADDLE_LIMIT }
    else { y }
}

/// Direction of paddle motion from the two held flags.
pub fn movement_factor(up: bool, down: bool) -> (r: i64)
    ensures
        r == factor(up, down),
{
    let mut f: i64 = 0;
    if up {
        f = f + 1;
    }
    if down {
        f = f - 1;
    }
    f
}

/// Holds a paddle's vertical position within the playfield.
pub fn clamp_paddle_y(y: i64) -> (r: i64)
    ensures
        r == clamp_paddle(y as int),
        abs(r as int) <= PADDLE_LIMIT,
{
    if y > PADDLE_LIMIT {
        PADDLE_LIMIT
    } else if y < -PADDLE_LIMIT {
        -PADDLE_LIMIT
    } else {
        y
    }
}

/// The paddle after one tick of movement under `held`, clamped to its range.
pub open spec fn paddle_moved(p: Paddle, held: HeldControls) -> Paddle {
    Paddle {
        position: Vec2 {
            y: clamp_paddle(p.position.y + factor(held.held(p.up), held.held(p.down)) * PADDLE_SPEED)
                as i64,
            ..p.position
        },
        ..p
    }
}

/// Moves a paddle for one tick from its held controls, then clamps it.
pub fn move_paddle(paddle: &mut Paddle, held: &HeldControls)
    requires
        abs(old(paddle).position.y as int) <= MAGNITUDE_LIMIT,
    ensures
        *final(paddle) == paddle_moved(*old(paddle), *held),
        abs(final(paddle).position.y as int) <= PADDLE_LIMIT,
{
    let f = movement_factor(held.is_held(paddle.up), held.is_held(paddle.down));
    let moved = paddle.position.y + f * PADDLE_SPEED;
    paddle.position.y = clamp_paddle_y(moved);
}

/// The ball moved by its velocity for one tick.
pub open spec fn advanced(b: Ball) -> Ball {
    Ball {
        position: Vec2 {
            x: (b.position.x + b.velocity.x) as i64,
            y: (b.position.y + b.velocity.y) as i64,
        },
        ..b
    }
}

/// Advances the ball by its velocity for one tick.
pub fn move_ball(ball: &mut Ball)
    requires
        abs(old(ball).position.x as int) <= MAGNITUDE_LIMIT,
        abs(old(ball).position.y as int) <= MAGNITUDE_LIMIT,
        abs(old(ball).velocity.x as int) <= MAGNITUDE_LIMIT,
        abs(old(ball).velocity.y as int) <= MAGNITUDE_LIMIT,
    ensures
        *final(ball) == advanced(*old(ball)),
{
    ball.position.x = ball.position.x + ball.velocity.x;
    ball.position.y = ball.position.y + ball.velocity.y;
}

/// Whether a ball centred at height `y` touches the top or bottom wall.
pub open spec fn touches_wall(y: int) -> bool {
    abs(y) > WALL_LIMIT
}

/// The goal line that a ball centred at `x` has crossed, if any.
pub open spec fn crossed_line(x: int) -> Option<Side> {
    if abs(x) > GOAL_LIMIT {
        Some(if x < 0 { Side::Left } else { Side::Right })
    } else {
        None
    }
}

/// The ball with its vertical velocity reflected if it touches a wall.
pub open spec fn bounced(b: Ball) -> Ball {
    if touches_wall(b.position.y as int) {
        Ball { velocity: Vec2 { y: (-b.velocity.y) as i64, ..b.velocity }, ..b }
    } else {
        b
    }
}

/// Reflects the ball off the top or bottom wall, and reports the goal line
/// it is past, if any. The two checks are independent.
pub fn bounce_and_detect(ball: &mut Ball) -> (goal: Option<Side>)
    requires
        abs(old(ball).velocity.y as int) <= MAGNITUDE_LIMIT,
    ensures
        *final(ball) == bounced(*old(ball)),
        goal == crossed_line(old(ball).position.x as int),
{
    let y = ball.position.y;
    if y > WALL_LIMIT || y < -WALL_LIMIT {
        ball.velocity.y = -ball.velocity.y;
    }
    let x = ball.position.x;
    if x > GOAL_LIMIT || x < -GOAL_LIMIT {
        if x < 0 {
            Some(Side::Left)
        } else {
            Some(Side::Right)
        }
    } else {
        None
    }
}

/// Whether a ball centred at `b` and a paddle centred at `p` overlap.
pub open spec fn overlapping(bx: int, by: int, px: int, py: int) -> bool {
    abs(px - bx) < REACH_X && abs(py - by) < REACH_Y
}

/// Horizontal velocity after a paddle hit: the sign is flipped and the speed
/// grows by the increment. A velocity of zero leaves moving left.
pub open spec fn deflected(vx: int) -> int {
    if vx >= 0 { -vx - SPEED_INCREMENT } else { -vx + SPEED_INCREMENT }
}

/// Whether the ball overlaps the paddle.
pub fn overlaps(ball: &Ball, paddle: &Paddle) -> (r: bool)
    requires
        abs(ball.position.x as int) <= 2 * MAGNITUDE_LIMIT,
        abs(ball.position.y as int) <= 2 * MAGNITUDE_LIMIT,
        abs(paddle.position.x as int) <= MAGNITUDE_LIMIT,
        abs(paddle.position.y as int) <= MAGNITUDE_LIMIT,
    ensures
        r == overlapping(
            ball.position.x as int,
            ball.position.y as int,
            paddle.position.x as int,
            paddle.position.y as int,
        ),
{
    let dx = paddle.position.x - ball.position.x;
    let dy = paddle.position.y - ball.position.y;
    let x_near = -REACH_X < dx && dx < REACH_X;
    let y_near = -REACH_Y < dy && dy < REACH_Y;
    x_near && y_near
}

/// The ball after the paddle check: deflected if the two overlap.
pub open spec fn struck(b: Ball, p: Paddle) -> Ball {
    if overlapping(b.position.x as int, b.position.y as int, p.position.x as int, p.position.y as int) {
        Ball { velocity: Vec2 { x: deflected(b.velocity.x as int) as i64, ..b.velocity }, ..b }
    } else {
        b
    }
}

/// Deflects the ball horizontally if it overlaps the paddle. The ball is not
/// moved apart from the paddle.
pub fn collide(ball: &mut Ball, paddle: &Paddle)
    requires
        abs(old(ball).position.x as int) <= 2 * MAGNITUDE_LIMIT,
        abs(old(ball).position.y as int) <= 2 * MAGNITUDE_LIMIT,
        abs(old(ball).velocity.x as int) <= 2 * MAGNITUDE_LIMIT,
        abs(paddle.position.x as int) <= MAGNITUDE_LIMIT,
        abs(paddle.position.y as int) <= MAGNITUDE_LIMIT,
    ensures
        *final(ball) == struck(*old(ball), *paddle),
{
    if overlaps(ball, paddle) {
        let vx = ball.velocity.x;
        ball.velocity.x = if vx >= 0 {
            -vx - SPEED_INCREMENT
        } else {
            -vx + SPEED_INCREMENT
        };
    }
}

} // verus!

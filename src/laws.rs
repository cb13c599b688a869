use vstd::prelude::*;
use crate::game::{raised, stepped, ticked, Game};
use crate::geometry::{abs, BALL_SPEED, GOAL_LIMIT, PADDLE_LIMIT};
use crate::physics::{advanced, overlapping, paddle_moved, struck, touches_wall};
use crate::state::{Ball, HeldControls, Paddle, Vec2};

verus! {

/// The game after the ticks of `moves`, in order; each move is the controls
/// held during the tick and the two launch signs used if a goal is raised.
pub open spec fn played(g: Game, moves: Seq<(HeldControls, bool, bool)>) -> Game
    decreases moves.len(),
{
    if moves.len() == 0 {
        g
    } else {
        let m = moves.last();
        ticked(played(g, moves.drop_last()), m.0, m.1, m.2)
    }
}

/// Wall reflection: when the moved ball touches the top or bottom wall, the
/// tick's stages leave its vertical velocity negated: opposite sign, same
/// magnitude.
pub proof fn wall_reflection(g: Game, held: HeldControls)
    requires
        g.wf(),
        g.within_limits(),
        touches_wall(advanced(g.ball).position.y as int),
    ensures
        stepped(g, held).ball.velocity.y == -g.ball.velocity.y,
        abs(stepped(g, held).ball.velocity.y as int) == abs(g.ball.velocity.y as int),
{
}

/// Paddle clamp: after any non-empty sequence of ticks, whatever the inputs,
/// each paddle's centre is within its vertical range.
pub proof fn paddle_clamp(g: Game, moves: Seq<(HeldControls, bool, bool)>)
    requires
        moves.len() > 0,
    ensures
        abs(played(g, moves).left.position.y as int) <= PADDLE_LIMIT,
        abs(played(g, moves).right.position.y as int) <= PADDLE_LIMIT,
{
    let before = played(g, moves.drop_last());
    let m = moves.last();
    paddle_within_range(before.left, m.0);
    paddle_within_range(before.right, m.0);
}

/// One tick of movement leaves any paddle within its vertical range.
pub proof fn paddle_within_range(p: Paddle, held: HeldControls)
    ensures
        abs(paddle_moved(p, held).position.y as int) <= PADDLE_LIMIT,
{
}

/// Goal side mapping: a ball past the left goal line gives the right player
/// exactly one point, one past the right line gives the left player exactly
/// one, and a tick with no goal changes no score.
pub proof fn goal_side_mapping(g: Game, held: HeldControls, x_positive: bool, y_positive: bool)
    requires
        g.wf(),
        g.within_limits(),
    ensures
        ({
            let x = g.ball.position.x + g.ball.velocity.x;
            let after = ticked(g, held, x_positive, y_positive);
            &&& x < -GOAL_LIMIT ==> after.right.score == g.right.score + 1 && after.left.score
                == g.left.score
            &&& x > GOAL_LIMIT ==> after.left.score == g.left.score + 1 && after.right.score
                == g.right.score
            &&& abs(x) <= GOAL_LIMIT ==> after.left.score == g.left.score && after.right.score
                == g.right.score
        }),
{
}

/// Goal re-launch: right after a goal is resolved the ball is at the centre
/// and each axis of its velocity has exactly the launch speed.
pub proof fn goal_relaunch(g: Game, held: HeldControls, x_positive: bool, y_positive: bool)
    requires
        raised(g) is Some,
    ensures
        ticked(g, held, x_positive, y_positive).ball.position == (Vec2 { x: 0, y: 0 }),
        abs(ticked(g, held, x_positive, y_positive).ball.velocity.x as int) == BALL_SPEED,
        abs(ticked(g, held, x_positive, y_positive).ball.velocity.y as int) == BALL_SPEED,
{
}

/// Collision acceleration: a paddle hit flips the sign of the ball's
/// horizontal velocity and strictly raises its magnitude.
pub proof fn collision_acceleration(b: Ball, p: Paddle)
    requires
        overlapping(
            b.position.x as int,
            b.position.y as int,
            p.position.x as int,
            p.position.y as int,
        ),
        abs(b.velocity.x as int) <= i64::MAX - 10,
    ensures
        abs(struck(b, p).velocity.x as int) > abs(b.velocity.x as int),
        b.velocity.x > 0 ==> struck(b, p).velocity.x < 0,
        b.velocity.x < 0 ==> struck(b, p).velocity.x > 0,
{
}

/// Rest state: a tick with no control held and the ball at rest moves
/// nothing.
pub proof fn rest_state(g: Game, held: HeldControls, x_positive: bool, y_positive: bool)
    requires
        g.wf(),
        g.within_limits(),
        g.ball.velocity == (Vec2 { x: 0, y: 0 }),
        !held.left_up && !held.left_down && !held.right_up && !held.right_down,
    ensures
        ticked(g, held, x_positive, y_positive).ball.position == g.ball.position,
        ticked(g, held, x_positive, y_positive).left.position == g.left.position,
        ticked(g, held, x_positive, y_positive).right.position == g.right.position,
{
}

} // verus!

use vstd::prelude::*;
use crate::geometry::{abs, BALL_SPEED, GOAL_LIMIT, MAGNITUDE_LIMIT, PADDLE_LIMIT};
use crate::physics::{
    advanced, bounce_and_detect, bounced, collide, crossed_line, move_ball, move_paddle,
    paddle_moved, struck,
};
use crate::state::{opposite, paddle_x, Ball, Control, HeldControls, Paddle, Side, Vec2};

verus! {

/// A score-changed notification: a player's score after a goal.
#[derive(PartialEq, Eq, Structural, Clone, Copy, Debug)]
pub struct ScoreChange {
    pub side: Side,
    pub score: u64,
}

/// The whole simulation: one ball and the two paddles.
#[derive(PartialEq, Eq, Structural, Clone, Copy, Debug)]
pub struct Game {
    pub ball: Ball,
    pub left: Paddle,
    pub right: Paddle,
}

/// Launch velocity of one axis: the launch speed, signed by `positive`.
pub open spec fn launch_component(positive: bool) -> int {
    if positive { BALL_SPEED as int } else { -BALL_SPEED }
}

/// `p` with one more point.
pub open spec fn with_point(p: Paddle) -> Paddle {
    Paddle { score: (p.score + 1) as u64, ..p }
}

/// The ball re-centred and launched in the direction given by the two signs.
pub open spec fn launched_ball(x_positive: bool, y_positive: bool) -> Ball {
    Ball {
        position: Vec2 { x: 0, y: 0 },
        velocity: Vec2 {
            x: launch_component(x_positive) as i64,
            y: launch_component(y_positive) as i64,
        },
    }
}

/// The game after the goal at line `crossed`: the ball is re-launched and the
/// player facing that line gains a point.
pub open spec fn relaunched(g: Game, crossed: Side, x_positive: bool, y_positive: bool) -> Game {
    Game {
        ball: launched_ball(x_positive, y_positive),
        left: if opposite(crossed) == Side::Left { with_point(g.left) } else { g.left },
        right: if opposite(crossed) == Side::Right { with_point(g.right) } else { g.right },
    }
}

/// The game after the ordered stages of one tick: movement, wall bounce,
/// then the left and the right paddle check.
pub open spec fn stepped(g: Game, held: HeldControls) -> Game {
    let left = paddle_moved(g.left, held);
    let right = paddle_moved(g.right, held);
    Game { ball: struck(struck(bounced(advanced(g.ball)), left), right), left, right }
}

/// The goal raised during the tick from `g`, if any.
pub open spec fn raised(g: Game) -> Option<Side> {
    crossed_line(g.ball.position.x + g.ball.velocity.x)
}

/// The game after one full tick, the goal (if any) resolved with the given signs.
pub open spec fn ticked(g: Game, held: HeldControls, x_positive: bool, y_positive: bool) -> Game {
    match raised(g) {
        Some(side) => relaunched(stepped(g, held), side, x_positive, y_positive),
        None => stepped(g, held),
    }
}

/// The two score notifications of `g`, left then right.
pub open spec fn score_report(g: Game) -> Seq<ScoreChange> {
    seq![
        ScoreChange { side: Side::Left, score: g.left.score },
        ScoreChange { side: Side::Right, score: g.right.score },
    ]
}

/// Relies on rand::random_ratio with ratio 1/2: a fair coin from the
/// thread-local generator. Nothing is known of the outcome.
#[verifier::external_body]
fn coin_flip() -> (r: bool) {
    rand::random_ratio(1, 2)
}

impl Game {
    /// Each paddle sits on its side with its own controls, within its
    /// vertical range, and the ball is not past a goal line.
    pub open spec fn wf(self) -> bool {
        &&& self.left.side == Side::Left
        &&& self.right.side == Side::Right
        &&& self.left.up == Control::LeftUp
        &&& self.left.down == Control::LeftDown
        &&& self.right.up == Control::RightUp
        &&& self.right.down == Control::RightDown
        &&& self.left.position.x == paddle_x(Side::Left)
        &&& self.right.position.x == paddle_x(Side::Right)
        &&& abs(self.left.position.y as int) <= PADDLE_LIMIT
        &&& abs(self.right.position.y as int) <= PADDLE_LIMIT
        &&& abs(self.ball.position.x as int) <= GOAL_LIMIT
    }

    /// The values are small enough that a tick cannot overflow.
    pub open spec fn within_limits(self) -> bool {
        &&& abs(self.ball.position.y as int) <= MAGNITUDE_LIMIT
        &&& abs(self.ball.velocity.x as int) <= MAGNITUDE_LIMIT
        &&& abs(self.ball.velocity.y as int) <= MAGNITUDE_LIMIT
        &&& self.left.score < u64::MAX
        &&& self.right.score < u64::MAX
    }

    /// The starting state: ball at rest in the centre, paddles on the midline,
    /// no points.
    pub fn new() -> (r: Game)
        ensures
            r.wf(),
            r.within_limits(),
            r.ball == (Ball { position: Vec2 { x: 0, y: 0 }, velocity: Vec2 { x: 0, y: 0 } }),
            r.left.position == (Vec2 { x: paddle_x(Side::Left) as i64, y: 0 }),
            r.right.position == (Vec2 { x: paddle_x(Side::Right) as i64, y: 0 }),
            r.left.score == 0,
            r.right.score == 0,
    {
        Game {
            ball: Ball { position: Vec2 { x: 0, y: 0 }, velocity: Vec2 { x: 0, y: 0 } },
            left: Paddle::new(Side::Left),
            right: Paddle::new(Side::Right),
        }
    }

    /// Gives the ball the launch speed on each axis, with the given signs.
    pub fn launch_with(&mut self, x_positive: bool, y_positive: bool)
        ensures
            final(self).ball.velocity == launched_ball(x_positive, y_positive).velocity,
            final(self).ball.position == old(self).ball.position,
            final(self).left == old(self).left,
            final(self).right == old(self).right,
    {
        self.ball.velocity = Vec2 {
            x: if x_positive { BALL_SPEED } else { -BALL_SPEED },
            y: if y_positive { BALL_SPEED } else { -BALL_SPEED },
        };
    }

    /// Gives the ball the launch speed on each axis, each sign drawn at random.
    pub fn launch(&mut self)
        ensures
            abs(final(self).ball.velocity.x as int) == BALL_SPEED,
            abs(final(self).ball.velocity.y as int) == BALL_SPEED,
            final(self).ball.position == old(self).ball.position,
            final(self).left == old(self).left,
            final(self).right == old(self).right,
    {
        let x_positive = coin_flip();
        let y_positive = coin_flip();
        self.launch_with(x_positive, y_positive);
    }

    /// The two score notifications, left then right.
    pub fn scores(&self) -> (r: Vec<ScoreChange>)
        ensures
            r@ == score_report(*self),
    {
        let mut r: Vec<ScoreChange> = Vec::new();
        r.push(ScoreChange { side: Side::Left, score: self.left.score });
        r.push(ScoreChange { side: Side::Right, score: self.right.score });
        assert(r@ =~= score_report(*self));
        r
    }

    /// Runs the ordered stages of one tick (paddle and ball movement, wall
    /// bounce and goal detection, then the left and the right paddle check) and
    /// returns the goal raised, if any, still to be resolved.
    pub fn step(&mut self, held: &HeldControls) -> (goal: Option<Side>)
        requires
            old(self).wf(),
            old(self).within_limits(),
        ensures
            *final(self) == stepped(*old(self), *held),
            goal == raised(*old(self)),
    {
        move_paddle(&mut self.left, held);
        move_paddle(&mut self.right, held);
        move_ball(&mut self.ball);
        let goal = bounce_and_detect(&mut self.ball);
        collide(&mut self.ball, &self.left);
        collide(&mut self.ball, &self.right);
        goal
    }

    /// Resolves a goal at line `crossed` with the given launch signs: the ball
    /// is re-centred and re-launched, the player facing that line gains a
    /// point, and both scores are reported.
    pub fn resolve_goal(&mut self, crossed: Side, x_positive: bool, y_positive: bool) -> (r: Vec<
        ScoreChange,
    >)
        requires
            old(self).left.score < u64::MAX,
            old(self).right.score < u64::MAX,
        ensures
            *final(self) == relaunched(*old(self), crossed, x_positive, y_positive),
            r@ == score_report(*final(self)),
    {
        self.ball.position = Vec2 { x: 0, y: 0 };
        self.launch_with(x_positive, y_positive);
        match crossed.other() {
            Side::Left => self.left.score = self.left.score + 1,
            Side::Right => self.right.score = self.right.score + 1,
        }
        self.scores()
    }

    /// Resolves a goal at line `crossed`, each launch sign drawn at random.
    pub fn relaunch(&mut self, crossed: Side) -> (r: Vec<ScoreChange>)
        requires
            old(self).left.score < u64::MAX,
            old(self).right.score < u64::MAX,
        ensures
            exists|x_positive: bool, y_positive: bool|
                *final(self) == relaunched(*old(self), crossed, x_positive, y_positive),
            final(self).ball.position == (Vec2 { x: 0, y: 0 }),
            abs(final(self).ball.velocity.x as int) == BALL_SPEED,
            abs(final(self).ball.velocity.y as int) == BALL_SPEED,
            r@ == score_report(*final(self)),
    {
        let x_positive = coin_flip();
        let y_positive = coin_flip();
        self.resolve_goal(crossed, x_positive, y_positive)
    }

    /// One full tick with the given launch signs for a goal: the ordered
    /// stages, then the goal raised, if any, resolved. Returns the score
    /// notifications, none when no goal was raised.
    pub fn tick_with(&mut self, held: &HeldControls, x_positive: bool, y_positive: bool) -> (r: Vec<
        ScoreChange,
    >)
        requires
            old(self).wf(),
            old(self).within_limits(),
        ensures
            *final(self) == ticked(*old(self), *held, x_positive, y_positive),
            final(self).wf(),
            r@ == (if raised(*old(self)) is Some {
                score_report(*final(self))
            } else {
                Seq::empty()
            }),
    {
        match self.step(held) {
            Some(crossed) => self.resolve_goal(crossed, x_positive, y_positive),
            None => Vec::new(),
        }
    }

    /// One full tick: the ordered stages, then the goal raised, if any,
    /// resolved with launch signs drawn at random. Returns the score
    /// notifications, none when no goal was raised.
    pub fn tick(&mut self, held: &HeldControls) -> (r: Vec<ScoreChange>)
        requires
            old(self).wf(),
            old(self).within_limits(),
        ensures
            exists|x_positive: bool, y_positive: bool|
                *final(self) == ticked(*old(self), *held, x_positive, y_positive),
            final(self).wf(),
            r@ == (if raised(*old(self)) is Some {
                score_report(*final(self))
            } else {
                Seq::empty()
            }),
    {
        let ghost start = *self;
        match self.step(held) {
            Some(crossed) => {
                let ghost stages = *self;
                let r = self.relaunch(crossed);
                proof {
                    let (xp, yp) = choose|xp: bool, yp: bool|
                        *self == relaunched(stages, crossed, xp, yp);
                    assert(*self == ticked(start, *held, xp, yp));
                }
                r
            },
            None => {
                assert(*self == ticked(start, *held, true, true));
                Vec::new()
            },
        }
    }
}

} // verus!

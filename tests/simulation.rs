use pong_core::game::{Game, ScoreChange};
use pong_core::geometry::{BALL_SPEED, GOAL_LIMIT, PADDLE_LIMIT, SCALE, WALL_LIMIT};
use pong_core::physics::{
    bounce_and_detect, clamp_paddle_y, collide, move_ball, move_paddle, movement_factor, overlaps,
};
use pong_core::state::{Ball, Control, HeldControls, Paddle, Side, Vec2};

fn up_left() -> HeldControls {
    HeldControls { left_up: true, left_down: false, right_up: false, right_down: false }
}

#[test]
fn ball_past_right_line_scores_for_left() {
    let mut ball = Ball {
        position: Vec2 { x: 1900 * SCALE, y: 0 },
        velocity: Vec2 { x: 150, y: 0 },
    };
    move_ball(&mut ball);
    assert_eq!(ball.position.x, 1900 * SCALE + 150);
    let goal = bounce_and_detect(&mut ball);
    assert_eq!(goal, Some(Side::Right));

    let mut g = Game::new();
    g.ball = ball;
    let report = g.resolve_goal(Side::Right, false, true);
    assert_eq!(g.left.score, 1);
    assert_eq!(g.right.score, 0);
    assert_eq!(g.ball.position, Vec2 { x: 0, y: 0 });
    assert_eq!(g.ball.velocity, Vec2 { x: -BALL_SPEED, y: BALL_SPEED });
    assert_eq!(
        report,
        vec![
            ScoreChange { side: Side::Left, score: 1 },
            ScoreChange { side: Side::Right, score: 0 },
        ]
    );
}

#[test]
fn paddle_near_top_is_clamped() {
    let mut p = Paddle::new(Side::Left);
    p.position.y = 790 * SCALE;
    move_paddle(&mut p, &up_left());
    assert_eq!(p.position.y, 460 * SCALE);
    assert_eq!(p.position.y, PADDLE_LIMIT);
}

#[test]
fn paddle_below_bound_moves_one_step() {
    let mut p = Paddle::new(Side::Left);
    p.position.y = 400 * SCALE;
    move_paddle(&mut p, &up_left());
    // 400 + 275/60 units, in sub-units
    assert_eq!(p.position.y, 400 * SCALE + 275);
}

#[test]
fn paddle_at_bottom_stays_in_range() {
    let mut p = Paddle::new(Side::Right);
    p.position.y = -PADDLE_LIMIT + 100;
    let held = HeldControls { left_up: false, left_down: false, right_up: false, right_down: true };
    move_paddle(&mut p, &held);
    assert_eq!(p.position.y, -PADDLE_LIMIT);
    assert_eq!(p.position.x, 800 * SCALE);
}

#[test]
fn paddle_ignores_other_side_controls() {
    let mut p = Paddle::new(Side::Right);
    move_paddle(&mut p, &up_left());
    assert_eq!(p.position.y, 0);
}

#[test]
fn movement_factor_values() {
    assert_eq!(movement_factor(true, false), 1);
    assert_eq!(movement_factor(false, true), -1);
    assert_eq!(movement_factor(true, true), 0);
    assert_eq!(movement_factor(false, false), 0);
}

#[test]
fn clamp_values() {
    assert_eq!(clamp_paddle_y(PADDLE_LIMIT + 1), PADDLE_LIMIT);
    assert_eq!(clamp_paddle_y(-PADDLE_LIMIT - 1), -PADDLE_LIMIT);
    assert_eq!(clamp_paddle_y(123), 123);
    assert_eq!(clamp_paddle_y(PADDLE_LIMIT), PADDLE_LIMIT);
}

#[test]
fn rest_state_moves_nothing() {
    let mut g = Game::new();
    g.left.position.y = 1000;
    g.right.position.y = -2000;
    g.ball.position = Vec2 { x: 300, y: -400 };
    let before = g;
    let report = g.tick_with(&HeldControls::none(), true, true);
    assert!(report.is_empty());
    assert_eq!(g.ball.position, before.ball.position);
    assert_eq!(g.left.position, before.left.position);
    assert_eq!(g.right.position, before.right.position);
    assert_eq!(g.ball.velocity, Vec2 { x: 0, y: 0 });
}

#[test]
fn ball_reflects_off_top_wall() {
    let mut g = Game::new();
    g.ball.position = Vec2 { x: 0, y: WALL_LIMIT - 10 };
    g.ball.velocity = Vec2 { x: 250, y: 250 };
    let report = g.tick_with(&HeldControls::none(), true, true);
    assert!(report.is_empty());
    assert_eq!(g.ball.position, Vec2 { x: 250, y: WALL_LIMIT + 240 });
    assert_eq!(g.ball.velocity, Vec2 { x: 250, y: -250 });
}

#[test]
fn ball_reflects_off_bottom_wall() {
    let mut ball = Ball {
        position: Vec2 { x: 0, y: -WALL_LIMIT - 1 },
        velocity: Vec2 { x: 0, y: 250 },
    };
    let goal = bounce_and_detect(&mut ball);
    assert_eq!(goal, None);
    assert_eq!(ball.velocity.y, -250);
}

#[test]
fn ball_at_wall_limit_does_not_reflect() {
    let mut ball = Ball {
        position: Vec2 { x: 0, y: WALL_LIMIT },
        velocity: Vec2 { x: 0, y: 250 },
    };
    bounce_and_detect(&mut ball);
    assert_eq!(ball.velocity.y, 250);
}

#[test]
fn corner_bounces_and_raises_goal() {
    let mut ball = Ball {
        position: Vec2 { x: -GOAL_LIMIT - 1, y: WALL_LIMIT + 1 },
        velocity: Vec2 { x: -250, y: 250 },
    };
    let goal = bounce_and_detect(&mut ball);
    assert_eq!(goal, Some(Side::Left));
    assert_eq!(ball.velocity, Vec2 { x: -250, y: -250 });
}

#[test]
fn ball_past_left_line_scores_for_right() {
    let mut g = Game::new();
    g.ball.position = Vec2 { x: -GOAL_LIMIT + 100, y: 0 };
    g.ball.velocity = Vec2 { x: -250, y: 250 };
    let report = g.tick_with(&HeldControls::none(), true, false);
    assert_eq!(g.right.score, 1);
    assert_eq!(g.left.score, 0);
    assert_eq!(g.ball.position, Vec2 { x: 0, y: 0 });
    assert_eq!(g.ball.velocity, Vec2 { x: BALL_SPEED, y: -BALL_SPEED });
    assert_eq!(report.len(), 2);
    assert_eq!(report[1], ScoreChange { side: Side::Right, score: 1 });
}

#[test]
fn random_relaunch_centres_ball_at_launch_speed() {
    let mut g = Game::new();
    g.ball.position = Vec2 { x: GOAL_LIMIT + 5, y: 77 };
    g.ball.velocity = Vec2 { x: 900, y: -250 };
    let report = g.relaunch(Side::Left);
    assert_eq!(g.ball.position, Vec2 { x: 0, y: 0 });
    assert_eq!(g.ball.velocity.x.abs(), BALL_SPEED);
    assert_eq!(g.ball.velocity.y.abs(), BALL_SPEED);
    assert_eq!(g.right.score, 1);
    assert_eq!(report[0], ScoreChange { side: Side::Left, score: 0 });
}

#[test]
fn random_tick_resolves_goal() {
    let mut g = Game::new();
    g.ball.position = Vec2 { x: GOAL_LIMIT - 10, y: 0 };
    g.ball.velocity = Vec2 { x: 250, y: 250 };
    let report = g.tick(&HeldControls::none());
    assert_eq!(g.left.score, 1);
    assert_eq!(g.ball.position, Vec2 { x: 0, y: 0 });
    assert_eq!(g.ball.velocity.x.abs(), BALL_SPEED);
    assert_eq!(report.len(), 2);
}

#[test]
fn launch_gives_launch_speed() {
    let mut g = Game::new();
    g.launch();
    assert_eq!(g.ball.velocity.x.abs(), BALL_SPEED);
    assert_eq!(g.ball.velocity.y.abs(), BALL_SPEED);
    assert_eq!(g.ball.position, Vec2 { x: 0, y: 0 });
    g.launch_with(false, true);
    assert_eq!(g.ball.velocity, Vec2 { x: -250, y: 250 });
}

#[test]
fn collision_flips_and_accelerates() {
    let left = Paddle::new(Side::Left);
    let mut ball = Ball {
        position: Vec2 { x: -800 * SCALE + 1000, y: 5000 },
        velocity: Vec2 { x: -250, y: 40 },
    };
    assert!(overlaps(&ball, &left));
    collide(&mut ball, &left);
    assert_eq!(ball.velocity, Vec2 { x: 260, y: 40 });
    collide(&mut ball, &left);
    assert_eq!(ball.velocity.x, -270);
}

#[test]
fn collision_from_rest_leaves_moving_left() {
    let right = Paddle::new(Side::Right);
    let mut ball = Ball {
        position: Vec2 { x: 800 * SCALE, y: 0 },
        velocity: Vec2 { x: 0, y: 0 },
    };
    collide(&mut ball, &right);
    assert_eq!(ball.velocity.x, -10);
}

#[test]
fn no_collision_at_reach() {
    let left = Paddle::new(Side::Left);
    let mut ball = Ball {
        position: Vec2 { x: -800 * SCALE + 1200, y: 0 },
        velocity: Vec2 { x: -250, y: 0 },
    };
    assert!(!overlaps(&ball, &left));
    collide(&mut ball, &left);
    assert_eq!(ball.velocity.x, -250);
    ball.position = Vec2 { x: -800 * SCALE, y: 5400 };
    assert!(!overlaps(&ball, &left));
    ball.position.y = 5399;
    assert!(overlaps(&ball, &left));
}

#[test]
fn tick_hits_paddle() {
    let mut g = Game::new();
    g.ball.position = Vec2 { x: 800 * SCALE - 1500, y: 0 };
    g.ball.velocity = Vec2 { x: 400, y: 0 };
    g.tick_with(&HeldControls::none(), true, true);
    assert_eq!(g.ball.position.x, 800 * SCALE - 1100);
    assert_eq!(g.ball.velocity.x, -410);
}

#[test]
fn new_game_layout() {
    let g = Game::new();
    assert_eq!(g.left.position, Vec2 { x: -48000, y: 0 });
    assert_eq!(g.right.position, Vec2 { x: 48000, y: 0 });
    assert_eq!(g.left.up, Control::LeftUp);
    assert_eq!(g.right.down, Control::RightDown);
    assert_eq!(g.scores(), vec![
        ScoreChange { side: Side::Left, score: 0 },
        ScoreChange { side: Side::Right, score: 0 },
    ]);
}

#[test]
fn side_other_and_held() {
    assert_eq!(Side::Left.other(), Side::Right);
    assert_eq!(Side::Right.other(), Side::Left);
    assert!(up_left().is_held(Control::LeftUp));
    assert!(!up_left().is_held(Control::RightUp));
}

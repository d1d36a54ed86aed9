use pong_core::ball::{Ball, Heading, HorizDir, VertDir, CENTER_X, CENTER_Y, HEADING_MAX, HEADING_MIN};
use pong_core::game::{Game, PADDLE_LEN};
use pong_core::paddle::{Intent, Paddle, Side};
use pong_core::{ARENA_H, BALL_R, BALL_SPEED, PADDLE_W};

fn left_paddle(position: i64) -> Paddle {
    Paddle { position, length: 50_000, side: Side::Left, intent: Intent::Idle }
}

fn right_paddle(position: i64) -> Paddle {
    Paddle { position, length: 50_000, side: Side::Right, intent: Intent::Idle }
}

fn ball(x: i64, y: i64, quad_h: HorizDir, quad_v: VertDir) -> Ball {
    Ball { x, y, speed: BALL_SPEED, quad_h, quad_v, heading: Heading::Drawn(600) }
}

#[test]
fn paddle_up_saturates_at_top() {
    let mut p = left_paddle(3_000);
    p.up();
    assert_eq!(p.position, 0);
    p.up();
    assert_eq!(p.position, 0);
}

#[test]
fn paddle_down_saturates_at_bottom() {
    let mut p = left_paddle(ARENA_H - 50_000 - 4_000);
    p.down();
    assert_eq!(p.position, ARENA_H - 50_000);
    p.down();
    assert_eq!(p.position, ARENA_H - 50_000);
}

#[test]
fn paddle_plain_steps() {
    let mut p = left_paddle(100_000);
    p.up();
    assert_eq!(p.position, 90_000);
    p.down();
    assert_eq!(p.position, 100_000);
    p.up_slow();
    assert_eq!(p.position, 95_000);
    p.down_slow();
    assert_eq!(p.position, 100_000);
}

#[test]
fn paddle_applies_intent() {
    let mut p = left_paddle(100_000);
    p.intent = Intent::MoveDown;
    p.apply_intent();
    assert_eq!(p.position, 110_000);
    p.intent = Intent::MoveUp;
    p.apply_intent();
    assert_eq!(p.position, 100_000);
}

#[test]
fn idle_intent_never_moves_paddle() {
    let mut p = left_paddle(120_000);
    for _ in 0..10 {
        p.apply_intent();
        assert_eq!(p.position, 120_000);
    }
}

#[test]
fn ball_new_starts_centered() {
    let b = Ball::new();
    assert_eq!(b.x, CENTER_X);
    assert_eq!(b.y, CENTER_Y);
    assert_eq!(b.speed, BALL_SPEED);
    assert!(matches!(b.quad_h, HorizDir::Left | HorizDir::Right));
    assert!(matches!(b.quad_v, VertDir::Up | VertDir::Down));
    match b.heading {
        Heading::Drawn(m) => assert!(HEADING_MIN <= m && m <= HEADING_MAX),
        Heading::Bounced(_) => panic!("a fresh ball carries a drawn heading"),
    }
}

#[test]
fn margins_are_exact() {
    let b = ball(480_000, 100_000, HorizDir::Right, VertDir::Up);
    assert_eq!(b.top_margin(), 92_000);
    assert_eq!(b.bottom_margin(), 192_000);
    assert_eq!(b.left_margin(), 464_000);
    assert_eq!(b.right_margin(), 4_000);
    let p = right_paddle(90_000);
    assert_eq!(b.paddle_pos(&p), 15_000);
}

#[test]
fn top_wall_reflection_is_exact() {
    // top margin 2_000, travel 8_000: up by the margin, down by the excess.
    let mut b = ball(100_000, 10_000, HorizDir::Still, VertDir::Up);
    let mut l = left_paddle(200_000);
    let r = right_paddle(200_000);
    b.update(&mut l, &r, 0, 8_000);
    assert_eq!(b.y, BALL_R + 6_000);
    assert_eq!(b.quad_v, VertDir::Down);
    assert_eq!(b.x, 100_000);
}

#[test]
fn bottom_wall_reflection_is_exact() {
    let mut b = ball(100_000, 290_000, HorizDir::Still, VertDir::Down);
    let mut l = left_paddle(0);
    let r = right_paddle(0);
    b.update(&mut l, &r, 0, 8_000);
    assert_eq!(b.y, (ARENA_H - BALL_R) - 6_000);
    assert_eq!(b.quad_v, VertDir::Up);
}

#[test]
fn vertical_bounce_keeps_horizontal_quadrant() {
    // A wall bounce on a tick that does not reach a paddle plane.
    let mut b = ball(100_000, 10_000, HorizDir::Right, VertDir::Up);
    let mut l = left_paddle(200_000);
    let r = right_paddle(200_000);
    b.update(&mut l, &r, 5_000, 8_000);
    assert_eq!(b.quad_v, VertDir::Down);
    assert_eq!(b.quad_h, HorizDir::Right);
    assert_eq!(b.x, 105_000);
}

#[test]
fn plain_flight_moves_without_bounce() {
    let mut b = ball(100_000, 100_000, HorizDir::Left, VertDir::Down);
    let mut l = left_paddle(200_000);
    let r = right_paddle(200_000);
    b.update(&mut l, &r, 6_000, 4_000);
    assert_eq!(b.x, 94_000);
    assert_eq!(b.y, 104_000);
    assert_eq!(b.quad_h, HorizDir::Left);
    assert_eq!(b.quad_v, VertDir::Down);
}

#[test]
fn right_paddle_hit_bounces_back() {
    // right margin 4_000, travel 8_000, ball within the paddle's span.
    let mut b = ball(480_000, 100_000, HorizDir::Right, VertDir::Still);
    let mut l = left_paddle(100_000);
    let r = right_paddle(90_000);
    b.update(&mut l, &r, 8_000, 0);
    assert_eq!(b.x, 484_000);
    assert_eq!(b.y, 100_000);
    assert_eq!(b.quad_h, HorizDir::Left);
    assert_eq!(b.quad_v, VertDir::Up);
    assert_eq!(b.heading, Heading::Bounced(15_000));
    assert_eq!(b.speed, BALL_SPEED);
}

#[test]
fn right_paddle_hit_below_center_sends_ball_down() {
    let mut b = ball(480_000, 130_000, HorizDir::Right, VertDir::Still);
    let mut l = left_paddle(130_000);
    let r = right_paddle(90_000);
    b.update(&mut l, &r, 8_000, 0);
    assert_eq!(b.quad_v, VertDir::Down);
    assert_eq!(b.heading, Heading::Bounced(-15_000));
}

#[test]
fn left_paddle_hit_bounces_back() {
    // left margin 4_000, travel 8_000, ball within the paddle's span.
    let mut b = ball(20_000, 100_000, HorizDir::Left, VertDir::Still);
    let mut l = left_paddle(100_000);
    let r = right_paddle(200_000);
    b.update(&mut l, &r, 8_000, 0);
    assert_eq!(b.x, 16_000);
    assert_eq!(b.y, 100_000);
    assert_eq!(b.quad_h, HorizDir::Right);
    assert_eq!(b.quad_v, VertDir::Up);
    assert_eq!(b.heading, Heading::Bounced(25_000));
}

#[test]
fn miss_resets_ball_to_center() {
    // Arrival far from the right paddle's span.
    let mut b = ball(480_000, 200_000, HorizDir::Right, VertDir::Still);
    let mut l = left_paddle(200_000);
    let r = right_paddle(0);
    b.update(&mut l, &r, 8_000, 0);
    assert_eq!(b.x, CENTER_X);
    assert_eq!(b.y, CENTER_Y);
    assert_eq!(b.speed, BALL_SPEED);
    assert!(matches!(b.quad_h, HorizDir::Left | HorizDir::Right));
    assert!(matches!(b.quad_v, VertDir::Up | VertDir::Down));
    match b.heading {
        Heading::Drawn(m) => assert!(HEADING_MIN <= m && m <= HEADING_MAX),
        Heading::Bounced(_) => panic!("a reset draws a fresh heading"),
    }
}

#[test]
fn band_edge_counts_as_miss() {
    // Arrival exactly at the extended span's edge is outside it.
    let mut b = ball(484_000, 95_000, HorizDir::Right, VertDir::Still);
    let mut l = left_paddle(95_000);
    let r = right_paddle(100_000);
    b.update(&mut l, &r, 0, 0);
    assert_eq!(b.x, CENTER_X);
    assert_eq!(b.y, CENTER_Y);
}

#[test]
fn just_inside_band_counts_as_hit() {
    let mut b = ball(484_000, 95_001, HorizDir::Right, VertDir::Still);
    let mut l = left_paddle(95_001);
    let r = right_paddle(100_000);
    b.update(&mut l, &r, 0, 0);
    assert_eq!(b.x, 484_000);
    assert_eq!(b.quad_h, HorizDir::Left);
}

#[test]
fn tracking_moves_up_above_dead_zone() {
    // The ball sits above the dead zone (smaller y): the paddle chases
    // it with one slow step up.
    let mut b = ball(100_000, 94_000, HorizDir::Still, VertDir::Still);
    let mut l = left_paddle(100_000);
    let r = right_paddle(100_000);
    b.update(&mut l, &r, 0, 0);
    assert_eq!(l.position, 95_000);
}

#[test]
fn tracking_moves_down_below_dead_zone() {
    let mut b = ball(100_000, 106_000, HorizDir::Still, VertDir::Still);
    let mut l = left_paddle(100_000);
    let r = right_paddle(100_000);
    b.update(&mut l, &r, 0, 0);
    assert_eq!(l.position, 105_000);
}

#[test]
fn tracking_rests_within_dead_zone() {
    let mut b = ball(100_000, 105_000, HorizDir::Still, VertDir::Still);
    let mut l = left_paddle(100_000);
    let r = right_paddle(100_000);
    b.update(&mut l, &r, 0, 0);
    assert_eq!(l.position, 100_000);
    let mut b2 = ball(100_000, 95_000, HorizDir::Still, VertDir::Still);
    b2.update(&mut l, &r, 0, 0);
    assert_eq!(l.position, 100_000);
}

#[test]
fn game_new_lays_out_the_arena() {
    let g = Game::new();
    assert_eq!(g.paddle_one.position, 0);
    assert_eq!(g.paddle_one.length, PADDLE_LEN);
    assert_eq!(g.paddle_one.side, Side::Left);
    assert_eq!(g.paddle_two.position, 0);
    assert_eq!(g.paddle_two.side, Side::Right);
    assert_eq!(g.ball.x, CENTER_X);
    assert_eq!(g.ball.y, CENTER_Y);
}

#[test]
fn human_intent_drives_right_paddle() {
    let mut g = Game::new();
    g.ball = ball(250_000, 150_000, HorizDir::Still, VertDir::Still);
    g.set_human_intent(Intent::MoveDown);
    g.tick(0, 0);
    assert_eq!(g.paddle_two.position, 10_000);
    g.set_human_intent(Intent::Idle);
    g.tick(0, 0);
    assert_eq!(g.paddle_two.position, 10_000);
}

#[test]
fn tick_applies_intent_before_tracking() {
    let mut g = Game::new();
    // The tracked paddle first obeys its own intent (a fast step down to
    // 10_000), then its tracking reaction chases the ball still far
    // below the dead zone with one more slow step down.
    g.ball = ball(250_000, 200_000, HorizDir::Still, VertDir::Still);
    g.paddle_one.intent = Intent::MoveDown;
    g.tick(0, 0);
    assert_eq!(g.paddle_one.position, 15_000);
}

#[test]
fn snapshot_reports_render_geometry() {
    let mut g = Game::new();
    g.ball = ball(100_000, 90_000, HorizDir::Left, VertDir::Up);
    let s = g.snapshot();
    assert_eq!(s.ball_x, 100_000);
    assert_eq!(s.ball_y, 90_000);
    assert_eq!(s.ball_radius, BALL_R);
    assert_eq!(s.one_x, 0);
    assert_eq!(s.one_y, 0);
    assert_eq!(s.one_w, PADDLE_W);
    assert_eq!(s.one_len, PADDLE_LEN);
    assert_eq!(s.two_x, 492_000);
    assert_eq!(s.two_y, 0);
    assert_eq!(s.two_w, PADDLE_W);
    assert_eq!(s.two_len, PADDLE_LEN);
}

#[test]
fn walls_hold_over_many_ticks() {
    let mut g = Game::new();
    g.set_human_intent(Intent::MoveDown);
    for i in 0..600_i64 {
        let dx = (i * 37) % (BALL_SPEED + 1);
        let dy = (i * 53) % (BALL_SPEED + 1);
        g.tick(dx, dy);
        assert!(BALL_R <= g.ball.x && g.ball.x <= 500_000 - BALL_R);
        assert!(BALL_R <= g.ball.y && g.ball.y <= ARENA_H - BALL_R);
        assert!(0 <= g.paddle_one.position && g.paddle_one.position <= ARENA_H - g.paddle_one.length);
        assert!(0 <= g.paddle_two.position && g.paddle_two.position <= ARENA_H - g.paddle_two.length);
    }
}

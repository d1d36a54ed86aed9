//! The arena controller: owns both paddles and the ball, dispatches
//! input commands to the human paddle and drives one fixed-rate
//! simulation tick in the fixed order paddle one, paddle two, ball.

use vstd::prelude::*;
use crate::{ARENA_W, BALL_R, PADDLE_W, BALL_SPEED};
use crate::paddle::{Paddle, Intent, Side};
use crate::ball::{Ball, ball_tick_rel};

verus! {

/// Length of each paddle, in milli-units (50 units).
pub const PADDLE_LEN: i64 = 50_000;

/// The x coordinate of the strip a paddle occupies, from its side.
pub open spec fn side_x(s: Side) -> int {
    match s {
        Side::Left => 0,
        Side::Right => ARENA_W - PADDLE_W,
    }
}

/// A read-only view of one tick's final state, for a renderer: the
/// ball's circle and one rectangle per paddle, all in milli-units.
#[derive(Clone, Copy, Debug, PartialEq, Eq, Structural)]
pub struct Snapshot {
    pub ball_x: i64,
    pub ball_y: i64,
    pub ball_radius: i64,
    pub one_x: i64,
    pub one_y: i64,
    pub one_w: i64,
    pub one_len: i64,
    pub two_x: i64,
    pub two_y: i64,
    pub two_w: i64,
    pub two_len: i64,
}

/// The simulation: paddle one guards the left wall and tracks the ball,
/// paddle two guards the right wall and obeys the human's commands.
pub struct Game {
    pub paddle_one: Paddle,
    pub paddle_two: Paddle,
    pub ball: Ball,
}

impl Game {
    /// A game is well formed when both paddles and the ball are, and
    /// each paddle guards its own wall.
    pub open spec fn wf(&self) -> bool {
        &&& self.paddle_one.wf()
        &&& self.paddle_two.wf()
        &&& self.ball.wf()
        &&& self.paddle_one.side == Side::Left
        &&& self.paddle_two.side == Side::Right
    }

    /// A new game: both paddles at the top of their walls and idle, the
    /// ball at the arena center with a drawn quadrant and heading.
    pub fn new() -> (g: Game)
        ensures
            g.wf(),
            g.paddle_one.position == 0,
            g.paddle_one.length == PADDLE_LEN,
            g.paddle_one.intent == Intent::Idle,
            g.paddle_two.position == 0,
            g.paddle_two.length == PADDLE_LEN,
            g.paddle_two.intent == Intent::Idle,
            g.ball.x == crate::ball::CENTER_X,
            g.ball.y == crate::ball::CENTER_Y,
            g.ball.speed == BALL_SPEED,
            crate::ball::drawn_quad(g.ball.quad_h, g.ball.quad_v),
            g.ball.heading matches crate::ball::Heading::Drawn(m)
                && crate::ball::HEADING_MIN <= m <= crate::ball::HEADING_MAX,
    {
        Game {
            paddle_one: Paddle::new(Side::Left, PADDLE_LEN),
            paddle_two: Paddle::new(Side::Right, PADDLE_LEN),
            ball: Ball::new(),
        }
    }

    /// Set the human paddle's commanded direction: what a directional
    /// key press maps to, and `Idle` for a release or any other key.
    pub fn set_human_intent(&mut self, intent: Intent)
        ensures
            final(self).paddle_two.intent == intent,
            final(self).paddle_two.position == old(self).paddle_two.position,
            final(self).paddle_two.length == old(self).paddle_two.length,
            final(self).paddle_two.side == old(self).paddle_two.side,
            final(self).paddle_one == old(self).paddle_one,
            final(self).ball == old(self).ball,
            old(self).wf() ==> final(self).wf(),
    {
        self.paddle_two.intent = intent;
    }

    /// One simulation tick: paddle one applies its intent, then paddle
    /// two, then the ball updates, folding in paddle one's tracking
    /// reaction. `dx` and `dy` are this tick's velocity component
    /// magnitudes, bounded by the flight speed.
    pub fn tick(&mut self, dx: i64, dy: i64)
        requires
            old(self).wf(),
            0 <= dx <= BALL_SPEED,
            0 <= dy <= BALL_SPEED,
        ensures
            final(self).wf(),
            final(self).paddle_two == old(self).paddle_two.stepped(),
            ball_tick_rel(
                old(self).ball,
                old(self).paddle_one.stepped(),
                old(self).paddle_two.stepped(),
                dx as int,
                dy as int,
                final(self).ball,
                final(self).paddle_one,
            ),
    {
        self.paddle_one.apply_intent();
        self.paddle_two.apply_intent();
        let mut b = self.ball;
        let mut p1 = self.paddle_one;
        b.update(&mut p1, &self.paddle_two, dx, dy);
        self.ball = b;
        self.paddle_one = p1;
    }

    /// The read-only geometry a renderer needs: the ball's circle and
    /// one rectangle per paddle, each at its own wall.
    pub fn snapshot(&self) -> (r: Snapshot)
        requires
            self.wf(),
        ensures
            r.ball_x == self.ball.x,
            r.ball_y == self.ball.y,
            r.ball_radius == BALL_R,
            r.one_x == side_x(self.paddle_one.side),
            r.one_y == self.paddle_one.position,
            r.one_w == PADDLE_W,
            r.one_len == self.paddle_one.length,
            r.two_x == side_x(self.paddle_two.side),
            r.two_y == self.paddle_two.position,
            r.two_w == PADDLE_W,
            r.two_len == self.paddle_two.length,
    {
        Snapshot {
            ball_x: self.ball.x,
            ball_y: self.ball.y,
            ball_radius: BALL_R,
            one_x: paddle_x(&self.paddle_one),
            one_y: self.paddle_one.position,
            one_w: PADDLE_W,
            one_len: self.paddle_one.length,
            two_x: paddle_x(&self.paddle_two),
            two_y: self.paddle_two.position,
            two_w: PADDLE_W,
            two_len: self.paddle_two.length,
        }
    }
}

/// The x coordinate of the strip the given paddle occupies.
fn paddle_x(p: &Paddle) -> (r: i64)
    ensures
        r == side_x(p.side),
{
    match p.side {
        Side::Left => 0,
        Side::Right => ARENA_W - PADDLE_W,
    }
}

} // verus!

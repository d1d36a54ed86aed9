//! The ball and its per-tick update: trajectory integration, wall and
//! paddle collision, bounce bookkeeping and miss handling.
//!
//! The ball's travel angle enters the update only through its velocity
//! components, which the caller computes from the angle and hands in as
//! bounded milli-unit magnitudes (`dx` rightwards or leftwards, `dy`
//! upwards or downwards, the coarse quadrant carrying the signs). The
//! angle itself is carried as a [`Heading`]: either a freshly drawn
//! milliradian value or the hit offset a bounce recorded, from which the
//! caller evaluates the bounce-angle formula.

use vstd::prelude::*;
use crate::{ARENA_W, ARENA_H, BALL_R, PADDLE_W, BALL_SPEED};
use crate::paddle::{Paddle, Intent, pos_stepped_up, pos_stepped_down, STEP_SLOW};
use crate::rng::{draw_quadrant_index, draw_heading_mrad};

verus! {

/// Half-width of the tracking dead zone around the tracked paddle's top
/// edge, in milli-units (5 units).
pub const DEAD_ZONE: i64 = 5_000;

/// How far beyond each paddle end the ball may strike and still count as
/// a hit, in milli-units (5 units).
pub const BAND_PAD: i64 = 5_000;

/// Contact plane of the left paddle: paddle strip plus ball radius.
pub const LEFT_PLANE: i64 = PADDLE_W + BALL_R;

/// Contact plane of the right paddle, measured from the left wall.
pub const RIGHT_PLANE: i64 = ARENA_W - PADDLE_W - BALL_R;

/// Arena center x coordinate, where a reset puts the ball.
pub const CENTER_X: i64 = 250_000;

/// Arena center y coordinate, where a reset puts the ball.
pub const CENTER_Y: i64 = 150_000;

/// Smallest drawable travel angle, in milliradians.
pub const HEADING_MIN: i64 = 500;

/// Largest drawable travel angle, in milliradians. The drawn range stays
/// clear of both the vertical and the near-horizontal shallow angles.
pub const HEADING_MAX: i64 = 1_070;

/// Coarse horizontal travel direction of the ball.
#[derive(Clone, Copy, Debug, PartialEq, Eq, Structural)]
pub enum HorizDir {
    Left,
    Right,
    Still,
}

/// Coarse vertical travel direction of the ball.
#[derive(Clone, Copy, Debug, PartialEq, Eq, Structural)]
pub enum VertDir {
    Up,
    Down,
    Still,
}

/// The datum that determines the ball's travel angle.
///
/// `Drawn` carries an angle in milliradians, freshly drawn at a reset.
/// `Bounced` carries the signed hit offset (milli-units above the struck
/// paddle's center) a paddle bounce recorded; the angle is the
/// bounce-angle formula evaluated on that offset. The trigonometric
/// evaluation of either datum is the caller's, which feeds the resulting
/// velocity components back into [`Ball::update`].
#[derive(Clone, Copy, Debug, PartialEq, Eq, Structural)]
pub enum Heading {
    Drawn(i64),
    Bounced(i64),
}

/// The ball: center position in milli-units, per-flight speed, coarse
/// travel quadrant and the datum of its travel angle.
#[derive(Clone, Copy, Debug, PartialEq, Eq, Structural)]
pub struct Ball {
    pub x: i64,
    pub y: i64,
    pub speed: i64,
    pub quad_h: HorizDir,
    pub quad_v: VertDir,
    pub heading: Heading,
}

/// Remaining distance from the ball's edge to the top wall.
pub open spec fn top_margin_of(y: int) -> int {
    y - BALL_R
}

/// Remaining distance from the ball's edge to the bottom wall.
pub open spec fn bottom_margin_of(y: int) -> int {
    ARENA_H - BALL_R - y
}

/// Remaining distance from the ball's edge to the left contact plane.
pub open spec fn left_margin_of(x: int) -> int {
    x - LEFT_PLANE
}

/// Remaining distance from the ball's edge to the right contact plane.
pub open spec fn right_margin_of(x: int) -> int {
    RIGHT_PLANE - x
}

/// The opposite vertical direction; `Still` stays `Still`.
pub open spec fn flip_vert(v: VertDir) -> VertDir {
    match v {
        VertDir::Up => VertDir::Down,
        VertDir::Down => VertDir::Up,
        VertDir::Still => VertDir::Still,
    }
}

/// The opposite horizontal direction; `Still` stays `Still`.
pub open spec fn flip_horiz(h: HorizDir) -> HorizDir {
    match h {
        HorizDir::Left => HorizDir::Right,
        HorizDir::Right => HorizDir::Left,
        HorizDir::Still => HorizDir::Still,
    }
}

/// Whether a vertical step bounces: the travel reaches or overshoots the
/// wall the ball is moving towards.
pub open spec fn vbounces(y: int, v: VertDir, dy: int) -> bool {
    match v {
        VertDir::Up => dy >= top_margin_of(y),
        VertDir::Down => dy >= bottom_margin_of(y),
        VertDir::Still => false,
    }
}

/// Ball y after one vertical step: plain motion while the wall is out of
/// reach, otherwise travel to the wall and reflection of the excess.
pub open spec fn vstep_y(y: int, v: VertDir, dy: int) -> int {
    match v {
        VertDir::Up => if dy < top_margin_of(y) {
            y - dy
        } else {
            BALL_R + (dy - top_margin_of(y))
        },
        VertDir::Down => if dy < bottom_margin_of(y) {
            y + dy
        } else {
            (ARENA_H - BALL_R) - (dy - bottom_margin_of(y))
        },
        VertDir::Still => y,
    }
}

/// Vertical direction after one vertical step: flipped exactly when the
/// step bounces.
pub open spec fn vstep_dir(y: int, v: VertDir, dy: int) -> VertDir {
    if vbounces(y, v, dy) {
        flip_vert(v)
    } else {
        v
    }
}

/// Whether a ball at height `y` arriving at a paddle's contact plane is
/// struck by a paddle with top edge `ppos` and length `plen`: strictly
/// inside the paddle's span extended by [`BAND_PAD`] on each end.
pub open spec fn in_hit_band(y: int, ppos: int, plen: int) -> bool {
    ppos - BAND_PAD < y && y < ppos + plen + BAND_PAD
}

/// Signed offset of a struck ball above the paddle's center.
pub open spec fn hit_offset(y: int, ppos: int, plen: int) -> int {
    ppos + plen / 2 - y
}

/// Vertical direction a paddle bounce imposes: up when the ball struck
/// above the paddle's center, down otherwise.
pub open spec fn vert_after_hit(off: int) -> VertDir {
    if off > 0 {
        VertDir::Up
    } else {
        VertDir::Down
    }
}

/// The slow-move the tracking paddle is commanded from the ball's
/// height, so that the paddle pursues the ball: an up move when the
/// ball is strictly above the dead zone around the paddle's top edge
/// (y grows downwards, so a smaller y), a down move when strictly below
/// it, none within it.
pub open spec fn tracking_command(ball_y: int, ppos: int) -> Intent {
    if ball_y < ppos - DEAD_ZONE {
        Intent::MoveUp
    } else if ball_y > ppos + DEAD_ZONE {
        Intent::MoveDown
    } else {
        Intent::Idle
    }
}

/// The tracked paddle after obeying a slow-move command.
pub open spec fn slow_moved(p: Paddle, c: Intent) -> Paddle {
    match c {
        Intent::MoveUp => Paddle { position: pos_stepped_up(p.position as int, STEP_SLOW as int) as i64, ..p },
        Intent::MoveDown => Paddle { position: pos_stepped_down(p.position as int, STEP_SLOW as int, p.length as int) as i64, ..p },
        Intent::Idle => p,
    }
}

/// Whether a quadrant pair is one of the four a reset can draw.
pub open spec fn drawn_quad(h: HorizDir, v: VertDir) -> bool {
    &&& (h == HorizDir::Left || h == HorizDir::Right)
    &&& (v == VertDir::Up || v == VertDir::Down)
}

/// Whether a heading datum is well formed: a drawn angle lies in the
/// drawable range.
pub open spec fn heading_wf(h: Heading) -> bool {
    match h {
        Heading::Drawn(m) => HEADING_MIN <= m <= HEADING_MAX,
        Heading::Bounced(_) => true,
    }
}

/// What a reset leaves behind: the ball at the arena center with its
/// speed kept, a quadrant among the four drawable pairs and a freshly
/// drawn in-range heading.
pub open spec fn reset_outcome(b0: Ball, b1: Ball) -> bool {
    &&& b1.x == CENTER_X
    &&& b1.y == CENTER_Y
    &&& b1.speed == b0.speed
    &&& drawn_quad(b1.quad_h, b1.quad_v)
    &&& match b1.heading {
        Heading::Drawn(m) => HEADING_MIN <= m <= HEADING_MAX,
        Heading::Bounced(_) => false,
    }
}

/// The full per-tick relation between a ball before and after
/// [`Ball::update`], with `left` the tracked paddle as handed in, `right`
/// the guarding paddle of the right wall, and `dx`, `dy` the velocity
/// component magnitudes of this tick.
///
/// The tracking reaction reads the ball's height of the previous tick,
/// so it is stated over `b0.y`; the paddle-plane hit test reads the
/// height after the vertical step and, on the left side, the tracked
/// paddle's position after its slow move.
pub open spec fn ball_tick_rel(b0: Ball, left: Paddle, right: Paddle, dx: int, dy: int, b1: Ball, left1: Paddle) -> bool {
    let lt = slow_moved(left, tracking_command(b0.y as int, left.position as int));
    let y1 = vstep_y(b0.y as int, b0.quad_v, dy);
    let v1 = vstep_dir(b0.y as int, b0.quad_v, dy);
    &&& left1 == lt
    &&& b1.speed == b0.speed
    &&& match b0.quad_h {
        HorizDir::Still => {
            &&& b1.x == b0.x
            &&& b1.y == y1
            &&& b1.quad_h == HorizDir::Still
            &&& b1.quad_v == v1
            &&& b1.heading == b0.heading
        },
        HorizDir::Right => {
            if dx < right_margin_of(b0.x as int) {
                &&& b1.x == b0.x + dx
                &&& b1.y == y1
                &&& b1.quad_h == HorizDir::Right
                &&& b1.quad_v == v1
                &&& b1.heading == b0.heading
            } else if in_hit_band(y1, right.position as int, right.length as int) {
                let off = hit_offset(y1, right.position as int, right.length as int);
                &&& b1.x == b0.x - (right_margin_of(b0.x as int) - dx)
                &&& b1.y == y1
                &&& b1.quad_h == HorizDir::Left
                &&& b1.quad_v == vert_after_hit(off)
                &&& match b1.heading {
                    Heading::Bounced(o) => o == off,
                    Heading::Drawn(_) => false,
                }
            } else {
                reset_outcome(b0, b1)
            }
        },
        HorizDir::Left => {
            if dx < left_margin_of(b0.x as int) {
                &&& b1.x == b0.x - dx
                &&& b1.y == y1
                &&& b1.quad_h == HorizDir::Left
                &&& b1.quad_v == v1
                &&& b1.heading == b0.heading
            } else if in_hit_band(y1, lt.position as int, lt.length as int) {
                let off = hit_offset(y1, lt.position as int, lt.length as int);
                &&& b1.x == b0.x + (left_margin_of(b0.x as int) - dx)
                &&& b1.y == y1
                &&& b1.quad_h == HorizDir::Right
                &&& b1.quad_v == vert_after_hit(off)
                &&& match b1.heading {
                    Heading::Bounced(o) => o == off,
                    Heading::Drawn(_) => false,
                }
            } else {
                reset_outcome(b0, b1)
            }
        },
    }
}

impl Ball {
    /// A ball is well formed when its body lies inside the arena, its
    /// speed is the fixed flight speed, it has not passed the contact
    /// plane it travels towards, and its heading datum is well formed.
    pub open spec fn wf(&self) -> bool {
        &&& BALL_R <= self.x <= ARENA_W - BALL_R
        &&& BALL_R <= self.y <= ARENA_H - BALL_R
        &&& self.speed == BALL_SPEED
        &&& (self.quad_h == HorizDir::Right ==> self.x <= RIGHT_PLANE)
        &&& (self.quad_h == HorizDir::Left ==> self.x >= LEFT_PLANE)
        &&& heading_wf(self.heading)
    }

    /// A new ball at the arena center with the fixed flight speed, a
    /// drawn quadrant and a drawn heading.
    pub fn new() -> (b: Ball)
        ensures
            b.wf(),
            b.x == CENTER_X,
            b.y == CENTER_Y,
            b.speed == BALL_SPEED,
            drawn_quad(b.quad_h, b.quad_v),
            b.heading matches Heading::Drawn(m) && HEADING_MIN <= m <= HEADING_MAX,
    {
        let (h, v) = draw_quad();
        Ball {
            x: CENTER_X,
            y: CENTER_Y,
            speed: BALL_SPEED,
            quad_h: h,
            quad_v: v,
            heading: Heading::Drawn(draw_heading_mrad()),
        }
    }

    /// Put the ball back at the arena center with a fresh quadrant and
    /// heading, keeping its speed: the reaction to a missed paddle.
    pub fn reset(&mut self)
        ensures
            reset_outcome(*old(self), *final(self)),
            old(self).speed == BALL_SPEED ==> final(self).wf(),
    {
        let (h, v) = draw_quad();
        self.x = CENTER_X;
        self.y = CENTER_Y;
        self.quad_h = h;
        self.quad_v = v;
        self.heading = Heading::Drawn(draw_heading_mrad());
    }

    /// Remaining distance from the ball's edge to the top wall.
    pub fn top_margin(&self) -> (r: i64)
        requires
            self.wf(),
        ensures
            r == top_margin_of(self.y as int),
    {
        self.y - BALL_R
    }

    /// Remaining distance from the ball's edge to the bottom wall.
    pub fn bottom_margin(&self) -> (r: i64)
        requires
            self.wf(),
        ensures
            r == bottom_margin_of(self.y as int),
    {
        ARENA_H - BALL_R - self.y
    }

    /// Remaining distance from the ball's edge to the left contact plane.
    pub fn left_margin(&self) -> (r: i64)
        requires
            self.wf(),
        ensures
            r == left_margin_of(self.x as int),
    {
        self.x - LEFT_PLANE
    }

    /// Remaining distance from the ball's edge to the right contact plane.
    pub fn right_margin(&self) -> (r: i64)
        requires
            self.wf(),
        ensures
            r == right_margin_of(self.x as int),
    {
        RIGHT_PLANE - self.x
    }

    /// Signed offset of the ball above the given paddle's center.
    pub fn paddle_pos(&self, pad: &Paddle) -> (r: i64)
        requires
            self.wf(),
            pad.wf(),
        ensures
            r == hit_offset(self.y as int, pad.position as int, pad.length as int),
    {
        pad.position + pad.length / 2 - self.y
    }

    /// One simulation tick of the ball.
    ///
    /// `left` is the tracked paddle guarding the left wall; it receives
    /// this tick's slow-move command as a side effect. `right` guards the
    /// right wall and is only read. `dx` and `dy` are the magnitudes of
    /// this tick's velocity components in milli-units, bounded by the
    /// flight speed; the coarse quadrant carries their signs.
    #[verifier::rlimit(60)]
    pub fn update(&mut self, left: &mut Paddle, right: &Paddle, dx: i64, dy: i64)
        requires
            old(self).wf(),
            old(left).wf(),
            right.wf(),
            0 <= dx <= BALL_SPEED,
            0 <= dy <= BALL_SPEED,
        ensures
            final(self).wf(),
            final(left).wf(),
            ball_tick_rel(*old(self), *old(left), *right, dx as int, dy as int, *final(self), *final(left)),
    {
        // Tracking reaction to the previous tick's ball height: chase
        // the ball when it sits outside the dead zone.
        if self.y < left.position - DEAD_ZONE {
            left.up_slow();
        } else if self.y > left.position + DEAD_ZONE {
            left.down_slow();
        }

        // Vertical motion and wall bounce.
        match self.quad_v {
            VertDir::Up => {
                let tm = self.y - BALL_R;
                if dy < tm {
                    self.y = self.y - dy;
                } else {
                    self.y = BALL_R + (dy - tm);
                    self.quad_v = VertDir::Down;
                }
            },
            VertDir::Down => {
                let bm = (ARENA_H - BALL_R) - self.y;
                if dy < bm {
                    self.y = self.y + dy;
                } else {
                    self.y = (ARENA_H - BALL_R) - (dy - bm);
                    self.quad_v = VertDir::Up;
                }
            },
            VertDir::Still => {},
        }

        // Horizontal motion, paddle bounce and miss handling.
        match self.quad_h {
            HorizDir::Right => {
                let rm = RIGHT_PLANE - self.x;
                if dx < rm {
                    self.x = self.x + dx;
                } else {
                    if right.position - BAND_PAD < self.y && self.y < right.position + right.length + BAND_PAD {
                        self.x = self.x - (rm - dx);
                        let off = right.position + right.length / 2 - self.y;
                        self.quad_v = if off > 0 { VertDir::Up } else { VertDir::Down };
                        self.quad_h = HorizDir::Left;
                        self.heading = Heading::Bounced(off);
                    } else {
                        self.reset();
                    }
                }
            },
            HorizDir::Left => {
                let lm = self.x - LEFT_PLANE;
                if dx < lm {
                    self.x = self.x - dx;
                } else {
                    if left.position - BAND_PAD < self.y && self.y < left.position + left.length + BAND_PAD {
                        self.x = self.x + (lm - dx);
                        let off = left.position + left.length / 2 - self.y;
                        self.quad_v = if off > 0 { VertDir::Up } else { VertDir::Down };
                        self.quad_h = HorizDir::Right;
                        self.heading = Heading::Bounced(off);
                    } else {
                        self.reset();
                    }
                }
            },
            HorizDir::Still => {},
        }
    }
}

/// A well-formed ball never penetrates a wall: its x stays within
/// `[BALL_R, ARENA_W - BALL_R]` and its y within
/// `[BALL_R, ARENA_H - BALL_R]`.
pub proof fn lemma_ball_in_arena(b: Ball)
    requires
        b.wf(),
    ensures
        BALL_R <= b.x <= ARENA_W - BALL_R,
        BALL_R <= b.y <= ARENA_H - BALL_R,
{
}

/// A tick whose travel does not reach the contact plane of the side the
/// ball moves towards leaves the horizontal quadrant unchanged, and its
/// vertical step flips the vertical quadrant exactly when it bounces off
/// a wall.
pub proof fn lemma_wall_bounce_flips_vertical_only(b0: Ball, left: Paddle, right: Paddle, dx: int, dy: int, b1: Ball, left1: Paddle)
    requires
        ball_tick_rel(b0, left, right, dx, dy, b1, left1),
        b0.quad_h == HorizDir::Right ==> dx < right_margin_of(b0.x as int),
        b0.quad_h == HorizDir::Left ==> dx < left_margin_of(b0.x as int),
    ensures
        b1.quad_h == b0.quad_h,
        b1.quad_v == vstep_dir(b0.y as int, b0.quad_v, dy),
        vbounces(b0.y as int, b0.quad_v, dy) ==> b1.quad_v == flip_vert(b0.quad_v),
        !vbounces(b0.y as int, b0.quad_v, dy) ==> b1.quad_v == b0.quad_v,
{
}

/// A paddle bounce flips the horizontal quadrant; on the ticks where the
/// vertical direction the hit imposes agrees with the one the vertical
/// step produced, the bounce leaves the vertical quadrant as the
/// vertical step left it.
pub proof fn lemma_paddle_bounce_flips_horizontal(b0: Ball, left: Paddle, right: Paddle, dx: int, dy: int, b1: Ball, left1: Paddle)
    requires
        ball_tick_rel(b0, left, right, dx, dy, b1, left1),
        b0.quad_h == HorizDir::Right || b0.quad_h == HorizDir::Left,
        b0.quad_h == HorizDir::Right ==> dx >= right_margin_of(b0.x as int)
            && in_hit_band(vstep_y(b0.y as int, b0.quad_v, dy), right.position as int, right.length as int)
            && vert_after_hit(hit_offset(vstep_y(b0.y as int, b0.quad_v, dy), right.position as int, right.length as int))
                == vstep_dir(b0.y as int, b0.quad_v, dy),
        b0.quad_h == HorizDir::Left ==> dx >= left_margin_of(b0.x as int)
            && in_hit_band(
                vstep_y(b0.y as int, b0.quad_v, dy),
                slow_moved(left, tracking_command(b0.y as int, left.position as int)).position as int,
                slow_moved(left, tracking_command(b0.y as int, left.position as int)).length as int,
            )
            && vert_after_hit(hit_offset(
                vstep_y(b0.y as int, b0.quad_v, dy),
                slow_moved(left, tracking_command(b0.y as int, left.position as int)).position as int,
                slow_moved(left, tracking_command(b0.y as int, left.position as int)).length as int,
            )) == vstep_dir(b0.y as int, b0.quad_v, dy),
    ensures
        b1.quad_h == flip_horiz(b0.quad_h),
        b1.quad_v == vstep_dir(b0.y as int, b0.quad_v, dy),
{
}

/// The exact shape of a reflection off the top wall: when the ball
/// travels up and its vertical travel `dy` exceeds the remaining top
/// margin, the new y is the old one moved up by the margin and back down
/// by the excess, and the vertical quadrant becomes down.
pub proof fn lemma_top_wall_reflection(y: int, dy: int)
    requires
        top_margin_of(y) < dy,
    ensures
        vstep_y(y, VertDir::Up, dy) == y - (top_margin_of(y) - (dy - top_margin_of(y))),
        vstep_dir(y, VertDir::Up, dy) == VertDir::Down,
{
}

/// The mirror of [`lemma_top_wall_reflection`] for the bottom wall: the
/// new y is the old one moved down by the remaining bottom margin and
/// back up by the excess, and the vertical quadrant becomes up.
pub proof fn lemma_bottom_wall_reflection(y: int, dy: int)
    requires
        bottom_margin_of(y) < dy,
    ensures
        vstep_y(y, VertDir::Down, dy) == y + (bottom_margin_of(y) - (dy - bottom_margin_of(y))),
        vstep_dir(y, VertDir::Down, dy) == VertDir::Up,
{
}

/// A paddle-plane arrival with the ball outside the paddle's extended
/// span resets the ball: it ends at the arena center with its speed
/// kept, a quadrant among the four drawable pairs and a freshly drawn
/// in-range heading.
pub proof fn lemma_miss_resets(b0: Ball, left: Paddle, right: Paddle, dx: int, dy: int, b1: Ball, left1: Paddle)
    requires
        ball_tick_rel(b0, left, right, dx, dy, b1, left1),
        b0.quad_h == HorizDir::Right || b0.quad_h == HorizDir::Left,
        b0.quad_h == HorizDir::Right ==> dx >= right_margin_of(b0.x as int)
            && !in_hit_band(vstep_y(b0.y as int, b0.quad_v, dy), right.position as int, right.length as int),
        b0.quad_h == HorizDir::Left ==> dx >= left_margin_of(b0.x as int)
            && !in_hit_band(
                vstep_y(b0.y as int, b0.quad_v, dy),
                slow_moved(left, tracking_command(b0.y as int, left.position as int)).position as int,
                slow_moved(left, tracking_command(b0.y as int, left.position as int)).length as int,
            ),
    ensures
        reset_outcome(b0, b1),
        b1.x == CENTER_X,
        b1.y == CENTER_Y,
{
}

/// A paddle-plane arrival with the ball inside the right paddle's
/// extended span bounces instead of resetting: the ball keeps the y the
/// vertical step gave it, its x moves by the travel less the margin and
/// in particular never lands on the arena center, the horizontal
/// quadrant flips to the left and the heading records the hit offset.
pub proof fn lemma_hit_right_bounces(b0: Ball, left: Paddle, right: Paddle, dx: int, dy: int, b1: Ball, left1: Paddle)
    requires
        ball_tick_rel(b0, left, right, dx, dy, b1, left1),
        b0.wf(),
        0 <= dx <= BALL_SPEED,
        b0.quad_h == HorizDir::Right,
        dx >= right_margin_of(b0.x as int),
        in_hit_band(vstep_y(b0.y as int, b0.quad_v, dy), right.position as int, right.length as int),
    ensures
        b1.y == vstep_y(b0.y as int, b0.quad_v, dy),
        b1.x == b0.x - (right_margin_of(b0.x as int) - dx),
        b1.x != CENTER_X,
        b1.quad_h == HorizDir::Left,
        b1.quad_v == vert_after_hit(hit_offset(vstep_y(b0.y as int, b0.quad_v, dy), right.position as int, right.length as int)),
        b1.heading == Heading::Bounced(hit_offset(vstep_y(b0.y as int, b0.quad_v, dy), right.position as int, right.length as int) as i64),
{
}

/// The mirror of [`lemma_hit_right_bounces`] for the left paddle, whose
/// span is read after its tracking slow move of the same tick.
pub proof fn lemma_hit_left_bounces(b0: Ball, left: Paddle, right: Paddle, dx: int, dy: int, b1: Ball, left1: Paddle)
    requires
        ball_tick_rel(b0, left, right, dx, dy, b1, left1),
        b0.wf(),
        0 <= dx <= BALL_SPEED,
        b0.quad_h == HorizDir::Left,
        dx >= left_margin_of(b0.x as int),
        in_hit_band(
            vstep_y(b0.y as int, b0.quad_v, dy),
            slow_moved(left, tracking_command(b0.y as int, left.position as int)).position as int,
            slow_moved(left, tracking_command(b0.y as int, left.position as int)).length as int,
        ),
    ensures
        b1.y == vstep_y(b0.y as int, b0.quad_v, dy),
        b1.x == b0.x + (left_margin_of(b0.x as int) - dx),
        b1.x != CENTER_X,
        b1.quad_h == HorizDir::Right,
        b1.quad_v == vert_after_hit(hit_offset(
            vstep_y(b0.y as int, b0.quad_v, dy),
            slow_moved(left, tracking_command(b0.y as int, left.position as int)).position as int,
            slow_moved(left, tracking_command(b0.y as int, left.position as int)).length as int,
        )),
        b1.heading == Heading::Bounced(hit_offset(
            vstep_y(b0.y as int, b0.quad_v, dy),
            slow_moved(left, tracking_command(b0.y as int, left.position as int)).position as int,
            slow_moved(left, tracking_command(b0.y as int, left.position as int)).length as int,
        ) as i64),
{
}

/// The tracking dead zone: a ball strictly above the zone around the
/// tracked paddle's top edge (y grows downwards, so a smaller y)
/// commands an up slow move, strictly below it a down slow move, and
/// within it no move at all — the paddle always moves towards the ball.
pub proof fn lemma_tracking_dead_zone(ball_y: int, p: Paddle)
    requires
        p.wf(),
    ensures
        ball_y < p.position - DEAD_ZONE ==> slow_moved(p, tracking_command(ball_y, p.position as int)).position
            == pos_stepped_up(p.position as int, STEP_SLOW as int),
        ball_y > p.position + DEAD_ZONE ==> slow_moved(p, tracking_command(ball_y, p.position as int)).position
            == pos_stepped_down(p.position as int, STEP_SLOW as int, p.length as int),
        p.position - DEAD_ZONE <= ball_y <= p.position + DEAD_ZONE
            ==> slow_moved(p, tracking_command(ball_y, p.position as int)) == p,
{
}

/// A drawn quadrant: one of the four pairs of a horizontal and a
/// vertical travel direction, each pair equally likely.
fn draw_quad() -> (r: (HorizDir, VertDir))
    ensures
        drawn_quad(r.0, r.1),
{
    let idx = draw_quadrant_index();
    if idx == 0 {
        (HorizDir::Left, VertDir::Up)
    } else if idx == 1 {
        (HorizDir::Left, VertDir::Down)
    } else if idx == 2 {
        (HorizDir::Right, VertDir::Up)
    } else {
        (HorizDir::Right, VertDir::Down)
    }
}

} // verus!

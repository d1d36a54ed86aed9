//! A paddle: a vertically sliding bar flush against one arena wall.
//!
//! A paddle holds its top-edge y coordinate, its length, the wall it
//! guards and its currently commanded direction. Every move saturates at
//! the arena bounds instead of failing, so a well-formed paddle can never
//! leave the arena.

use vstd::prelude::*;
use crate::ARENA_H;

verus! {

/// Step of a directly commanded move, in milli-units per tick (10 units).
pub const STEP_FAST: i64 = 10_000;

/// Step of a slow tracking move, in milli-units per tick (5 units).
pub const STEP_SLOW: i64 = 5_000;

/// A commanded direction for a paddle.
#[derive(Clone, Copy, Debug, PartialEq, Eq, Structural)]
pub enum Intent {
    MoveUp,
    MoveDown,
    Idle,
}

/// The wall a paddle guards.
#[derive(Clone, Copy, Debug, PartialEq, Eq, Structural)]
pub enum Side {
    Left,
    Right,
}

/// A paddle. `position` is the y coordinate of its top edge in
/// milli-units; the body spans `position ..= position + length`.
#[derive(Clone, Copy, Debug, PartialEq, Eq, Structural)]
pub struct Paddle {
    pub position: i64,
    pub length: i64,
    pub side: Side,
    pub intent: Intent,
}

/// Position after a move of `step` towards the top wall, saturating at 0.
pub open spec fn pos_stepped_up(pos: int, step: int) -> int {
    if pos >= step {
        pos - step
    } else {
        0
    }
}

/// Position after a move of `step` towards the bottom wall, saturating at
/// `ARENA_H - length`.
pub open spec fn pos_stepped_down(pos: int, step: int, length: int) -> int {
    if pos + step <= ARENA_H - length {
        pos + step
    } else {
        ARENA_H - length
    }
}

impl Paddle {
    /// A paddle is well formed when it lies entirely inside the arena.
    pub open spec fn wf(&self) -> bool {
        &&& 0 <= self.length <= ARENA_H
        &&& 0 <= self.position <= ARENA_H - self.length
    }

    /// The paddle this one becomes when it applies its own intent:
    /// a fast step in the commanded direction, or no change when idle.
    pub open spec fn stepped(self) -> Paddle {
        match self.intent {
            Intent::MoveUp => Paddle { position: pos_stepped_up(self.position as int, STEP_FAST as int) as i64, ..self },
            Intent::MoveDown => Paddle { position: pos_stepped_down(self.position as int, STEP_FAST as int, self.length as int) as i64, ..self },
            Intent::Idle => self,
        }
    }

    /// A new paddle at the top of the given wall, idle.
    pub fn new(side: Side, length: i64) -> (p: Paddle)
        requires
            0 <= length <= ARENA_H,
        ensures
            p.wf(),
            p.position == 0,
            p.length == length,
            p.side == side,
            p.intent == Intent::Idle,
    {
        Paddle { position: 0, length, side, intent: Intent::Idle }
    }

    /// Move one fast step towards the top wall, never past it.
    pub fn up(&mut self)
        requires
            old(self).wf(),
        ensures
            final(self).wf(),
            final(self).position == pos_stepped_up(old(self).position as int, STEP_FAST as int),
            final(self).length == old(self).length,
            final(self).side == old(self).side,
            final(self).intent == old(self).intent,
    {
        if self.position >= STEP_FAST {
            self.position = self.position - STEP_FAST;
        } else {
            self.position = 0;
        }
    }

    /// Move one fast step towards the bottom wall, never past it.
    pub fn down(&mut self)
        requires
            old(self).wf(),
        ensures
            final(self).wf(),
            final(self).position == pos_stepped_down(old(self).position as int, STEP_FAST as int, old(self).length as int),
            final(self).length == old(self).length,
            final(self).side == old(self).side,
            final(self).intent == old(self).intent,
    {
        if self.position + STEP_FAST <= ARENA_H - self.length {
            self.position = self.position + STEP_FAST;
        } else {
            self.position = ARENA_H - self.length;
        }
    }

    /// Move one slow tracking step towards the top wall, never past it.
    pub fn up_slow(&mut self)
        requires
            old(self).wf(),
        ensures
            final(self).wf(),
            final(self).position == pos_stepped_up(old(self).position as int, STEP_SLOW as int),
            final(self).length == old(self).length,
            final(self).side == old(self).side,
            final(self).intent == old(self).intent,
    {
        if self.position >= STEP_SLOW {
            self.position = self.position - STEP_SLOW;
        } else {
            self.position = 0;
        }
    }

    /// Move one slow tracking step towards the bottom wall, never past it.
    pub fn down_slow(&mut self)
        requires
            old(self).wf(),
        ensures
            final(self).wf(),
            final(self).position == pos_stepped_down(old(self).position as int, STEP_SLOW as int, old(self).length as int),
            final(self).length == old(self).length,
            final(self).side == old(self).side,
            final(self).intent == old(self).intent,
    {
        if self.position + STEP_SLOW <= ARENA_H - self.length {
            self.position = self.position + STEP_SLOW;
        } else {
            self.position = ARENA_H - self.length;
        }
    }

    /// Apply the paddle's own commanded intent for one tick.
    pub fn apply_intent(&mut self)
        requires
            old(self).wf(),
        ensures
            final(self).wf(),
            *final(self) == old(self).stepped(),
    {
        match self.intent {
            Intent::MoveUp => self.up(),
            Intent::MoveDown => self.down(),
            Intent::Idle => (),
        }
    }
}

/// The paddle after `n` ticks in which it applies its own intent.
pub open spec fn paddle_after_ticks(p: Paddle, n: nat) -> Paddle
    decreases n,
{
    if n == 0 {
        p
    } else {
        paddle_after_ticks(p, (n - 1) as nat).stepped()
    }
}

/// A well-formed paddle always lies within the arena: its top edge stays
/// within `[0, ARENA_H - length]`.
pub proof fn lemma_paddle_in_bounds(p: Paddle)
    requires
        p.wf(),
    ensures
        0 <= p.position <= ARENA_H - p.length,
{
}

/// Moving further towards the top wall from the top is a no-op: a step
/// up from position 0 leaves the position at 0.
pub proof fn lemma_saturated_up_noop(p: Paddle, step: int)
    requires
        p.wf(),
        p.position == 0,
        0 <= step,
    ensures
        pos_stepped_up(p.position as int, step) == p.position,
{
}

/// Moving further towards the bottom wall from the bottom is a no-op: a
/// step down from position `ARENA_H - length` leaves the position there.
pub proof fn lemma_saturated_down_noop(p: Paddle, step: int)
    requires
        p.wf(),
        p.position == ARENA_H - p.length,
        0 <= step,
    ensures
        pos_stepped_down(p.position as int, step, p.length as int) == p.position,
{
}

/// Feeding an idle intent to a paddle for any number of consecutive
/// ticks never changes it.
pub proof fn lemma_idle_ticks_change_nothing(p: Paddle, n: nat)
    requires
        p.intent == Intent::Idle,
    ensures
        paddle_after_ticks(p, n) == p,
    decreases n,
{
    if n > 0 {
        lemma_idle_ticks_change_nothing(p, (n - 1) as nat);
    }
}

} // verus!

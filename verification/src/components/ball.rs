//! The ball: a velocity and a fixed radius. Its position is kept beside it, by the game.
use vstd::prelude::*;

use crate::fixed::{negate, negation, symmetric, Vec2};

verus! {

/// Radius of the canonical ball: 4 units.
pub const BALL_RADIUS: i64 = 4_000_000;

/// Horizontal velocity of the canonical ball at the start of a game: 60 units per second.
pub const BALL_VELOCITY_X: i64 = 60_000_000;

/// Vertical velocity of the canonical ball at the start of a game.
pub const BALL_VELOCITY_Y: i64 = 0;

#[derive(Clone, Copy, Debug, PartialEq, Eq, Structural)]
pub struct Ball {
    /// Rate of change of the ball's position, in units per second.
    pub velocity: Vec2,
    /// Never written after creation.
    pub radius: i64,
}

impl Ball {
    /// A ball is well formed when its radius is not negative and both components of its
    /// velocity have an exact opposite.
    pub open spec fn wf(&self) -> bool {
        &&& self.radius >= 0
        &&& symmetric(self.velocity.x)
        &&& symmetric(self.velocity.y)
    }

    /// Whether the ball is well formed.
    pub fn is_valid(&self) -> (valid: bool)
        ensures
            valid == self.wf(),
    {
        self.radius >= 0 && self.velocity.x > i64::MIN && self.velocity.y > i64::MIN
    }

    /// The ball of the canonical game as it starts, moving to the right.
    pub open spec fn canonical() -> Ball {
        Ball { velocity: Vec2 { x: BALL_VELOCITY_X, y: BALL_VELOCITY_Y }, radius: BALL_RADIUS }
    }

    /// The canonical ball.
    pub fn new() -> (ball: Ball)
        ensures
            ball == Ball::canonical(),
            ball.wf(),
    {
        Ball { velocity: Vec2 { x: BALL_VELOCITY_X, y: BALL_VELOCITY_Y }, radius: BALL_RADIUS }
    }

    /// Stops the vertical motion.
    pub fn reset_y(&mut self)
        ensures
            final(self).velocity.y == 0,
            final(self).velocity.x == old(self).velocity.x,
            final(self).radius == old(self).radius,
    {
        self.velocity.y = 0;
    }

    /// Turns the horizontal motion round.
    pub fn reverse_x(&mut self)
        ensures
            final(self).velocity.x == negation(old(self).velocity.x),
            final(self).velocity.y == old(self).velocity.y,
            final(self).radius == old(self).radius,
            symmetric(old(self).velocity.x) ==> final(self).velocity.x == -old(self).velocity.x,
    {
        self.velocity.x = negate(self.velocity.x);
    }

    /// Turns the vertical motion round.
    pub fn reverse_y(&mut self)
        ensures
            final(self).velocity.y == negation(old(self).velocity.y),
            final(self).velocity.x == old(self).velocity.x,
            final(self).radius == old(self).radius,
            symmetric(old(self).velocity.y) ==> final(self).velocity.y == -old(self).velocity.y,
    {
        self.velocity.y = negate(self.velocity.y);
    }

    /// Whether the ball moves toward the left wall.
    pub fn heads_left(&self) -> (b: bool)
        ensures
            b == (self.velocity.x < 0),
    {
        self.velocity.x < 0
    }

    /// Whether the ball moves toward the right wall.
    pub fn heads_right(&self) -> (b: bool)
        ensures
            b == (self.velocity.x > 0),
    {
        self.velocity.x > 0
    }
}

} // verus!

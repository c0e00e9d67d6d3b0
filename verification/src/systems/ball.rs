//! Ball integration: the ball moves under constant gravity, and its picture spins.
use vstd::prelude::*;

use crate::components::ball::Ball;
use crate::fixed::{half, halve, plus, product, sum, times, Vec2};
use crate::volleyball::Volleyball;

verus! {

/// The state after a tick of `dt` seconds of free flight. With velocity `(vx, vy)` and
/// gravity `g`:
///
/// - `x` grows by `vx * dt`,
/// - `y` grows by `(vy + dt * g / 2) * dt`, the velocity at the middle of the tick,
/// - `vy` grows by `dt * g`, and `vx` stays;
///
/// the rotation grows by the configured spin. Every sum and product is the saturating
/// fixed-point one, taken in the order written.
pub open spec fn integrated(game: Volleyball, dt: i64) -> Volleyball {
    let velocity = game.ball.velocity;
    let gain = product(dt, game.config.gravity);
    Volleyball {
        ball_rotation: sum(game.ball_rotation, game.config.rotation),
        ball_position: Vec2 {
            x: sum(game.ball_position.x, product(velocity.x, dt)),
            y: sum(game.ball_position.y, product(sum(velocity.y, half(gain)), dt)),
        },
        ball: Ball {
            velocity: Vec2 { x: velocity.x, y: sum(velocity.y, gain) },
            radius: game.ball.radius,
        },
        ..game
    }
}

/// The ball integration system.
pub struct BallSystem;

impl BallSystem {
    /// Lets the ball fly for a tick of `dt` seconds.
    pub fn run(&mut self, game: &mut Volleyball, dt: i64)
        ensures
            *final(game) == integrated(*old(game), dt),
            old(game).wf() ==> final(game).wf(),
    {
        // Rotation
        game.ball_rotation = plus(game.ball_rotation, game.config.rotation);

        // Gravity
        let gain = times(dt, game.config.gravity);
        game.ball_position.x = plus(game.ball_position.x, times(game.ball.velocity.x, dt));
        game.ball_position.y = plus(
            game.ball_position.y,
            times(plus(game.ball.velocity.y, halve(gain)), dt),
        );

        game.ball.velocity.y = plus(game.ball.velocity.y, gain);
    }
}

} // verus!

//! Collision and bounce: the ball turns round at the side walls, and a paddle under a
//! falling ball sends it up again, toward the other half, at a speed scaled by a factor
//! drawn at random.
use rand::rngs::StdRng;
use rand::{Rng, SeedableRng};
use vstd::prelude::*;

use crate::components::ball::Ball;
use crate::components::player::{Player, Side};
use crate::fixed::{abs, half, halve, magnitude, negate, negation, product, times, Vec2, ONE};
use crate::volleyball::Volleyball;

verus! {

#[verifier::external_type_specification]
#[verifier::external_body]
pub struct ExStdRng(rand::rngs::StdRng);

/// `Rng::gen_range` on a `StdRng`, for `i64` bounds: some value that is at least `low` and
/// less than `high`. The call panics unless `low < high`, hence the precondition. Nothing
/// is claimed about which value comes, nor about the generator afterwards.
#[verifier::external_body]
fn draw(rng: &mut StdRng, low: i64, high: i64) -> (value: i64)
    requires
        low < high,
    ensures
        low <= value < high,
{
    rng.gen_range(low, high)
}

/// `SeedableRng::seed_from_u64` for `StdRng`: a generator made from a seed. Nothing is
/// claimed about it.
#[verifier::external_body]
fn seeded(seed: u64) -> StdRng {
    StdRng::seed_from_u64(seed)
}

/// The ball moves left and has reached the left wall.
pub open spec fn at_left_wall(game: Volleyball) -> bool {
    game.ball.velocity.x < 0 && game.ball_position.x <= game.ball.radius
}

/// The ball moves right and has reached the right wall.
pub open spec fn at_right_wall(game: Volleyball) -> bool {
    game.ball.velocity.x > 0 && game.ball_position.x >= game.config.arena_width
        - game.ball.radius
}

/// The ball bounces off a side wall in this state.
pub open spec fn hits_wall(game: Volleyball) -> bool {
    at_left_wall(game) || at_right_wall(game)
}

/// The ball with its horizontal velocity turned round.
pub open spec fn reflected(ball: Ball) -> Ball {
    Ball { velocity: Vec2 { x: negation(ball.velocity.x), y: ball.velocity.y }, radius: ball.radius }
}

/// The state after the wall rule.
pub open spec fn wall_bounced(game: Volleyball) -> Volleyball {
    if hits_wall(game) {
        Volleyball { ball: reflected(game.ball), ..game }
    } else {
        game
    }
}

/// The centre of the ball lies in the paddle's rectangle grown by the ball's radius on
/// every side, bounds included. The rectangle reaches from the paddle's left edge, half a
/// width left of its centre, over the full width, and likewise upward.
pub open spec fn overlaps(ball: Ball, ball_position: Vec2, player: Player, player_position: Vec2) -> bool {
    let player_x = player_position.x - half(player.width);
    let player_y = player_position.y - half(player.height);
    &&& ball_position.x >= player_x - ball.radius
    &&& ball_position.y >= player_y - ball.radius
    &&& ball_position.x <= player_x + player.width + ball.radius
    &&& ball_position.y <= player_y + player.height + ball.radius
}

/// The paddle on `side` catches the ball: they overlap and the ball is falling.
pub open spec fn catches(game: Volleyball, side: Side) -> bool {
    &&& overlaps(game.ball, game.ball_position, game.player(side), game.player_position(side))
    &&& game.ball.velocity.y < 0
}

/// The ball after a bounce off the paddle on `side`: the vertical velocity is turned round;
/// the horizontal speed is scaled by `multiplier` and points away from that side, to the
/// right off the left paddle and to the left off the right paddle.
pub open spec fn deflected(ball: Ball, side: Side, multiplier: i64) -> Ball {
    Ball {
        velocity: Vec2 {
            x: match side {
                Side::Left => product(magnitude(ball.velocity.x), multiplier),
                Side::Right => product(negation(magnitude(ball.velocity.x)), multiplier),
            },
            y: negation(ball.velocity.y),
        },
        radius: ball.radius,
    }
}

/// The state after the paddle rule for the paddle on `side`.
pub open spec fn paddle_bounced(game: Volleyball, side: Side, multiplier: i64) -> Volleyball {
    if catches(game, side) {
        Volleyball { ball: deflected(game.ball, side, multiplier), ..game }
    } else {
        game
    }
}

/// The paddle that the ball bounces off in a collision pass, if any: each paddle is tried
/// in turn, left then right, on the state that the rules before it have left.
pub open spec fn struck(game: Volleyball) -> Option<Side> {
    let walled = wall_bounced(game);
    if catches(walled, Side::Left) {
        Some(Side::Left)
    } else if catches(walled, Side::Right) {
        Some(Side::Right)
    } else {
        None
    }
}

/// The state after a whole collision pass in which a paddle that catches the ball scales
/// its speed by `multiplier`: the wall rule, then the left paddle, then the right paddle.
pub open spec fn collided(game: Volleyball, multiplier: i64) -> Volleyball {
    paddle_bounced(
        paddle_bounced(wall_bounced(game), Side::Left, multiplier),
        Side::Right,
        multiplier,
    )
}

/// A bounce off a paddle.
#[derive(Clone, Copy, Debug, PartialEq, Eq, Structural)]
pub struct PaddleHit {
    pub side: Side,
    /// The factor by which the ball's horizontal speed was scaled.
    pub multiplier: i64,
}

/// What a collision pass did. Every bounce calls for one bounce sound.
#[derive(Clone, Copy, Debug, PartialEq, Eq, Structural)]
pub struct BounceReport {
    /// The ball bounced off a side wall.
    pub wall: bool,
    /// The ball bounced off a paddle.
    pub paddle: Option<PaddleHit>,
}

/// Whether the ball's centre lies in the paddle's rectangle grown by the ball's radius.
pub fn collides_with_player(
    ball: &Ball,
    ball_position: &Vec2,
    player: &Player,
    player_position: &Vec2,
) -> (hit: bool)
    ensures
        hit == overlaps(*ball, *ball_position, *player, *player_position),
{
    let radius: i128 = ball.radius as i128;
    let player_x: i128 = player_position.x as i128 - halve(player.width) as i128;
    let player_y: i128 = player_position.y as i128 - halve(player.height) as i128;

    let left: i128 = player_x - radius;
    let bottom: i128 = player_y - radius;
    let right: i128 = player_x + player.width as i128 + radius;
    let top: i128 = player_y + player.height as i128 + radius;

    let ball_x: i128 = ball_position.x as i128;
    let ball_y: i128 = ball_position.y as i128;
    (ball_x >= left) && (ball_y >= bottom) && (ball_x <= right) && (ball_y <= top)
}

/// Whether the paddle on `side` catches the ball.
pub fn paddle_catches(game: &Volleyball, side: Side) -> (caught: bool)
    ensures
        caught == catches(*game, side),
{
    let overlap = match side {
        Side::Left => collides_with_player(
            &game.ball,
            &game.ball_position,
            &game.left_player,
            &game.left_position,
        ),
        Side::Right => collides_with_player(
            &game.ball,
            &game.ball_position,
            &game.right_player,
            &game.right_position,
        ),
    };
    overlap && game.ball.velocity.y < 0
}

/// The wall rule: turns the ball round if it has reached the wall that it moves toward.
/// Returns whether it did.
pub fn bounce_off_walls(game: &mut Volleyball) -> (bounced: bool)
    ensures
        bounced == hits_wall(*old(game)),
        *final(game) == wall_bounced(*old(game)),
{
    let ball_x: i128 = game.ball_position.x as i128;
    let left_edge: i128 = game.ball.radius as i128;
    let right_edge: i128 = game.config.arena_width as i128 - game.ball.radius as i128;
    if game.ball.heads_left() && ball_x <= left_edge {
        game.ball.reverse_x();
        true
    } else if game.ball.heads_right() && ball_x >= right_edge {
        game.ball.reverse_x();
        true
    } else {
        false
    }
}

/// The response of the ball to the paddle on `side`, for a given multiplier.
pub fn deflect(ball: &mut Ball, side: Side, multiplier: i64)
    ensures
        *final(ball) == deflected(*old(ball), side, multiplier),
{
    ball.reverse_y();
    let speed = abs(ball.velocity.x);
    ball.velocity.x = match side {
        Side::Left => times(speed, multiplier),
        Side::Right => times(negate(speed), multiplier),
    };
}

/// Wall reflection: the wall rule turns the horizontal velocity of a well-formed ball that
/// has reached the wall it moves toward into its exact opposite, so that the ball moves
/// away from that wall, and changes nothing else.
pub proof fn law_wall_reflection(game: Volleyball)
    requires
        game.ball.wf(),
        hits_wall(game),
    ensures
        wall_bounced(game).ball.velocity.x == -game.ball.velocity.x,
        at_left_wall(game) ==> wall_bounced(game).ball.velocity.x > 0,
        at_right_wall(game) ==> wall_bounced(game).ball.velocity.x < 0,
        wall_bounced(game).ball.velocity.y == game.ball.velocity.y,
        wall_bounced(game).ball_position == game.ball_position,
{
}

/// Wall reflection in a whole collision pass: where no paddle catches the ball in that
/// pass, the pass does to the ball what the wall rule does.
pub proof fn law_wall_reflection_in_pass(game: Volleyball, multiplier: i64)
    requires
        game.ball.wf(),
        hits_wall(game),
        struck(game) is None,
    ensures
        collided(game, multiplier).ball.velocity.x == -game.ball.velocity.x,
        at_left_wall(game) ==> collided(game, multiplier).ball.velocity.x > 0,
        at_right_wall(game) ==> collided(game, multiplier).ball.velocity.x < 0,
        collided(game, multiplier).ball_position == game.ball_position,
{
}

/// Paddle reflection direction: whatever the ball's horizontal direction was, the left
/// paddle never sends it to the left and the right paddle never sends it to the right; and
/// where the scaled speed does not round to zero, the ball moves to the right off the left
/// paddle and to the left off the right paddle.
pub proof fn law_paddle_direction(game: Volleyball, side: Side, multiplier: i64)
    requires
        catches(game, side),
        multiplier > 0,
    ensures
        side == Side::Left ==> paddle_bounced(game, side, multiplier).ball.velocity.x >= 0,
        side == Side::Right ==> paddle_bounced(game, side, multiplier).ball.velocity.x <= 0,
        magnitude(game.ball.velocity.x) * multiplier >= ONE ==> {
            &&& side == Side::Left ==> paddle_bounced(game, side, multiplier).ball.velocity.x > 0
            &&& side == Side::Right ==> paddle_bounced(game, side, multiplier).ball.velocity.x < 0
        },
        paddle_bounced(game, side, multiplier).ball.velocity.y > 0,
{
    let speed = magnitude(game.ball.velocity.x) as int;
    let scale = multiplier as int;
    assert(speed * scale >= 0) by (nonlinear_arith)
        requires
            speed >= 0,
            scale > 0,
    ;
    assert((-speed) * scale == -(speed * scale)) by (nonlinear_arith);
}

/// Paddle miss on ascent: a ball that is not falling bounces off no paddle, wherever it is.
/// Each paddle rule leaves the state as it is, and a collision pass does no more than the
/// wall rule.
pub proof fn law_rising_ball_passes(game: Volleyball, side: Side, multiplier: i64)
    requires
        game.ball.velocity.y >= 0,
    ensures
        !catches(game, side),
        paddle_bounced(game, side, multiplier) == game,
        struck(game) is None,
        collided(game, multiplier) == wall_bounced(game),
{
}

/// At most one paddle bounce happens in a collision pass: the pass is the wall rule followed
/// by the paddle rule of the struck paddle alone.
pub proof fn law_one_paddle_per_pass(game: Volleyball, multiplier: i64)
    ensures
        collided(game, multiplier) == match struck(game) {
            Some(side) => paddle_bounced(wall_bounced(game), side, multiplier),
            None => wall_bounced(game),
        },
{
}

/// A whole collision pass with a given multiplier: the wall rule, then each paddle in turn.
pub fn collide(game: &mut Volleyball, multiplier: i64) -> (report: BounceReport)
    ensures
        *final(game) == collided(*old(game), multiplier),
        report.wall == hits_wall(*old(game)),
        report.paddle == match struck(*old(game)) {
            Some(side) => Some(PaddleHit { side, multiplier }),
            None => None,
        },
{
    let wall = bounce_off_walls(game);
    let mut paddle: Option<PaddleHit> = None;
    if paddle_catches(game, Side::Left) {
        deflect(&mut game.ball, Side::Left, multiplier);
        paddle = Some(PaddleHit { side: Side::Left, multiplier });
    }
    if paddle_catches(game, Side::Right) {
        deflect(&mut game.ball, Side::Right, multiplier);
        paddle = Some(PaddleHit { side: Side::Right, multiplier });
    }
    BounceReport { wall, paddle }
}

/// The collision system. It owns the source of the random multipliers.
pub struct BounceSystem {
    rng: StdRng,
}

impl BounceSystem {
    /// A system that draws from the given generator.
    pub fn new(rng: StdRng) -> (system: BounceSystem)
        ensures
            system.generator() == rng,
    {
        BounceSystem { rng }
    }

    /// A system whose draws are fixed by `seed`.
    pub fn from_seed(seed: u64) -> BounceSystem {
        BounceSystem { rng: seeded(seed) }
    }

    /// The generator that the system draws from.
    pub closed spec fn generator(&self) -> StdRng {
        self.rng
    }

    /// The paddle rule for one paddle: if it catches the ball, draws a multiplier from the
    /// configured range and deflects the ball with it.
    fn strike(&mut self, game: &mut Volleyball, side: Side) -> (drawn: Option<i64>)
        requires
            old(game).config.multiplier_min <= old(game).config.multiplier_max < i64::MAX,
        ensures
            drawn is Some <==> catches(*old(game), side),
            drawn matches Some(multiplier) ==> {
                &&& old(game).config.multiplier_min <= multiplier <= old(game).config.multiplier_max
                &&& *final(game) == paddle_bounced(*old(game), side, multiplier)
            },
            drawn is None ==> *final(game) == *old(game),
    {
        if paddle_catches(game, side) {
            let multiplier = draw(
                &mut self.rng,
                game.config.multiplier_min,
                game.config.multiplier_max + 1,
            );
            deflect(&mut game.ball, side, multiplier);
            Some(multiplier)
        } else {
            None
        }
    }

    /// One collision pass: the wall rule, then each paddle in turn, left then right. A paddle
    /// that catches the ball scales its horizontal speed by a multiplier drawn from
    /// `multiplier_min ..= multiplier_max`; the report names the paddle and the multiplier.
    /// No multiplier is drawn unless a paddle catches the ball.
    pub fn run(&mut self, game: &mut Volleyball) -> (report: BounceReport)
        requires
            old(game).config.multiplier_min <= old(game).config.multiplier_max < i64::MAX,
        ensures
            report.wall == hits_wall(*old(game)),
            match report.paddle {
                Some(hit) => {
                    &&& struck(*old(game)) == Some(hit.side)
                    &&& old(game).config.multiplier_min <= hit.multiplier
                        <= old(game).config.multiplier_max
                    &&& *final(game) == collided(*old(game), hit.multiplier)
                },
                None => {
                    &&& struck(*old(game)) is None
                    &&& *final(game) == wall_bounced(*old(game))
                },
            },
            old(game).wf() ==> final(game).wf(),
    {
        let wall = bounce_off_walls(game);
        let left = self.strike(game, Side::Left);
        let right = self.strike(game, Side::Right);
        let paddle = match (left, right) {
            (Some(multiplier), _) => Some(PaddleHit { side: Side::Left, multiplier }),
            (None, Some(multiplier)) => Some(PaddleHit { side: Side::Right, multiplier }),
            (None, None) => None,
        };
        BounceReport { wall, paddle }
    }
}

} // verus!

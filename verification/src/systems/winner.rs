//! Scoring: a ball that reaches the floor gives a point to the player of the other half
//! and starts again from the centre of the arena.
use vstd::prelude::*;

use crate::components::ball::Ball;
use crate::components::player::Side;
use crate::fixed::{half, halve, negation, Vec2};
use crate::volleyball::Volleyball;

verus! {

/// The character of a decimal digit.
pub open spec fn digit(d: nat) -> char
    recommends
        d < 10,
{
    (d + 48) as char
}

/// The decimal digits of `n`, most significant first, without sign or padding.
pub open spec fn decimal(n: nat) -> Seq<char>
    decreases n,
{
    if n < 10 {
        seq![digit(n)]
    } else {
        decimal(n / 10).push(digit(n % 10))
    }
}

/// `ToString::to_string` for `u32`: the number written in decimal digits, most significant
/// first, with no sign and no leading zero.
#[verifier::external_body]
fn decimal_string(n: u32) -> (text: String)
    ensures
        text@ == decimal(n as nat),
{
    n.to_string()
}

/// The ball has reached the floor.
pub open spec fn touches_floor(game: Volleyball) -> bool {
    game.ball_position.y <= game.ball.radius
}

/// The side whose player gets the point for a ball on the floor: the right side where the
/// ball lies strictly left of the middle, the left side otherwise.
pub open spec fn scorer(game: Volleyball) -> Side {
    if game.ball_position.x < half(game.config.arena_width) {
        Side::Right
    } else {
        Side::Left
    }
}

/// The state after the scoring rule. On the floor, the scorer's counter is raised, the ball
/// goes to the centre of the arena, its vertical velocity is zero and its horizontal
/// velocity is turned round. Its rotation stays. Off the floor nothing changes.
pub open spec fn scored(game: Volleyball) -> Volleyball {
    if touches_floor(game) {
        Volleyball {
            score: game.score.awarded(scorer(game)),
            ball_position: game.centre(),
            ball: Ball {
                velocity: Vec2 { x: negation(game.ball.velocity.x), y: 0 },
                radius: game.ball.radius,
            },
            ..game
        }
    } else {
        game
    }
}

/// A point: a score sound is due, and the display of the scorer is to show `text`.
#[derive(Clone, Debug, PartialEq, Eq)]
pub struct ScoreUpdate {
    /// The side of the player who scored: left for player 1, right for player 2.
    pub scorer: Side,
    /// That player's points now.
    pub points: u32,
    /// The points in decimal digits.
    pub text: String,
}

/// Reset invariant: after a floor contact the ball is exactly at the centre of the arena
/// with no vertical velocity, a well-formed ball moves horizontally as fast as before in
/// the opposite direction, and the scorer's counter is the only one raised.
pub proof fn law_floor_contact_resets(game: Volleyball)
    requires
        touches_floor(game),
    ensures
        scored(game).ball_position.x == half(game.config.arena_width),
        scored(game).ball_position.y == half(game.config.arena_height),
        scored(game).ball.velocity.y == 0,
        game.ball.wf() ==> scored(game).ball.velocity.x == -game.ball.velocity.x,
        scored(game).ball.radius == game.ball.radius,
        scored(game).score.points(scorer(game)) == crate::volleyball::raised(
            game.score.points(scorer(game)),
        ),
        game.ball_position.x < half(game.config.arena_width) ==> scored(game).score.player_1
            == game.score.player_1,
        game.ball_position.x >= half(game.config.arena_width) ==> scored(game).score.player_2
            == game.score.player_2,
{
}

/// The scoring system.
pub struct WinnerSystem;

impl WinnerSystem {
    /// Checks whether the ball has reached the floor and, if so, on which side: scores the
    /// point and restarts the ball.
    pub fn run(&mut self, game: &mut Volleyball) -> (update: Option<ScoreUpdate>)
        ensures
            *final(game) == scored(*old(game)),
            update is Some <==> touches_floor(*old(game)),
            update matches Some(point) ==> {
                &&& point.scorer == scorer(*old(game))
                &&& point.points == final(game).score.points(point.scorer)
                &&& point.text@ == decimal(point.points as nat)
            },
            old(game).wf() ==> final(game).wf(),
    {
        let ball_x = game.ball_position.x;
        let ball_y = game.ball_position.y;

        // Check if and on which side the ball hits the floor
        if ball_y <= game.ball.radius {
            let scorer = if ball_x < halve(game.config.arena_width) {
                Side::Right
            } else {
                Side::Left
            };
            let points = game.score.award(scorer);
            let text = decimal_string(points);

            game.ball_position = Vec2 {
                x: halve(game.config.arena_width),
                y: halve(game.config.arena_height),
            };
            game.ball.reset_y();
            game.ball.reverse_x();
            Some(ScoreUpdate { scorer, points, text })
        } else {
            None
        }
    }
}

} // verus!

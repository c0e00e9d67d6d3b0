//! One tick of the game: the four systems in their fixed order, and what the engine around
//! the game has to do afterwards.
use vstd::prelude::*;

use crate::systems::ball::{integrated, BallSystem};
use crate::systems::bounce::{
    collide, collided, hits_wall, struck, wall_bounced, BounceReport, BounceSystem,
};
use crate::systems::player::{moved, Input, PlayerSystem};
use crate::systems::winner::{decimal, scored, scorer, touches_floor, ScoreUpdate, WinnerSystem};
use crate::volleyball::Volleyball;

verus! {

/// A sound to play once. Nobody has to play it.
#[derive(Clone, Copy, Debug, PartialEq, Eq, Structural)]
pub enum Sound {
    Bounce,
    Score,
}

/// What a tick did, beyond changing the state.
#[derive(Clone, Debug, PartialEq, Eq)]
pub struct TickReport {
    pub bounce: BounceReport,
    /// The point that was scored, if one was.
    pub score: Option<ScoreUpdate>,
}

/// The sounds that a report calls for, in the order of their causes: a bounce off a wall,
/// a bounce off a paddle, a point.
pub open spec fn sounds_due(report: TickReport) -> Seq<Sound> {
    let wall = if report.bounce.wall {
        seq![Sound::Bounce]
    } else {
        Seq::<Sound>::empty()
    };
    let paddle = if report.bounce.paddle is Some {
        seq![Sound::Bounce]
    } else {
        Seq::<Sound>::empty()
    };
    let point = if report.score is Some {
        seq![Sound::Score]
    } else {
        Seq::<Sound>::empty()
    };
    wall + paddle + point
}

impl TickReport {
    /// The sounds to play after the tick.
    pub fn sounds(&self) -> (list: Vec<Sound>)
        ensures
            list@ == sounds_due(*self),
    {
        let mut list: Vec<Sound> = Vec::new();
        if self.bounce.wall {
            list.push(Sound::Bounce);
        }
        if self.bounce.paddle.is_some() {
            list.push(Sound::Bounce);
        }
        if self.score.is_some() {
            list.push(Sound::Score);
        }
        assert(list@ =~= sounds_due(*self));
        list
    }
}

/// The state in which a tick's collision pass finds the game: the paddles have moved, then
/// the ball has flown.
pub open spec fn flown(game: Volleyball, input: Input, dt: i64) -> Volleyball {
    integrated(moved(game, input, dt), dt)
}

/// The state after a tick of `dt` seconds in which a paddle that catches the ball scales its
/// speed by `multiplier`: paddle movement, ball integration, collision and bounce, scoring,
/// each on the state that the one before has left.
pub open spec fn advanced(game: Volleyball, input: Input, dt: i64, multiplier: i64) -> Volleyball {
    scored(collided(flown(game, input, dt), multiplier))
}

/// What a report says of the point scored in a tick that ends in the state `after`, where
/// `bounced` is the state that its collision pass has left.
pub open spec fn reports_point(update: Option<ScoreUpdate>, bounced: Volleyball, after: Volleyball) -> bool {
    &&& update is Some <==> touches_floor(bounced)
    &&& update matches Some(point) ==> {
        &&& point.scorer == scorer(bounced)
        &&& point.points == after.score.points(point.scorer)
        &&& point.text@ == decimal(point.points as nat)
    }
}

/// A tick with a given multiplier.
pub fn advance(game: &mut Volleyball, input: &Input, dt: i64, multiplier: i64) -> (report: TickReport)
    ensures
        *final(game) == advanced(*old(game), *input, dt, multiplier),
        report.bounce.wall == hits_wall(flown(*old(game), *input, dt)),
        report.bounce.paddle == match struck(flown(*old(game), *input, dt)) {
            Some(side) => Some(crate::systems::bounce::PaddleHit { side, multiplier }),
            None => None,
        },
        reports_point(
            report.score,
            collided(flown(*old(game), *input, dt), multiplier),
            *final(game),
        ),
        old(game).wf() ==> final(game).wf(),
{
    let mut players = PlayerSystem;
    let mut ball = BallSystem;
    let mut winner = WinnerSystem;
    players.run(game, input, dt);
    ball.run(game, dt);
    let bounce = collide(game, multiplier);
    let score = winner.run(game);
    TickReport { bounce, score }
}

/// The systems of a game, in the order in which a tick runs them.
pub struct Pipeline {
    pub players: PlayerSystem,
    pub ball: BallSystem,
    pub bounce: BounceSystem,
    pub winner: WinnerSystem,
}

impl Pipeline {
    /// The four systems, with the given collision system.
    pub fn new(bounce: BounceSystem) -> (pipeline: Pipeline)
        ensures
            pipeline == (Pipeline {
                players: PlayerSystem,
                ball: BallSystem,
                bounce,
                winner: WinnerSystem,
            }),
    {
        Pipeline { players: PlayerSystem, ball: BallSystem, bounce, winner: WinnerSystem }
    }

    /// One tick of `dt` seconds: paddle movement, ball integration, collision and bounce,
    /// scoring. Each system finishes before the next begins. The state afterwards is that
    /// of [`advanced`] for the multiplier that the report names; where the ball bounced off
    /// no paddle, none was drawn and the state is the same for every multiplier.
    pub fn tick(&mut self, game: &mut Volleyball, input: &Input, dt: i64) -> (report: TickReport)
        requires
            old(game).config.multiplier_min <= old(game).config.multiplier_max < i64::MAX,
        ensures
            report.bounce.wall == hits_wall(flown(*old(game), *input, dt)),
            match report.bounce.paddle {
                Some(hit) => {
                    &&& struck(flown(*old(game), *input, dt)) == Some(hit.side)
                    &&& old(game).config.multiplier_min <= hit.multiplier
                        <= old(game).config.multiplier_max
                    &&& *final(game) == advanced(*old(game), *input, dt, hit.multiplier)
                    &&& reports_point(
                        report.score,
                        collided(flown(*old(game), *input, dt), hit.multiplier),
                        *final(game),
                    )
                },
                None => {
                    &&& struck(flown(*old(game), *input, dt)) is None
                    &&& *final(game) == scored(wall_bounced(flown(*old(game), *input, dt)))
                    &&& reports_point(
                        report.score,
                        wall_bounced(flown(*old(game), *input, dt)),
                        *final(game),
                    )
                },
            },
            old(game).wf() ==> final(game).wf(),
    {
        self.players.run(game, input, dt);
        self.ball.run(game, dt);
        let bounce = self.bounce.run(game);
        let score = self.winner.run(game);
        TickReport { bounce, score }
    }
}

/// A tick in which the ball bounces off no paddle ends in the same state whatever the
/// multiplier.
pub proof fn law_multiplier_counts_on_paddle_only(
    game: Volleyball,
    input: Input,
    dt: i64,
    first: i64,
    second: i64,
)
    requires
        struck(flown(game, input, dt)) is None,
    ensures
        advanced(game, input, dt, first) == advanced(game, input, dt, second),
        advanced(game, input, dt, first) == scored(wall_bounced(flown(game, input, dt))),
{
}

/// Well-formedness is kept by every tick, whatever the input, the duration and the
/// multiplier.
pub proof fn law_tick_keeps_wf(game: Volleyball, input: Input, dt: i64, multiplier: i64)
    requires
        game.wf(),
    ensures
        advanced(game, input, dt, multiplier).wf(),
        advanced(game, input, dt, multiplier).config == game.config,
        advanced(game, input, dt, multiplier).left_player == game.left_player,
        advanced(game, input, dt, multiplier).right_player == game.right_player,
        advanced(game, input, dt, multiplier).ball.radius == game.ball.radius,
{
}

} // verus!

//! The state of a game: the arena and its constants, the ball, the two paddles and the
//! score.
use vstd::prelude::*;

use crate::components::ball::Ball;
use crate::components::player::{Player, Side, PLAYER_HEIGHT, PLAYER_WIDTH};
use crate::fixed::{half, halve, minus, difference, Vec2};

verus! {

/// Height of the canonical arena: 500 units.
pub const WINDOW_HEIGHT: i64 = 500_000_000;

/// Width of the canonical arena: 500 units.
pub const WINDOW_WIDTH: i64 = 500_000_000;

/// Canonical acceleration of the ball: 120 units per second squared, downward.
pub const ACCELERATION: i64 = -120_000_000;

/// Canonical spin of the ball's picture: 0.05 radians per tick.
pub const ROTATION: i64 = 50_000;

/// Canonical speed of a paddle under full input: 120 units per second.
pub const PLAYER_SPEED: i64 = 120_000_000;

/// Least factor by which a paddle of the canonical game scales the ball's horizontal speed.
pub const MULTIPLIER_MIN: i64 = 750_000;

/// Greatest factor by which a paddle of the canonical game scales the ball's horizontal speed.
pub const MULTIPLIER_MAX: i64 = 1_500_000;

/// No counter of the score goes beyond this.
pub const MAX_SCORE: u32 = 99;

/// The constants of a game, fixed when it starts.
#[derive(Clone, Copy, Debug, PartialEq, Eq, Structural)]
pub struct Config {
    pub arena_width: i64,
    pub arena_height: i64,
    /// Vertical acceleration of the ball; negative is downward.
    pub gravity: i64,
    /// Angle added to the ball's rotation at every tick. It is shown, never simulated.
    pub rotation: i64,
    /// Speed of a paddle when its axis is at one.
    pub player_speed: i64,
    /// A paddle scales the ball's horizontal speed by a factor drawn from
    /// `multiplier_min ..= multiplier_max`.
    pub multiplier_min: i64,
    pub multiplier_max: i64,
}

impl Config {
    /// A configuration is well formed when the arena has a positive extent and the
    /// multipliers form a nonempty range of positive factors below `i64::MAX`.
    pub open spec fn wf(&self) -> bool {
        &&& self.arena_width > 0
        &&& self.arena_height > 0
        &&& 0 < self.multiplier_min <= self.multiplier_max < i64::MAX
    }

    /// The x coordinate of the net, which parts the two halves.
    pub open spec fn middle(&self) -> i64 {
        half(self.arena_width)
    }

    /// Whether the configuration is well formed.
    pub fn is_valid(&self) -> (valid: bool)
        ensures
            valid == self.wf(),
    {
        self.arena_width > 0 && self.arena_height > 0 && 0 < self.multiplier_min
            && self.multiplier_min <= self.multiplier_max && self.multiplier_max < i64::MAX
    }

    /// The constants of the canonical game.
    pub open spec fn canonical() -> Config {
        Config {
            arena_width: WINDOW_WIDTH,
            arena_height: WINDOW_HEIGHT,
            gravity: ACCELERATION,
            rotation: ROTATION,
            player_speed: PLAYER_SPEED,
            multiplier_min: MULTIPLIER_MIN,
            multiplier_max: MULTIPLIER_MAX,
        }
    }
}

impl Default for Config {
    /// The canonical game.
    fn default() -> (config: Config)
        ensures
            config == Config::canonical(),
            config.wf(),
    {
        Config {
            arena_width: WINDOW_WIDTH,
            arena_height: WINDOW_HEIGHT,
            gravity: ACCELERATION,
            rotation: ROTATION,
            player_speed: PLAYER_SPEED,
            multiplier_min: MULTIPLIER_MIN,
            multiplier_max: MULTIPLIER_MAX,
        }
    }
}

/// The points of the two players. Player 1 defends the left half, player 2 the right half.
#[derive(Clone, Copy, Debug, PartialEq, Eq, Structural)]
pub struct ScoreBoard {
    pub player_1: u32,
    pub player_2: u32,
}

/// A counter after one more point: it stops at [`MAX_SCORE`].
pub open spec fn raised(points: u32) -> u32 {
    if points < MAX_SCORE {
        (points + 1) as u32
    } else {
        MAX_SCORE
    }
}

impl ScoreBoard {
    /// A score is well formed when neither counter is beyond [`MAX_SCORE`].
    pub open spec fn wf(&self) -> bool {
        &&& self.player_1 <= MAX_SCORE
        &&& self.player_2 <= MAX_SCORE
    }

    /// The points of the player who defends `side`.
    pub open spec fn points(&self, side: Side) -> u32 {
        match side {
            Side::Left => self.player_1,
            Side::Right => self.player_2,
        }
    }

    /// The score after a point for the player who defends `side`.
    pub open spec fn awarded(&self, side: Side) -> ScoreBoard {
        match side {
            Side::Left => ScoreBoard { player_1: raised(self.player_1), player_2: self.player_2 },
            Side::Right => ScoreBoard { player_1: self.player_1, player_2: raised(self.player_2) },
        }
    }

    /// Gives the player who defends `side` one more point, unless that player has
    /// [`MAX_SCORE`] already, and returns that player's points.
    pub fn award(&mut self, side: Side) -> (points: u32)
        ensures
            *final(self) == old(self).awarded(side),
            points == final(self).points(side),
            points == raised(old(self).points(side)),
            old(self).points(side) >= MAX_SCORE ==> points == MAX_SCORE,
            old(self).wf() ==> final(self).wf(),
    {
        match side {
            Side::Left => {
                if self.player_1 < MAX_SCORE {
                    self.player_1 = self.player_1 + 1;
                } else {
                    self.player_1 = MAX_SCORE;
                }
                self.player_1
            },
            Side::Right => {
                if self.player_2 < MAX_SCORE {
                    self.player_2 = self.player_2 + 1;
                } else {
                    self.player_2 = MAX_SCORE;
                }
                self.player_2
            },
        }
    }
}

impl Default for ScoreBoard {
    /// Nobody has scored.
    fn default() -> (score: ScoreBoard)
        ensures
            score == (ScoreBoard { player_1: 0, player_2: 0 }),
            score.wf(),
    {
        ScoreBoard { player_1: 0, player_2: 0 }
    }
}

/// A game in progress.
#[derive(Clone, Copy, Debug, PartialEq, Eq, Structural)]
pub struct Volleyball {
    pub config: Config,
    pub ball: Ball,
    /// Centre of the ball.
    pub ball_position: Vec2,
    /// Angle of the ball's picture. No rule reads it.
    pub ball_rotation: i64,
    pub left_player: Player,
    /// Centre of the left paddle.
    pub left_position: Vec2,
    pub right_player: Player,
    /// Centre of the right paddle.
    pub right_position: Vec2,
    pub score: ScoreBoard,
}

impl Volleyball {
    /// Whether a paddle of this size has room in one half of the arena.
    pub open spec fn fits(&self, player: Player) -> bool {
        &&& 0 <= player.width <= self.config.middle()
        &&& 0 <= player.height
    }

    /// A game is well formed when its configuration, ball and score are, there is one paddle
    /// on each side, and each paddle has room in its half.
    pub open spec fn wf(&self) -> bool {
        &&& self.config.wf()
        &&& self.ball.wf()
        &&& self.score.wf()
        &&& self.left_player.side == Side::Left
        &&& self.right_player.side == Side::Right
        &&& self.fits(self.left_player)
        &&& self.fits(self.right_player)
    }

    /// Whether the game is well formed.
    pub fn is_valid(&self) -> (valid: bool)
        ensures
            valid == self.wf(),
    {
        let middle = halve(self.config.arena_width);
        self.config.is_valid() && self.ball.is_valid() && self.score.player_1 <= MAX_SCORE
            && self.score.player_2 <= MAX_SCORE && self.left_player.side == Side::Left
            && self.right_player.side == Side::Right && 0 <= self.left_player.width
            && self.left_player.width <= middle && 0 <= self.left_player.height
            && 0 <= self.right_player.width && self.right_player.width <= middle
            && 0 <= self.right_player.height
    }

    /// The paddle on `side`.
    pub open spec fn player(&self, side: Side) -> Player {
        match side {
            Side::Left => self.left_player,
            Side::Right => self.right_player,
        }
    }

    /// The centre of the paddle on `side`.
    pub open spec fn player_position(&self, side: Side) -> Vec2 {
        match side {
            Side::Left => self.left_position,
            Side::Right => self.right_position,
        }
    }

    /// The centre of the arena, where the ball starts and restarts.
    pub open spec fn centre(&self) -> Vec2 {
        Vec2 { x: half(self.config.arena_width), y: half(self.config.arena_height) }
    }

    /// The state in which a game with these constants, this ball and paddles of this size
    /// starts: the ball at the centre of the arena, each paddle on the floor against the
    /// outer wall of its half, no points.
    pub open spec fn initial(config: Config, ball: Ball, width: i64, height: i64) -> Volleyball {
        Volleyball {
            config,
            ball,
            ball_position: Vec2 { x: half(config.arena_width), y: half(config.arena_height) },
            ball_rotation: 0,
            left_player: Player { side: Side::Left, width, height },
            left_position: Vec2 { x: half(width), y: half(height) },
            right_player: Player { side: Side::Right, width, height },
            right_position: Vec2 { x: difference(config.arena_width, half(width)), y: half(height) },
            score: ScoreBoard { player_1: 0, player_2: 0 },
        }
    }

    /// Starts a game with the given constants, ball and paddle size.
    pub fn with_config(config: Config, ball: Ball, width: i64, height: i64) -> (game: Volleyball)
        ensures
            game == Volleyball::initial(config, ball, width, height),
            game.wf() <==> config.wf() && ball.wf() && 0 <= width <= config.middle() && 0 <= height,
    {
        let offset_x = halve(width);
        let offset_y = halve(height);
        Volleyball {
            config,
            ball,
            ball_position: Vec2 { x: halve(config.arena_width), y: halve(config.arena_height) },
            ball_rotation: 0,
            left_player: Player { side: Side::Left, width, height },
            left_position: Vec2 { x: offset_x, y: offset_y },
            right_player: Player { side: Side::Right, width, height },
            right_position: Vec2 { x: minus(config.arena_width, offset_x), y: offset_y },
            score: ScoreBoard { player_1: 0, player_2: 0 },
        }
    }

    /// Starts the canonical game.
    pub fn new() -> (game: Volleyball)
        ensures
            game == Volleyball::initial(
                Config::canonical(),
                Ball::canonical(),
                PLAYER_WIDTH,
                PLAYER_HEIGHT,
            ),
            game.ball_position == (Vec2 { x: 250_000_000, y: 250_000_000 }),
            game.left_position == (Vec2 { x: 20_000_000, y: 17_000_000 }),
            game.right_position == (Vec2 { x: 480_000_000, y: 17_000_000 }),
            game.score == (ScoreBoard { player_1: 0, player_2: 0 }),
            game.wf(),
    {
        let left = Player::new(Side::Left);
        Volleyball::with_config(Config::default(), Ball::new(), left.width, left.height)
    }
}

} // verus!

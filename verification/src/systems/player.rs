//! Paddle movement: a paddle follows its input axis along the floor and stays in its own
//! half of the arena.
use vstd::prelude::*;

use crate::components::player::{Player, Side};
use crate::fixed::{
    difference, half, halve, larger, minus, plus, product, smaller, sum, times, Vec2,
};
use crate::volleyball::{Config, Volleyball};

verus! {

/// What the two input axes read at one tick. A value runs from minus one, full left, to
/// one, full right; an axis that is not bound reads `None`.
#[derive(Clone, Copy, Debug, PartialEq, Eq)]
pub struct Input {
    pub left_player: Option<i64>,
    pub right_player: Option<i64>,
}

impl Input {
    /// The reading of the axis that steers the paddle on `side`.
    pub open spec fn axis(&self, side: Side) -> Option<i64> {
        match side {
            Side::Left => self.left_player,
            Side::Right => self.right_player,
        }
    }

    /// The reading of the axis that steers the paddle on `side`.
    pub fn axis_value(&self, side: Side) -> (value: Option<i64>)
        ensures
            value == self.axis(side),
    {
        match side {
            Side::Left => self.left_player,
            Side::Right => self.right_player,
        }
    }
}

/// The x coordinate at which the half of `side` begins.
pub open spec fn left_boundary(config: Config, side: Side) -> i64 {
    match side {
        Side::Left => 0,
        Side::Right => half(config.arena_width),
    }
}

/// The least x coordinate that the centre of the paddle may take: half a paddle from the
/// left end of its half.
pub open spec fn lowest(config: Config, player: Player) -> i64 {
    sum(left_boundary(config, player.side), half(player.width))
}

/// The greatest x coordinate that the centre of the paddle may take: half a paddle from
/// the right end of its half, which lies half an arena from its left end.
pub open spec fn highest(config: Config, player: Player) -> i64 {
    difference(
        sum(left_boundary(config, player.side), half(config.arena_width)),
        half(player.width),
    )
}

/// Where a paddle at `x` stands after a tick of `dt` seconds with its axis at `amount`: it
/// moves by speed times amount times duration, is then raised to the least coordinate and
/// then lowered to the greatest.
pub open spec fn displaced(config: Config, player: Player, x: i64, amount: i64, dt: i64) -> i64 {
    smaller(
        larger(
            sum(x, product(product(config.player_speed, amount), dt)),
            lowest(config, player),
        ),
        highest(config, player),
    )
}

/// Where a paddle at `x` stands after a tick: where its axis is unbound or reads exactly
/// zero, it stays.
pub open spec fn steered(config: Config, player: Player, x: i64, axis: Option<i64>, dt: i64) -> i64 {
    match axis {
        Some(amount) => if amount != 0 {
            displaced(config, player, x, amount, dt)
        } else {
            x
        },
        None => x,
    }
}

/// The state after paddle movement: each paddle is steered by the axis of its own side.
/// Nothing moves vertically.
pub open spec fn moved(game: Volleyball, input: Input, dt: i64) -> Volleyball {
    Volleyball {
        left_position: Vec2 {
            x: steered(
                game.config,
                game.left_player,
                game.left_position.x,
                input.axis(game.left_player.side),
                dt,
            ),
            y: game.left_position.y,
        },
        right_position: Vec2 {
            x: steered(
                game.config,
                game.right_player,
                game.right_position.x,
                input.axis(game.right_player.side),
                dt,
            ),
            y: game.right_position.y,
        },
        ..game
    }
}

/// The centre of the paddle on `side` lies in the range that movement keeps it in.
pub open spec fn in_half(game: Volleyball, side: Side) -> bool {
    lowest(game.config, game.player(side)) <= game.player_position(side).x <= highest(
        game.config,
        game.player(side),
    )
}

/// Moves one paddle for one tick.
pub fn move_player(config: &Config, player: &Player, position: &mut Vec2, axis: Option<i64>, dt: i64)
    ensures
        final(position).x == steered(*config, *player, old(position).x, axis, dt),
        final(position).y == old(position).y,
{
    if let Some(mv_amount) = axis {
        let player_x = position.x;

        let left_boundary = match player.side {
            Side::Left => 0,
            Side::Right => halve(config.arena_width),
        };

        if mv_amount != 0 {
            let scaled_amount = times(times(config.player_speed, mv_amount), dt);
            let least = plus(left_boundary, halve(player.width));
            let greatest = minus(plus(left_boundary, halve(config.arena_width)), halve(player.width));
            let target = plus(player_x, scaled_amount);
            let raised = if target >= least { target } else { least };
            position.x = if raised <= greatest { raised } else { greatest };
        }
    }
}

/// Paddle clamp: in a well-formed game the range of each paddle is not empty and reaches
/// from half a paddle inside the left end of its half to half a paddle inside the right end;
/// a paddle whose axis reads anything but zero stands in that range after the movement, and
/// a paddle that stood in it stands in it whatever its axis reads.
pub proof fn law_paddle_stays_in_half(game: Volleyball, side: Side, input: Input, dt: i64)
    requires
        game.wf(),
    ensures
        lowest(game.config, game.player(side)) == left_boundary(game.config, side) + half(
            game.player(side).width,
        ),
        highest(game.config, game.player(side)) == left_boundary(game.config, side) + half(
            game.config.arena_width,
        ) - half(game.player(side).width),
        lowest(game.config, game.player(side)) <= highest(game.config, game.player(side)),
        input.axis(side) matches Some(amount) && amount != 0 ==> in_half(
            moved(game, input, dt),
            side,
        ),
        in_half(game, side) ==> in_half(moved(game, input, dt), side),
{
}

/// The paddle movement system.
pub struct PlayerSystem;

impl PlayerSystem {
    /// Moves both paddles for a tick of `dt` seconds.
    pub fn run(&mut self, game: &mut Volleyball, input: &Input, dt: i64)
        ensures
            *final(game) == moved(*old(game), *input, dt),
            old(game).wf() ==> final(game).wf(),
    {
        let left_axis = input.axis_value(game.left_player.side);
        move_player(&game.config, &game.left_player, &mut game.left_position, left_axis, dt);
        let right_axis = input.axis_value(game.right_player.side);
        move_player(&game.config, &game.right_player, &mut game.right_position, right_axis, dt);
    }
}

} // verus!

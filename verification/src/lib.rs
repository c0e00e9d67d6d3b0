//! The simulation core of a two-player arcade volleyball game.
//!
//! Two paddles move along the floor of a fixed arena, a ball falls under gravity and bounces
//! off the side walls and the paddles, and a point goes to the side on which the ball does
//! not land. The crate holds the rules of one simulation tick and nothing of the engine
//! around them: no rendering, no assets, no audio device, no input device.
//!
//! Every scalar is a fixed-point number with six decimal places (see [`fixed`]).
pub mod components;
pub mod fixed;
pub mod systems;
pub mod tick;
pub mod volleyball;

pub use components::ball::Ball;
pub use components::player::{Player, Side};
pub use fixed::{Vec2, ONE};
pub use systems::bounce::{BounceReport, PaddleHit};
pub use systems::player::Input;
pub use systems::winner::ScoreUpdate;
pub use systems::{BallSystem, BounceSystem, PlayerSystem, WinnerSystem};
pub use tick::{Pipeline, Sound, TickReport};
pub use volleyball::{Config, ScoreBoard, Volleyball};

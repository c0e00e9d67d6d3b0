//! The four systems of a tick: paddle movement, ball integration, collision and bounce,
//! scoring.
pub mod ball;
pub mod bounce;
pub mod player;
pub mod winner;

pub use self::ball::BallSystem;
pub use self::bounce::BounceSystem;
pub use self::player::PlayerSystem;
pub use self::winner::WinnerSystem;

//! The records that the systems read and write.
pub mod ball;
pub mod player;

//! Decision logic of a command bridge into a foreign anti-cheat module.

pub mod anticheat;
pub mod bridge;
pub mod json;

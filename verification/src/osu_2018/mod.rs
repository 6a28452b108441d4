//! The 2018 revision of the standard mode.

pub mod difficulty_object;
pub mod stars;

pub use self::stars::{OsuDifficultyAttributes, OsuPerformanceAttributes};

//! What the 2024 revisions of all modes share.

pub mod difficulty;

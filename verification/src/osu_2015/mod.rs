//! The 2015 revision of the standard mode.

pub mod difficulty_object;

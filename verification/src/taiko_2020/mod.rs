//! The 2020 revision of the taiko mode.

pub mod rim;

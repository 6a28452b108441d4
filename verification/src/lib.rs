//! Difficulty and performance bookkeeping for rhythm-game charts, frozen per
//! mode and revision.
//!
//! Everything in this crate works on integers. A floating-point quantity
//! (a star rating, a clock rate, a strain peak) is carried as the bit pattern
//! of its IEEE-754 encoding. Such values are compared, sorted and held
//! within bounds here, but never computed with: where a calculation needs
//! arithmetic on them, the caller does it, and where a search needs it in
//! its middle, the caller hands it in as a function.

pub mod any_2024;
pub mod fruits_2022;
pub mod fruits_ppv1;
pub mod mania_2018;
pub mod mania_2022;
pub mod mania_ppv1;
pub mod osu_2015;
pub mod osu_2018;
pub mod osu_2022;
pub mod osu_2024;
pub mod taiko_2020;
pub mod taiko_2022;
pub mod taiko_2024;
pub mod taiko_ppv1;
pub mod util;

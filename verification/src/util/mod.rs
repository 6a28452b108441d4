//! Helpers shared by the revisions.

pub mod clock_rate;
pub mod closest;
pub mod control_points;
pub mod float_bits;
pub mod math;
pub mod mods;
pub mod priority;
pub mod score_state;
pub mod sort;
pub mod strains_vec;
pub mod sync;

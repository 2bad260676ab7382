//! Day and night for a procedural sky: a timeline that turns elapsed time into
//! phases of the day, and colour gradients that are sampled along it.
//!
//! All arithmetic is fixed-point (see [`fixed`]), so every result is exact and
//! the same on every machine. Time is counted in whole ticks.
//!
//! - [`cycle`]: the timeline of day and night.
//! - [`stops`], [`gradient`]: sorted stops and the gradients made of them.
//! - [`named_colors`], [`sky_colors`], [`ambient`]: gradients authored from
//!   six named times of the cycle, for the sky and for the ambient light.
//! - [`controller`]: the whole sky, stepped frame by frame.
//! - [`sun`], [`aurora`], [`noise`], [`plugin`], [`presets`], [`frame`],
//!   [`utils`]: the settings of the parts of a sky and the small decisions
//!   around them.

pub mod fixed;
pub mod cycle;
pub mod stops;
pub mod gradient;
pub mod named_colors;
pub mod sky_colors;
pub mod ambient;
pub mod controller;
pub mod sun;
pub mod aurora;
pub mod noise;
pub mod frame;
pub mod plugin;
pub mod presets;
pub mod utils;

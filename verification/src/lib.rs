//! Bit-level, per-channel degradation of RGB raster images ("deepfrying").
//!
//! A [`ChangeMode`] is a rule that turns one channel byte and a 32-bit
//! parameter into a channel byte. A [`DeepfryAlgorithm`] is one pass: a mode
//! with a parameter for each of the three channels. [`deepfry`] runs one pass
//! over every pixel of a [`Raster`], [`deepfry_all`] a run of passes in order.
//! An [`AlgorithmConfig`] is a pass as it is written down in a preset file,
//! and a [`Preset`] a list of them; both are validated before any pixel is
//! touched.

pub mod config;
pub mod engine;
pub mod laws;
pub mod mode;
pub mod random;
pub mod raster;
mod text;

pub use config::{deepfry_preset, select_passes, AlgorithmConfig, Preset, ValidationError};
pub use engine::{deepfry, deepfry_all, DeepfryAlgorithm};
pub use mode::ChangeMode;
pub use raster::Raster;

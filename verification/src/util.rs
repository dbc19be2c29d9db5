//! Utility functions.

pub use crate::style::interpolate_8bit_values;

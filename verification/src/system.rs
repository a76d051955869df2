//! The host's boundaries: controller input, vector types, raw memory.

pub mod button;
pub mod math;
pub mod memory;

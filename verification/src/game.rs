//! The host's game objects.

pub mod player;

//! Helpers shared by the menus.

pub mod menu;

//! The overlay's menus.

pub mod main_menu;

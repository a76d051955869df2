//! A controller-driven overlay menu for a running game.
//!
//! The overlay is a small state machine, [`menus::main_menu::MainMenu`],
//! that the host's frame loop steps three times per frame (activation check,
//! input, render pass), together with a typed view of the host's player actor,
//! [`game::player::ActorLink`], that the submenus read and write.
//!
//! Everything here works on plain values: the host integration reads the
//! controller into a [`system::button::Pad`], performs what the dispatcher
//! asks for, and hands back what the submenus report.

pub mod game;
pub mod menus;
pub mod system;
pub mod utils;

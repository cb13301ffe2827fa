//! The verified core of a small space-flight game: which screen the game
//! shows and what each screen change does, how keys drive the ship's thrust,
//! the topology of the ship's prism mesh, and the store that keeps the
//! default ship configuration.

pub mod game_state;
pub mod movement_controller;
pub mod ship;
pub mod ship_config_store;

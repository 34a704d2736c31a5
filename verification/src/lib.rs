pub mod music_data;
pub mod music_controller;
pub mod chord_finder;
pub mod text;
pub mod midi;
pub mod state;
pub mod events;
pub mod server;
pub mod control_panel;

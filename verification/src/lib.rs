pub mod cli;
pub mod game;
pub mod ids;
pub mod json;
pub mod network;
pub mod persistence;
pub mod session;
pub mod state;
pub mod table;
pub mod tui;

pub mod fabric;
pub mod handlers;
pub mod ping_reaper;
pub mod registry;
pub mod state;

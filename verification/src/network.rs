pub mod client;
pub mod discovery;
pub mod event;
pub mod server;

pub use event::NetworkEvent;

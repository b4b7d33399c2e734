pub mod app;
pub mod discovery;
pub mod layout;

pub use app::App;
pub use discovery::DiscoveryApp;

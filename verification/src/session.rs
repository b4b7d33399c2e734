pub mod client_session;
pub mod error;
pub mod record;
pub mod server_session;

pub use client_session::ClientSession;
pub use error::SessionError;
pub use server_session::ServerSession;

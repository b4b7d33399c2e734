pub mod config;

pub use config::{
    client_session_dir, client_session_file, mudroom_dir, server_session_dir, server_session_file,
    session_dir,
};

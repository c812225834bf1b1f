//! Start-up, supervision and shutdown of a ZeroFS server.
//!
//! Every sequence of decisions that the server takes while it talks to the
//! outside world is a [`machine::Machine`]: a value that says what to do next
//! when it is told how the last thing went. The host program performs the
//! actions and reports the outcomes.

pub mod background;
pub mod checkpoint_refresh;
pub mod composition;
pub mod config;
pub mod database;
pub mod filesystem;
pub mod machine;
pub mod nbd_directory;
pub mod object_path;
pub mod provider_options;
pub mod server;
pub mod servers;
pub mod text;

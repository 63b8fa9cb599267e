//! The decision core of a launcher for FINAL FANTASY XIV 1.23b private servers.

pub mod app;
pub mod config;
pub mod install_check;
pub mod login;
pub mod patcher;
pub mod path_text;
pub mod platform;
pub mod servers;
pub mod text;
pub mod torrent;
pub mod version;

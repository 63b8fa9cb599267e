//! The torrent that carries the patch archive: where its magnet link comes from, and the state of
//! the download.

pub mod endpoint;
pub mod service;
pub mod tasks;

//! Where files lie, and what the user has chosen.

pub mod paths;
pub mod preferences;

//! The servers that can be chosen.

pub mod definitions;

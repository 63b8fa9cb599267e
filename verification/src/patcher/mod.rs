//! Finding, checking and applying the patch files.

pub mod crc;
pub mod extract;
pub mod manifest;
pub mod process;
pub mod progress;
pub mod run;
pub mod search;
pub mod walk;
pub mod worker;

//! Starting the game on the platforms that need Wine for it.

pub mod dxvk;
pub mod macos;
pub mod wine;

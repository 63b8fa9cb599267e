//! The versions that this launcher goes with.

use vstd::prelude::*;

verus! {

/// The launcher's name.
pub const APP_NAME: &'static str = "Garlemald Client";

/// The launcher's own version.
pub const APP_VERSION: &'static str = "0.1.0";

/// What `boot.ver` holds in an up-to-date install.
pub const FFXIV_BOOT_VERSION: &'static str = "2010.09.18.0000";

/// What `game.ver` holds in an up-to-date install.
pub const FFXIV_GAME_VERSION: &'static str = "2012.09.19.0001";

} // verus!

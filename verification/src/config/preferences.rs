//! What the user has chosen.

use vstd::prelude::*;

verus! {

#[derive(Debug)]
pub struct Preferences {
    pub launcher: LauncherPreferences,
    pub developer: DeveloperPreferences,
}

#[derive(Debug)]
pub struct LauncherPreferences {
    pub server_name: String,
    pub server_address: String,
    pub game_location: Option<String>,
    pub wine_runtime_dir: Option<String>,
    pub patch_download_dir: Option<String>,
    /// Whether the patch torrent is seeded while the launcher is open.
    pub seed_patches: bool,
}

/// Choices for developers, all of them off by default.
#[derive(Debug, Clone, Copy, PartialEq, Eq, Structural)]
pub struct DeveloperPreferences {
    /// Whether Wine logs much more than by default.
    pub enable_verbose_wine_debug: bool,
    /// Whether the game's socket calls are traced.
    pub enable_winsock_tracing: bool,
}

/// Whether seeding is on where nothing else was chosen.
pub fn default_seed_patches() -> (r: bool)
    ensures
        r,
{
    true
}

impl LauncherPreferences {
    /// Whether nothing was chosen.
    pub open spec fn is_default(self) -> bool {
        &&& self.server_name@.len() == 0
        &&& self.server_address@.len() == 0
        &&& self.game_location is None
        &&& self.wine_runtime_dir is None
        &&& self.patch_download_dir is None
        &&& self.seed_patches
    }
}

impl Default for LauncherPreferences {
    fn default() -> (r: LauncherPreferences)
        ensures
            r.is_default(),
    {
        LauncherPreferences {
            server_name: String::new(),
            server_address: String::new(),
            game_location: None,
            wine_runtime_dir: None,
            patch_download_dir: None,
            seed_patches: default_seed_patches(),
        }
    }
}

impl Default for DeveloperPreferences {
    fn default() -> (r: DeveloperPreferences)
        ensures
            !r.enable_verbose_wine_debug,
            !r.enable_winsock_tracing,
    {
        DeveloperPreferences { enable_verbose_wine_debug: false, enable_winsock_tracing: false }
    }
}

impl Default for Preferences {
    fn default() -> (r: Preferences)
        ensures
            r.launcher.is_default(),
            !r.developer.enable_verbose_wine_debug,
            !r.developer.enable_winsock_tracing,
    {
        Preferences {
            launcher: LauncherPreferences::default(),
            developer: DeveloperPreferences::default(),
        }
    }
}

/// Where nothing was chosen, nothing is set but that the patches are seeded.
pub proof fn law_what_is_chosen_by_default(prefs: LauncherPreferences)
    requires
        prefs.is_default(),
    ensures
        prefs.server_name@ == Seq::<char>::empty(),
        prefs.server_address@ == Seq::<char>::empty(),
        prefs.game_location is None,
        prefs.wine_runtime_dir is None,
        prefs.patch_download_dir is None,
        prefs.seed_patches,
{
}

} // verus!

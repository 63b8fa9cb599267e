//! What a login and a launch need: an install, and one that is up to date.

use vstd::prelude::*;
use crate::patcher::process::{check_game_version, is_current, law_one_version_is_current};
use crate::text::{is_blank, is_tight, text_of, trim, trimmed};

verus! {

/// In every install from the first version on.
pub const BOOT_EXE: &'static str = "ffxivboot.exe";

/// Only there once the patches were applied.
pub const CLIENT_EXE: &'static str = "ffxivgame.exe";

/// Where an install stands.
#[derive(Debug, PartialEq, Eq)]
pub enum InstallState {
    /// There is no game directory, or it is no install.
    NotFound,
    /// An install that is not up to date, with its version where it tells one.
    FoundNeedsPatch { game_version: Option<String> },
    /// An install that can be launched.
    Ready,
}

/// The verdict, with the directory that it is about.
#[derive(Debug, PartialEq, Eq)]
pub struct InstallStatus {
    pub state: InstallState,
    pub game_dir: Option<String>,
}

/// What a game directory holds.
#[derive(Debug, PartialEq, Eq)]
pub struct GameDir {
    pub path: String,
    /// Whether [`BOOT_EXE`] is a file in it.
    pub boot_exe: bool,
    /// Whether [`CLIENT_EXE`] is a file in it.
    pub client_exe: bool,
    /// The text of `game.ver`, where it can be read.
    pub game_ver: Option<String>,
}

impl GameDir {
    /// Whether this is an install that can be launched.
    pub open spec fn is_ready(self) -> bool {
        &&& self.boot_exe
        &&& self.client_exe
        &&& self.tells_current_version()
    }

    /// Whether its `game.ver` names the version that the servers speak.
    pub open spec fn tells_current_version(self) -> bool {
        self.game_ver is Some && is_current(self.game_ver->0@)
    }

    /// Whether its `game.ver` names the version that the servers speak.
    fn has_current_version(&self) -> (r: bool)
        ensures
            r == self.tells_current_version(),
    {
        match &self.game_ver {
            Some(text) => check_game_version(Some(text.as_str())),
            None => check_game_version(None),
        }
    }
}

/// Whether `status` is the verdict on a game directory, where there is one.
pub open spec fn is_verdict(game_dir: Option<GameDir>, status: InstallStatus) -> bool {
    match game_dir {
        None => status.game_dir is None && status.state is NotFound,
        Some(dir) => {
            &&& status.game_dir == Some(dir.path)
            &&& status.state is NotFound <==> !dir.boot_exe
            &&& status.state is Ready <==> dir.is_ready()
            &&& status.state is FoundNeedsPatch ==> text_of(status.state->game_version)
                == version_told(dir.game_ver)
        },
    }
}

/// The version that a `game.ver` tells, if it tells one.
pub open spec fn version_told(game_ver: Option<String>) -> Option<Seq<char>> {
    match game_ver {
        Some(text) => if trimmed(text@).len() > 0 {
            Some(trimmed(text@))
        } else {
            None
        },
        None => None,
    }
}

/// See [`version_told`].
fn read_game_version(game_ver: &Option<String>) -> (r: Option<String>)
    ensures
        text_of(r) == version_told(*game_ver),
{
    match game_ver {
        Some(text) => {
            let version: &str = trim(text.as_str());
            if version.is_empty() {
                None
            } else {
                Some(version.to_owned())
            }
        },
        None => None,
    }
}

/// The verdict on a game directory, where there is one.
pub fn check_install(game_dir: Option<GameDir>) -> (r: InstallStatus)
    ensures
        is_verdict(game_dir, r),
{
    let dir: GameDir = match game_dir {
        Some(dir) => dir,
        None => {
            return InstallStatus { state: InstallState::NotFound, game_dir: None };
        },
    };
    if !dir.boot_exe {
        return InstallStatus { state: InstallState::NotFound, game_dir: Some(dir.path) };
    }
    let state: InstallState = if dir.has_current_version() && dir.client_exe {
        InstallState::Ready
    } else {
        InstallState::FoundNeedsPatch { game_version: read_game_version(&dir.game_ver) }
    };
    InstallStatus { state, game_dir: Some(dir.path) }
}

/// Whether there is an install whose `game.ver` does not name the version that the servers speak.
/// The user is then asked, at the start, whether to update it.
pub fn game_is_installed_but_outdated(game_dir: &Option<GameDir>) -> (r: bool)
    ensures
        r == (game_dir is Some && game_dir->0.boot_exe && !game_dir->0.tells_current_version()),
{
    match game_dir {
        Some(dir) => dir.boot_exe && !dir.has_current_version(),
        None => false,
    }
}

/// An install can be launched exactly where both programs are there and its version, white space
/// aside, is the one that the servers speak. Without the first program there is no install.
pub proof fn law_what_makes_an_install_ready(
    dir: GameDir,
    status: InstallStatus,
    lead: Seq<char>,
    version: Seq<char>,
    trail: Seq<char>,
)
    requires
        is_verdict(Some(dir), status),
        dir.game_ver is Some ==> dir.game_ver->0@ == lead + version + trail,
        is_blank(lead),
        is_tight(version),
        is_blank(trail),
    ensures
        status.state is Ready <==> dir.boot_exe && dir.client_exe && dir.game_ver is Some && version
            == "2012.09.19.0001"@,
        status.state is NotFound <==> !dir.boot_exe,
        status.game_dir == Some(dir.path),
        status.state is FoundNeedsPatch ==> text_of(status.state->game_version)
            == if dir.game_ver is Some && version.len() > 0 {
            Some(version)
        } else {
            None
        },
{
    law_one_version_is_current(lead, version, trail);
    crate::text::law_trimming_takes_off_what_is_around(lead, version, trail);
}

/// Whether an install tells the current version depends on its `game.ver` alone.
pub proof fn law_the_version_is_told_by_its_file(
    dir: GameDir,
    lead: Seq<char>,
    version: Seq<char>,
    trail: Seq<char>,
)
    requires
        is_blank(lead),
        is_tight(version),
        is_blank(trail),
    ensures
        dir.game_ver is None ==> !dir.tells_current_version(),
        dir.game_ver is Some && dir.game_ver->0@ == lead + version + trail ==> (
        dir.tells_current_version() <==> version == "2012.09.19.0001"@),
{
    law_one_version_is_current(lead, version, trail);
}

/// Without a game directory nothing is found.
pub proof fn law_nothing_is_found_nowhere(status: InstallStatus)
    requires
        is_verdict(None, status),
    ensures
        status.state == InstallState::NotFound,
        status.game_dir is None,
{
}

} // verus!

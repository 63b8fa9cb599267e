//! The launcher's main window: which server and which install are meant, what stands in the way of
//! a launch, and what follows from each click.

use vstd::prelude::*;
use crate::config::preferences::Preferences;
use crate::install_check::{
    check_install, game_is_installed_but_outdated, is_verdict, GameDir, InstallState, InstallStatus,
};
use crate::patcher::extract::PatchPayload;
use crate::patcher::worker::PatchSource;
use crate::path_text::{is_same_path, same_path};
use crate::servers::definitions::{place_of, ServerDefinition, ServerDefinitions, ServerView};
use crate::text::{same, text_of, texts, trim, trimmed};
use crate::torrent::endpoint::TORRENT_ENDPOINT;
use crate::torrent::service::{TorrentService, TorrentState};
use crate::torrent::tasks::DownloadTask;
use crate::version::FFXIV_GAME_VERSION;

verus! {

/// How often the install is looked at again, in milliseconds.
pub const INSTALL_CHECK_MS: u64 = 3000;

#[derive(Debug, Clone, Copy, PartialEq, Eq, Structural)]
pub enum MessageKind {
    Info,
    Error,
}

/// What the window tells the user.
#[derive(Debug, PartialEq, Eq)]
pub struct Message {
    pub kind: MessageKind,
    pub text: String,
}

/// A launch of the game.
#[derive(Debug, PartialEq, Eq)]
pub struct GameLaunchRequest {
    pub game_dir: String,
    pub lobby_host: String,
    pub session_id: String,
    /// Wine's debug channels, where others than the usual are wanted.
    pub wine_debug_override: Option<String>,
    pub enable_winsock_proxy: bool,
}

/// A run of the patcher that is to be started.
#[derive(Debug, PartialEq, Eq)]
pub struct PatchStart {
    pub game_dir: String,
    pub source: PatchSource,
}

/// The login that a click on "Launch" leads to.
#[derive(Debug, PartialEq, Eq)]
pub enum LoginStart {
    /// None: something stands in the way, and the window says what.
    Nothing,
    /// The window for the server's JSON interface.
    Native { server_name: String, api_url: String },
    /// The server's web page.
    Page { login_url: String },
}

/// The state of the main window.
#[derive(Debug)]
pub struct Launcher {
    pub prefs: Preferences,
    pub servers: ServerDefinitions,
    pub selected_server_name: Option<String>,
    pub manual_server_address: String,
    pub detected_install: Option<String>,
    pub dev_session_id: String,
    /// Whether the patcher's screen is shown.
    pub patching: bool,
    pub settings_open: bool,
    pub developer_open: bool,
    /// Whether a login in a web page is under way.
    pub login_running: bool,
    /// Whether the window for a login through a JSON interface is open.
    pub native_login_open: bool,
    pub outdated_prompt_open: bool,
    pub last_message: Option<Message>,
    pub install_status: InstallStatus,
    pub torrent_apply_attempted: bool,
}

/// The preferences to begin with: those of the user, or the bundled ones where the user has none;
/// a file that cannot be read counts for the defaults.
pub fn initial_preferences(
    user_file: Option<Option<Preferences>>,
    bundled_file: Option<Option<Preferences>>,
) -> (r: Preferences)
    ensures
        ({
            let chosen = match user_file {
                Some(loaded) => loaded,
                None => match bundled_file {
                    Some(loaded) => loaded,
                    None => None,
                },
            };
            match chosen {
                Some(prefs) => r == prefs,
                None => {
                    &&& r.launcher.is_default()
                    &&& !r.developer.enable_verbose_wine_debug
                    &&& !r.developer.enable_winsock_tracing
                },
            }
        }),
{
    let chosen: Option<Preferences> = match user_file {
        Some(loaded) => loaded,
        None => match bundled_file {
            Some(loaded) => loaded,
            None => None,
        },
    };
    match chosen {
        Some(prefs) => prefs,
        None => Preferences::default(),
    }
}

/// A copy of an optional text.
fn copied(text: &Option<String>) -> (r: Option<String>)
    ensures
        r == *text,
{
    match text {
        Some(text) => Some(text.clone()),
        None => None,
    }
}

/// The first of two optional texts that is there.
fn either(first: &Option<String>, second: &Option<String>) -> (r: Option<String>)
    ensures
        r == if first is Some {
            *first
        } else {
            *second
        },
{
    match first {
        Some(text) => Some(text.clone()),
        None => copied(second),
    }
}

/// The directory in which a torrent of an earlier run is looked for at the start, if seeding is
/// on: the chosen storage folder, or the default one.
pub fn seeding_dir_at_start(prefs: &Preferences, default_dir: Option<String>) -> (r: Option<String>)
    ensures
        r == if !prefs.launcher.seed_patches {
            None
        } else if prefs.launcher.patch_download_dir is Some {
            prefs.launcher.patch_download_dir
        } else {
            default_dir
        },
{
    if prefs.launcher.seed_patches {
        either(&prefs.launcher.patch_download_dir, &default_dir)
    } else {
        None
    }
}

/// The text about an install that cannot be launched; empty for one that can.
pub open spec fn gate_text(state: InstallState) -> Seq<char> {
    match state {
        InstallState::NotFound => {
            "Game install not found - set the game location in Game Settings."@
        },
        InstallState::FoundNeedsPatch { game_version } => match game_version {
            Some(version) => if version@ == FFXIV_GAME_VERSION@ {
                "Client files are incomplete (ffxivgame.exe is missing) - re-apply the patches before logging in."@
            } else {
                "Client is at "@ + version@ + " - apply the 1.23b patches before logging in."@
            },
            None => "Client is not 1.23b - apply the patches before logging in."@,
        },
        InstallState::Ready => ""@,
    }
}

/// The text about a directory that is no install.
pub open spec fn not_an_install(dir: Seq<char>) -> Seq<char> {
    "'"@ + dir + "' doesn't look like an FFXIV install (no ffxivboot.exe)."@
}

/// A place where the downloaded patches are looked for is added to those before it, unless it is
/// among them.
pub open spec fn with_candidate(before: Seq<Seq<char>>, dir: Option<Seq<char>>) -> Seq<Seq<char>> {
    match dir {
        Some(dir) => if exists|i: int| 0 <= i < before.len() && same_path(#[trigger] before[i], dir) {
            before
        } else {
            before.push(dir)
        },
        None => before,
    }
}

/// The places where the downloaded patches are looked for: the narrowest first.
pub open spec fn candidates_of(
    payload_dir: Option<Seq<char>>,
    output_dir: Option<Seq<char>>,
    storage_dir: Option<Seq<char>>,
) -> Seq<Seq<char>> {
    with_candidate(
        with_candidate(with_candidate(Seq::empty(), payload_dir), output_dir),
        storage_dir,
    )
}

fn add_candidate(candidates: &mut Vec<String>, dir: Option<String>)
    ensures
        texts(final(candidates)@) == with_candidate(texts(old(candidates)@), text_of(dir)),
{
    let ghost wanted: Option<Seq<char>> = text_of(dir);
    if let Some(path) = dir {
        let ghost all: Seq<Seq<char>> = texts(candidates@);
        let mut i: usize = 0;
        while i < candidates.len()
            invariant
                i <= candidates.len(),
                candidates@ == old(candidates)@,
                all == texts(candidates@),
                wanted == Some(path@),
                wanted == text_of(dir),
                forall|j: int| 0 <= j < i ==> !same_path(#[trigger] all[j], path@),
            decreases candidates.len() - i,
        {
            assert(all[i as int] == candidates@[i as int]@);
            if is_same_path(candidates[i].as_str(), path.as_str()) {
                return ;
            }
            i = i + 1;
        }
        candidates.push(path);
        assert(texts(candidates@) =~= all.push(wanted->0));
    }
}

/// See [`candidates_of`].
pub fn apply_candidates(
    payload_dir: Option<String>,
    output_dir: Option<String>,
    storage_dir: Option<String>,
) -> (r: Vec<String>)
    ensures
        texts(r@) == candidates_of(
            text_of(payload_dir),
            text_of(output_dir),
            text_of(storage_dir),
        ),
{
    let mut candidates: Vec<String> = Vec::new();
    assert(texts(candidates@) =~= Seq::<Seq<char>>::empty());
    add_candidate(&mut candidates, payload_dir);
    add_candidate(&mut candidates, output_dir);
    add_candidate(&mut candidates, storage_dir);
    candidates
}

/// What the patcher reads when the user has picked a folder: the archive that was found in it, or
/// the folder itself.
pub fn picked_source(picked: String, found: Option<PatchPayload>) -> (r: PatchSource)
    ensures
        match found {
            Some(PatchPayload::Zip(path)) => r == (PatchSource::LocalZip { zip_path: path }),
            _ => r == (PatchSource::Local { source_dir: picked }),
        },
{
    match found {
        Some(PatchPayload::Zip(zip_path)) => PatchSource::LocalZip { zip_path },
        _ => PatchSource::Local { source_dir: picked },
    }
}

/// Where the game is at the start: the place that the user has chosen, or the install that was
/// found.
pub fn location_at_start(prefs: &Preferences, detected_install: &Option<String>) -> (r: Option<
    String,
>)
    ensures
        r == if prefs.launcher.game_location is Some {
            prefs.launcher.game_location
        } else {
            *detected_install
        },
{
    either(&prefs.launcher.game_location, detected_install)
}

impl Launcher {
    /// The window at the start. `game` is what the game's directory holds, where there is one.
    pub fn new(
        prefs: Preferences,
        servers: ServerDefinitions,
        detected_install: Option<String>,
        game: Option<GameDir>,
    ) -> (r: Launcher)
        ensures
            r.prefs == prefs,
            r.servers == servers,
            r.detected_install == detected_install,
            is_verdict(game, r.install_status),
            r.outdated_prompt_open == (game is Some && game->0.boot_exe
                && !game->0.tells_current_version()),
            text_of(r.selected_server_name) == if prefs.launcher.server_name@.len() > 0 {
                Some(prefs.launcher.server_name@)
            } else if servers@.len() > 0 {
                Some(servers@[0].name)
            } else {
                None
            },
            r.manual_server_address == prefs.launcher.server_address,
            r.dev_session_id@.len() == 0,
            !r.patching,
            !r.settings_open,
            !r.developer_open,
            !r.login_running,
            !r.native_login_open,
            r.last_message is None,
            !r.torrent_apply_attempted,
    {
        let selected_server_name: Option<String> = if !prefs.launcher.server_name.as_str().is_empty() {
            Some(prefs.launcher.server_name.clone())
        } else {
            match servers.first() {
                Some(server) => Some(server.name.clone()),
                None => None,
            }
        };
        let manual_server_address: String = prefs.launcher.server_address.clone();
        let outdated: bool = game_is_installed_but_outdated(&game);
        let install_status: InstallStatus = check_install(game);
        Launcher {
            prefs,
            servers,
            selected_server_name,
            manual_server_address,
            detected_install,
            dev_session_id: String::new(),
            patching: false,
            settings_open: false,
            developer_open: false,
            login_running: false,
            native_login_open: false,
            outdated_prompt_open: outdated,
            last_message: None,
            install_status,
            torrent_apply_attempted: false,
        }
    }

    /// The selected server, if it is one of those that are offered.
    pub open spec fn server(self) -> Option<ServerView> {
        match self.selected_server_name {
            Some(name) => {
                let place = place_of(self.servers@, name@);
                if 0 <= place < self.servers@.len() {
                    Some(self.servers@[place])
                } else {
                    None
                }
            },
            None => None,
        }
    }

    /// The directory of the game: the chosen one, or the one that was found.
    pub open spec fn game_location(self) -> Option<String> {
        if self.prefs.launcher.game_location is Some {
            self.prefs.launcher.game_location
        } else {
            self.detected_install
        }
    }

    /// The server's address: the one that was typed, or that of the selected server.
    pub open spec fn server_address(self) -> Option<Seq<char>> {
        if trimmed(self.manual_server_address@).len() > 0 {
            Some(trimmed(self.manual_server_address@))
        } else {
            match self.server() {
                Some(server) => Some(server.address),
                None => None,
            }
        }
    }

    pub open spec fn login_url(self) -> Option<Seq<char>> {
        match self.server() {
            Some(server) => if server.login_url.len() > 0 {
                Some(server.login_url)
            } else {
                None
            },
            None => None,
        }
    }

    pub open spec fn api_url(self) -> Option<Seq<char>> {
        match self.server() {
            Some(server) => if server.api_url.len() > 0 {
                Some(server.api_url)
            } else {
                None
            },
            None => None,
        }
    }

    fn selected_server(&self) -> (r: Option<&ServerDefinition>)
        ensures
            match r {
                Some(server) => self.server() == Some(server@),
                None => self.server() is None,
            },
    {
        match &self.selected_server_name {
            Some(name) => {
                proof {
                    crate::servers::definitions::lemma_place_of(self.servers@, name@);
                }
                self.servers.get(name.as_str())
            },
            None => None,
        }
    }

    pub fn resolved_login_url(&self) -> (r: Option<String>)
        ensures
            text_of(r) == self.login_url(),
    {
        match self.selected_server() {
            Some(server) => if server.login_url.as_str().is_empty() {
                None
            } else {
                Some(server.login_url.clone())
            },
            None => None,
        }
    }

    pub fn resolved_api_url(&self) -> (r: Option<String>)
        ensures
            text_of(r) == self.api_url(),
    {
        match self.selected_server() {
            Some(server) => if server.api_url.as_str().is_empty() {
                None
            } else {
                Some(server.api_url.clone())
            },
            None => None,
        }
    }

    pub fn resolved_game_location(&self) -> (r: Option<String>)
        ensures
            r == self.game_location(),
    {
        either(&self.prefs.launcher.game_location, &self.detected_install)
    }

    pub fn resolved_server_address(&self) -> (r: Option<String>)
        ensures
            text_of(r) == self.server_address(),
    {
        let typed: &str = trim(self.manual_server_address.as_str());
        if !typed.is_empty() {
            return Some(typed.to_owned());
        }
        match self.selected_server() {
            Some(server) => Some(server.address.clone()),
            None => None,
        }
    }

    /// The folder for the patches: the chosen one, or the default one.
    pub fn resolved_patch_storage_dir(&self, default_dir: Option<String>) -> (r: Option<String>)
        ensures
            r == if self.prefs.launcher.patch_download_dir is Some {
                self.prefs.launcher.patch_download_dir
            } else {
                default_dir
            },
    {
        either(&self.prefs.launcher.patch_download_dir, &default_dir)
    }

    /// Whether the game can be launched.
    pub open spec fn ready(self) -> bool {
        self.install_status.state is Ready
    }

    pub fn install_ready(&self) -> (r: bool)
        ensures
            r == self.ready(),
    {
        match &self.install_status.state {
            InstallState::Ready => true,
            _ => false,
        }
    }

    /// Why the game cannot be launched; see [`gate_text`].
    pub fn install_gate_message(&self) -> (r: String)
        ensures
            r@ == gate_text(self.install_status.state),
    {
        match &self.install_status.state {
            InstallState::NotFound => {
                "Game install not found - set the game location in Game Settings.".to_owned()
            },
            InstallState::FoundNeedsPatch { game_version } => match game_version {
                Some(version) => if same(version.as_str(), FFXIV_GAME_VERSION) {
                    "Client files are incomplete (ffxivgame.exe is missing) - re-apply the patches before logging in.".to_owned()
                } else {
                    let mut out: String = "Client is at ".to_owned();
                    out.append(version.as_str());
                    out.append(" - apply the 1.23b patches before logging in.");
                    out
                },
                None => "Client is not 1.23b - apply the patches before logging in.".to_owned(),
            },
            InstallState::Ready => "".to_owned(),
        }
    }

    /// Whether everything but the message, the open windows and what is listed with them is that
    /// of `other`: what is chosen and what is known of the install.
    pub open spec fn same_choices(self, other: Launcher) -> bool {
        &&& self.servers == other.servers
        &&& self.selected_server_name == other.selected_server_name
        &&& self.manual_server_address == other.manual_server_address
        &&& self.detected_install == other.detected_install
        &&& self.dev_session_id == other.dev_session_id
    }

    /// Whether the screen and the open windows are those of `other`.
    pub open spec fn same_windows(self, other: Launcher) -> bool {
        &&& self.patching == other.patching
        &&& self.settings_open == other.settings_open
        &&& self.developer_open == other.developer_open
        &&& self.login_running == other.login_running
        &&& self.native_login_open == other.native_login_open
        &&& self.outdated_prompt_open == other.outdated_prompt_open
    }

    /// Whether at most the message differs from `other`.
    pub open spec fn same_but_message(self, other: Launcher) -> bool {
        &&& self.prefs == other.prefs
        &&& self.same_choices(other)
        &&& self.same_windows(other)
        &&& self.install_status == other.install_status
        &&& self.torrent_apply_attempted == other.torrent_apply_attempted
    }

    /// Whether the window shows the given message.
    pub open spec fn shows(self, kind: MessageKind, text: Seq<char>) -> bool {
        &&& self.last_message is Some
        &&& self.last_message->0.kind == kind
        &&& self.last_message->0.text@ == text
    }

    pub fn set_info(&mut self, text: &str)
        ensures
            final(self).shows(MessageKind::Info, text@),
            final(self).same_but_message(*old(self)),
    {
        self.last_message = Some(Message { kind: MessageKind::Info, text: text.to_owned() });
    }

    pub fn set_error(&mut self, text: &str)
        ensures
            final(self).shows(MessageKind::Error, text@),
            final(self).same_but_message(*old(self)),
    {
        self.last_message = Some(Message { kind: MessageKind::Error, text: text.to_owned() });
    }

    /// Takes over a new verdict on the install. The question whether to update is closed when the
    /// install needs no update any more.
    pub fn refresh_install_status(&mut self, status: InstallStatus)
        ensures
            final(self).refreshed(*old(self), status),
    {
        self.install_status = status;
        if self.install_ready() {
            self.outdated_prompt_open = false;
        }
    }

    /// Whether the verdict is the given one, and nothing else differs but the question that it
    /// may have closed.
    pub open spec fn refreshed(self, old: Launcher, status: InstallStatus) -> bool {
        &&& self.install_status == status
        &&& self.outdated_prompt_open == (old.outdated_prompt_open && !(status.state is Ready))
        &&& self.prefs == old.prefs
        &&& self.same_choices(old)
        &&& self.patching == old.patching
        &&& self.settings_open == old.settings_open
        &&& self.developer_open == old.developer_open
        &&& self.login_running == old.login_running
        &&& self.native_login_open == old.native_login_open
        &&& self.last_message == old.last_message
        &&& self.torrent_apply_attempted == old.torrent_apply_attempted
    }

    /// Whether the install is to be looked at again, so long after the last time.
    pub fn install_check_due(&self, elapsed_ms: u64) -> (r: bool)
        ensures
            r == (!self.patching && elapsed_ms >= INSTALL_CHECK_MS),
            r == (!self.patching && elapsed_ms >= 3000),
    {
        !self.patching && elapsed_ms >= INSTALL_CHECK_MS
    }

    /// Takes what was typed and selected into the preferences, which are then to be saved.
    pub fn save_preferences(&mut self)
        ensures
            final(self).saved(*old(self)),
            final(self).last_message == old(self).last_message,
            final(self).same_windows(*old(self)),
    {
        if let Some(name) = &self.selected_server_name {
            self.prefs.launcher.server_name = name.clone();
        }
        self.prefs.launcher.server_address = self.manual_server_address.clone();
    }

    /// Whether the preferences hold what was typed and selected, and at most message and windows
    /// differ otherwise.
    pub open spec fn saved(self, old: Launcher) -> bool {
        &&& self.prefs.launcher.server_name == match old.selected_server_name {
            Some(name) => name,
            None => old.prefs.launcher.server_name,
        }
        &&& self.prefs.launcher.server_address == old.manual_server_address
        &&& self.prefs.launcher.game_location == old.prefs.launcher.game_location
        &&& self.prefs.launcher.wine_runtime_dir == old.prefs.launcher.wine_runtime_dir
        &&& self.prefs.launcher.patch_download_dir == old.prefs.launcher.patch_download_dir
        &&& self.prefs.launcher.seed_patches == old.prefs.launcher.seed_patches
        &&& self.prefs.developer == old.prefs.developer
        &&& self.same_choices(old)
        &&& self.install_status == old.install_status
        &&& self.torrent_apply_attempted == old.torrent_apply_attempted
    }

    /// The patcher is to read the given source, if there is a game to patch.
    pub fn kick_off_local_patcher(&mut self, source: PatchSource) -> (r: Option<PatchStart>)
        ensures
            match old(self).game_location() {
                Some(dir) => {
                    &&& r == Some(PatchStart { game_dir: dir, source })
                    &&& final(self).patching
                    &&& final(self).began_patching(*old(self))
                },
                None => {
                    &&& r is None
                    &&& final(self).shows(MessageKind::Error, "No game location set."@)
                    &&& final(self).same_but_message(*old(self))
                },
            },
    {
        match self.resolved_game_location() {
            Some(game_dir) => {
                self.patching = true;
                Some(PatchStart { game_dir, source })
            },
            None => {
                self.set_error("No game location set.");
                None
            },
        }
    }

    /// Whether the patcher's screen has been opened, and nothing else differs.
    pub open spec fn began_patching(self, old: Launcher) -> bool {
        &&& self.patching
        &&& self.prefs == old.prefs
        &&& self.same_choices(old)
        &&& self.settings_open == old.settings_open
        &&& self.developer_open == old.developer_open
        &&& self.login_running == old.login_running
        &&& self.native_login_open == old.native_login_open
        &&& self.outdated_prompt_open == old.outdated_prompt_open
        &&& self.last_message == old.last_message
        &&& self.install_status == old.install_status
        &&& self.torrent_apply_attempted == old.torrent_apply_attempted
    }

    /// The game that patches can be applied to, by whether its directory is an install; where
    /// there is none, the window says why.
    fn patchable_game(&mut self, valid: bool) -> (r: Option<String>)
        ensures
            final(self).same_but_message(*old(self)),
            match old(self).game_location() {
                None => {
                    &&& r is None
                    &&& final(self).shows(
                        MessageKind::Error,
                        "No game location set. Use Game Settings to pick one."@,
                    )
                },
                Some(dir) => if valid {
                    r == Some(dir) && final(self).last_message == old(self).last_message
                } else {
                    r is None && final(self).shows(MessageKind::Error, not_an_install(dir@))
                },
            },
    {
        match self.resolved_game_location() {
            None => {
                self.set_error("No game location set. Use Game Settings to pick one.");
                None
            },
            Some(dir) => {
                if valid {
                    Some(dir)
                } else {
                    let mut message: String = "'".to_owned();
                    message.append(dir.as_str());
                    message.append("' doesn't look like an FFXIV install (no ffxivboot.exe).");
                    self.set_error(message.as_str());
                    None
                }
            },
        }
    }

    /// Whether the user is asked for a folder with patches; where not, the window says why.
    pub fn start_local_install(&mut self, valid: bool) -> (r: bool)
        ensures
            final(self).same_but_message(*old(self)),
            r == (old(self).game_location() is Some && valid),
            r ==> final(self).last_message == old(self).last_message,
            !r ==> final(self).shows(
                MessageKind::Error,
                match old(self).game_location() {
                    None => "No game location set. Use Game Settings to pick one."@,
                    Some(dir) => not_an_install(dir@),
                },
            ),
    {
        self.patchable_game(valid).is_some()
    }

    /// Starts to download the patches into the storage folder, which was created before.
    pub fn start_torrent_download(
        &mut self,
        service: &mut TorrentService,
        storage_dir: Option<String>,
        created: Result<(), String>,
    ) -> (r: Option<DownloadTask>)
        requires
            old(service).wf(),
        ensures
            final(service).wf(),
            match storage_dir {
                None => {
                    &&& r is None
                    &&& final(self).same_but_message(*old(self))
                    &&& final(self).shows(
                        MessageKind::Error,
                        "Could not resolve a patch storage directory."@,
                    )
                    &&& *final(service) == *old(service)
                },
                Some(dir) => match created {
                    Err(e) => {
                        &&& r is None
                        &&& final(self).same_but_message(*old(self))
                        &&& final(self).shows(
                            MessageKind::Error,
                            "Could not create patch storage directory "@ + dir@ + ": "@ + e@,
                        )
                        &&& *final(service) == *old(service)
                    },
                    Ok(_) => {
                        let busy = old(service).current() == TorrentState::Resolving
                            || old(service).current() == TorrentState::Downloading;
                        &&& !final(self).torrent_apply_attempted
                        &&& final(self).prefs == old(self).prefs
                        &&& final(self).same_choices(*old(self))
                        &&& final(self).same_windows(*old(self))
                        &&& final(self).install_status == old(self).install_status
                        &&& busy ==> {
                            &&& r is None
                            &&& *final(service) == *old(service)
                            &&& final(self).shows(
                                MessageKind::Info,
                                "A patch download is already running; patches apply automatically when it finishes."@,
                            )
                        }
                        &&& !busy ==> {
                            &&& r is Some
                            &&& r->0.endpoint_url@ == TORRENT_ENDPOINT@
                            &&& r->0.begins(
                                r->0.endpoint_url,
                                dir,
                                TorrentService::after(old(service).generation),
                            )
                            &&& final(service).generation == TorrentService::after(
                                old(service).generation,
                            )
                            &&& final(service).current() == TorrentState::Resolving
                            &&& final(service).error is None
                            &&& final(service).same_counters(*old(service))
                            &&& final(service).same_session(*old(service))
                            &&& final(service).seeding_enabled == old(service).seeding_enabled
                            &&& final(self).shows(
                                MessageKind::Info,
                                "Fetching the patch torrent..."@,
                            )
                        }
                    },
                },
            },
    {
        let dir: String = match storage_dir {
            Some(dir) => dir,
            None => {
                self.set_error("Could not resolve a patch storage directory.");
                return None;
            },
        };
        if let Err(e) = created {
            let mut message: String = "Could not create patch storage directory ".to_owned();
            message.append(dir.as_str());
            message.append(": ");
            message.append(e.as_str());
            self.set_error(message.as_str());
            return None;
        }
        self.torrent_apply_attempted = false;
        match service.start_download(TORRENT_ENDPOINT.to_owned(), dir) {
            Ok(task) => {
                self.set_info("Fetching the patch torrent...");
                Some(task)
            },
            Err(_) => {
                self.set_info(
                    "A patch download is already running; patches apply automatically when it finishes.",
                );
                None
            },
        }
    }

    /// Applies the patches that were downloaded. `valid` says whether the game's directory is an
    /// install, and `found` what a [`PayloadSearch`](crate::patcher::search::PayloadSearch) over the
    /// candidates ended with.
    pub fn kick_off_torrent_apply(
        &mut self,
        valid: bool,
        candidates: &Vec<String>,
        found: Option<PatchPayload>,
    ) -> (r: Option<PatchStart>)
        ensures
            match old(self).game_location() {
                None => {
                    &&& r is None
                    &&& final(self).same_but_message(*old(self))
                    &&& final(self).shows(
                        MessageKind::Error,
                        "No game location set. Use Game Settings to pick one."@,
                    )
                },
                Some(dir) => if !valid {
                    &&& r is None
                    &&& final(self).same_but_message(*old(self))
                    &&& final(self).shows(MessageKind::Error, not_an_install(dir@))
                } else {
                    match found {
                        None => {
                            &&& r is None
                            &&& final(self).same_but_message(*old(self))
                            &&& final(self).shows(
                                MessageKind::Error,
                                "No downloaded patches were found in "@ + first_or(
                                    texts(candidates@),
                                    "the storage directory"@,
                                ) + ". Download them first."@,
                            )
                        },
                        Some(payload) => {
                            &&& r == Some(
                                PatchStart {
                                    game_dir: dir,
                                    source: match payload {
                                        PatchPayload::Zip(path) => PatchSource::LocalZip {
                                            zip_path: path,
                                        },
                                        PatchPayload::PatchDir(path) => PatchSource::Local {
                                            source_dir: path,
                                        },
                                    },
                                },
                            )
                            &&& final(self).began_patching(*old(self))
                        },
                    }
                },
            },
    {
        let game_dir: String = match self.patchable_game(valid) {
            Some(dir) => dir,
            None => {
                return None;
            },
        };
        let source: PatchSource = match found {
            Some(PatchPayload::Zip(zip_path)) => PatchSource::LocalZip { zip_path },
            Some(PatchPayload::PatchDir(source_dir)) => PatchSource::Local { source_dir },
            None => {
                let mut message: String = "No downloaded patches were found in ".to_owned();
                if candidates.len() > 0 {
                    assert(texts(candidates@)[0] == candidates@[0]@);
                    message.append(candidates[0].as_str());
                } else {
                    message.append("the storage directory");
                }
                message.append(". Download them first.");
                self.set_error(message.as_str());
                return None;
            },
        };
        self.patching = true;
        Some(PatchStart { game_dir, source })
    }
}

/// The first of the texts, or another one where there is none.
pub open spec fn first_or(all: Seq<Seq<char>>, other: Seq<char>) -> Seq<char> {
    if all.len() > 0 {
        all[0]
    } else {
        other
    }
}

/// The text about each verdict on an install.
pub proof fn law_what_is_told_of_an_install(version: String)
    ensures
        gate_text(InstallState::Ready) == ""@,
        gate_text(InstallState::NotFound)
            == "Game install not found - set the game location in Game Settings."@,
        gate_text(InstallState::FoundNeedsPatch { game_version: None })
            == "Client is not 1.23b - apply the patches before logging in."@,
        version@ == "2012.09.19.0001"@ ==> gate_text(
            InstallState::FoundNeedsPatch { game_version: Some(version) },
        )
            == "Client files are incomplete (ffxivgame.exe is missing) - re-apply the patches before logging in."@,
        version@ != "2012.09.19.0001"@ ==> gate_text(
            InstallState::FoundNeedsPatch { game_version: Some(version) },
        ) == "Client is at "@ + version@ + " - apply the 1.23b patches before logging in."@,
        not_an_install(version@) == "'"@ + version@
            + "' doesn't look like an FFXIV install (no ffxivboot.exe)."@,
{
}

/// Whether a directory is among the candidates.
pub open spec fn is_covered(candidates: Seq<Seq<char>>, dir: Option<Seq<char>>) -> bool {
    dir is Some ==> exists|i: int|
        0 <= i < candidates.len() && same_path(#[trigger] candidates[i], dir->0)
}

/// Every place that is known is among the candidates, none is there twice, none is made up, and
/// the narrowest comes first.
pub proof fn law_where_patches_are_looked_for(
    payload: Option<Seq<char>>,
    output: Option<Seq<char>>,
    storage: Option<Seq<char>>,
)
    ensures
        ({
            let all = candidates_of(payload, output, storage);
            &&& is_covered(all, payload)
            &&& is_covered(all, output)
            &&& is_covered(all, storage)
            &&& forall|i: int, j: int|
                #![trigger all[i], all[j]]
                0 <= i < j < all.len() ==> !same_path(all[i], all[j])
            &&& forall|i: int|
                0 <= i < all.len() ==> Some(#[trigger] all[i]) == payload || Some(all[i]) == output
                    || Some(all[i]) == storage
            &&& payload is Some ==> all[0] == payload->0
            &&& payload is None && output is Some ==> all[0] == output->0
            &&& payload is None && output is None && storage is Some ==> all[0] == storage->0
            &&& payload is Some && output is Some && !same_path(payload->0, output->0) ==> all[1]
                == output->0
        }),
{
    let none = Seq::<Seq<char>>::empty();
    let one = with_candidate(none, payload);
    let two = with_candidate(one, output);
    let all = with_candidate(two, storage);
    if payload is Some {
        assert(one[0] == payload->0);
        assert(two[0] == payload->0);
        assert(all[0] == payload->0);
    }
    if output is Some {
        if two == one {
            let i = choose|i: int| 0 <= i < one.len() && same_path(#[trigger] one[i], output->0);
            assert(all[i] == one[i]);
        } else {
            assert(two[one.len() as int] == output->0);
            assert(all[one.len() as int] == output->0);
        }
    }
    if storage is Some {
        if all == two {
            let i = choose|i: int| 0 <= i < two.len() && same_path(#[trigger] two[i], storage->0);
            assert(all[i] == two[i]);
        } else {
            assert(all[two.len() as int] == storage->0);
        }
    }
}

/// The server of a window is the one that is offered under the selected name, and there is none
/// where nothing is selected or no server has the name.
pub proof fn law_the_selected_server_is_the_named_one(launcher: Launcher, name: String, i: int)
    requires
        launcher.selected_server_name == Some(name),
        0 <= i < launcher.servers@.len(),
        launcher.servers@[i].name == name@,
        forall|j: int| 0 <= j < i ==> (#[trigger] launcher.servers@[j]).name != name@,
    ensures
        launcher.server() == Some(launcher.servers@[i]),
        launcher.login_url() == if launcher.servers@[i].login_url.len() > 0 {
            Some(launcher.servers@[i].login_url)
        } else {
            None
        },
        launcher.api_url() == if launcher.servers@[i].api_url.len() > 0 {
            Some(launcher.servers@[i].api_url)
        } else {
            None
        },
{
    crate::servers::definitions::lemma_place_of(launcher.servers@, name@);
    let place = place_of(launcher.servers@, name@);
    if place > i {
        assert(launcher.servers@[i].name != name@);
    }
}

/// Without a selection, or with one that no server has, there is no server and no address of one.
pub proof fn law_no_server_without_a_selection(launcher: Launcher)
    requires
        launcher.selected_server_name is Some ==> forall|j: int|
            0 <= j < launcher.servers@.len() ==> (#[trigger] launcher.servers@[j]).name
                != launcher.selected_server_name->0@,
    ensures
        launcher.server() is None,
        launcher.login_url() is None,
        launcher.api_url() is None,
{
    if let Some(name) = launcher.selected_server_name {
        crate::servers::definitions::lemma_place_of(launcher.servers@, name@);
    }
}

/// An address that was typed, white space aside, goes before that of the selected server.
pub proof fn law_a_typed_address_goes_first(
    launcher: Launcher,
    lead: Seq<char>,
    typed: Seq<char>,
    trail: Seq<char>,
)
    requires
        launcher.manual_server_address@ == lead + typed + trail,
        crate::text::is_blank(lead),
        crate::text::is_tight(typed),
        crate::text::is_blank(trail),
    ensures
        typed.len() > 0 ==> launcher.server_address() == Some(typed),
        typed.len() == 0 && launcher.server() is Some ==> launcher.server_address() == Some(
            launcher.server()->0.address,
        ),
        typed.len() == 0 && launcher.server() is None ==> launcher.server_address() is None,
{
    crate::text::law_trimming_takes_off_what_is_around(lead, typed, trail);
}

/// A game location that was chosen goes before one that was found.
pub proof fn law_a_chosen_location_goes_first(launcher: Launcher, dir: String)
    ensures
        launcher.prefs.launcher.game_location == Some(dir) ==> launcher.game_location() == Some(dir),
        launcher.prefs.launcher.game_location is None ==> launcher.game_location()
            == launcher.detected_install,
{
}

/// What a new message, a new verdict, saving and the start of the patcher leave as it was.
pub proof fn law_what_each_turn_leaves_alone(
    told: Launcher,
    refreshed: Launcher,
    saved: Launcher,
    patching: Launcher,
    old: Launcher,
    status: InstallStatus,
)
    requires
        told.same_but_message(old),
        refreshed.refreshed(old, status),
        saved.saved(old),
        patching.began_patching(old),
    ensures
        told == (Launcher { last_message: told.last_message, ..old }),
        refreshed == (Launcher {
            install_status: status,
            outdated_prompt_open: if status.state is Ready {
                false
            } else {
                old.outdated_prompt_open
            },
            ..old
        }),
        patching == (Launcher { patching: true, ..old }),
        saved.prefs.launcher.server_name == if old.selected_server_name is Some {
            old.selected_server_name->0
        } else {
            old.prefs.launcher.server_name
        },
        saved.prefs.launcher.server_address == old.manual_server_address,
        saved.prefs.launcher.game_location == old.prefs.launcher.game_location,
        saved.prefs.launcher.wine_runtime_dir == old.prefs.launcher.wine_runtime_dir,
        saved.prefs.launcher.patch_download_dir == old.prefs.launcher.patch_download_dir,
        saved.prefs.launcher.seed_patches == old.prefs.launcher.seed_patches,
        saved.prefs.developer == old.prefs.developer,
        saved.servers == old.servers && saved.selected_server_name == old.selected_server_name,
        saved.manual_server_address == old.manual_server_address,
        saved.detected_install == old.detected_install && saved.dev_session_id
            == old.dev_session_id,
        saved.install_status == old.install_status,
        saved.torrent_apply_attempted == old.torrent_apply_attempted,
{
}

/// Windows that are the same are so each.
pub proof fn law_what_the_windows_are(launcher: Launcher, other: Launcher)
    requires
        launcher.same_windows(other),
    ensures
        launcher.patching == other.patching,
        launcher.settings_open == other.settings_open,
        launcher.developer_open == other.developer_open,
        launcher.login_running == other.login_running,
        launcher.native_login_open == other.native_login_open,
        launcher.outdated_prompt_open == other.outdated_prompt_open,
{
}

/// A message is shown with its kind and its text, and a game can be launched exactly where the
/// verdict says so.
pub proof fn law_what_is_shown(launcher: Launcher, kind: MessageKind, text: Seq<char>)
    ensures
        launcher.shows(kind, text) <==> launcher.last_message is Some
            && launcher.last_message->0.kind == kind && launcher.last_message->0.text@ == text,
        launcher.ready() <==> launcher.install_status.state == InstallState::Ready,
        forall|all: Seq<Seq<char>>, other: Seq<char>| #[trigger]
            first_or(all, other) == if all.len() > 0 {
                all[0]
            } else {
                other
            },
{
}

} // verus!

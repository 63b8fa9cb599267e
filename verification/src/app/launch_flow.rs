//! From the click on "Launch" to the game, and the other turns that the main window takes.

use vstd::prelude::*;
use crate::config::preferences::DeveloperPreferences;
use crate::install_check::{InstallState, InstallStatus};
use crate::login::subprocess::LoginOutcome;
use crate::login::SESSION_ID_LEN;
use crate::patcher::worker::Phase;
use crate::path_text::{is_same_path, same_path};
use crate::text::{byte_len, size_of_text, text_of, trim, trimmed};
use crate::torrent::service::{SeedingChange, TorrentService, TorrentState};
use super::launcher_window::{
    gate_text, GameLaunchRequest, Launcher, LoginStart, MessageKind,
};
use super::native_login_window::NativeLoginOutcome;
use super::settings_window::SettingsValues;

verus! {

impl Launcher {
    /// What keeps a login from being started, the verdict on the install being fresh.
    pub open spec fn login_block(self) -> Option<(MessageKind, Seq<char>)> {
        if !self.ready() {
            Some((MessageKind::Error, gate_text(self.install_status.state)))
        } else if self.login_running || self.native_login_open {
            Some((MessageKind::Info, "Login window already open."@))
        } else if self.game_location() is None {
            Some((MessageKind::Error, "No game location set."@))
        } else if self.server_address() is None {
            Some((MessageKind::Error, "No server address selected."@))
        } else if self.login_url() is None && self.api_url() is None {
            Some(
                (
                    MessageKind::Error,
                    "Selected server has no login URL or auth API. Use the developer session-id override."@,
                ),
            )
        } else {
            None
        }
    }

    /// The same window with a fresh verdict on the install.
    pub open spec fn with_status(self, status: InstallStatus) -> Launcher {
        Launcher {
            install_status: status,
            outdated_prompt_open: self.outdated_prompt_open && !(status.state is Ready),
            ..self
        }
    }

    /// A click on "Launch", with a fresh verdict on the install. A server with a web page for the
    /// login is logged in to there; one that has none through its JSON interface.
    pub fn launch_via_login(&mut self, status: InstallStatus) -> (r: LoginStart)
        ensures
            ({
                let now = old(self).with_status(status);
                match now.login_block() {
                    Some((kind, text)) => {
                        &&& r is Nothing
                        &&& final(self).shows(kind, text)
                        &&& final(self).same_but_message(now)
                    },
                    None => {
                        &&& final(self).saved(now)
                        &&& final(self).last_message == now.last_message
                        &&& match now.login_url() {
                            Some(url) => {
                                &&& r is Page
                                &&& r->login_url@ == url
                                &&& final(self).same_windows(now)
                            },
                            None => {
                                &&& r is Native
                                &&& r->api_url@ == now.api_url()->0
                                &&& r->server_name == now.selected_server_name->0
                                &&& final(self).native_login_open
                                &&& final(self).patching == now.patching
                                &&& final(self).settings_open == now.settings_open
                                &&& final(self).developer_open == now.developer_open
                                &&& final(self).login_running == now.login_running
                                &&& final(self).outdated_prompt_open == now.outdated_prompt_open
                            },
                        }
                    },
                }
            }),
    {
        self.refresh_install_status(status);
        assert(*self == old(self).with_status(status));
        if !self.install_ready() {
            let message: String = self.install_gate_message();
            self.set_error(message.as_str());
            return LoginStart::Nothing;
        }
        if self.login_running || self.native_login_open {
            self.set_info("Login window already open.");
            return LoginStart::Nothing;
        }
        if self.resolved_game_location().is_none() {
            self.set_error("No game location set.");
            return LoginStart::Nothing;
        }
        if self.resolved_server_address().is_none() {
            self.set_error("No server address selected.");
            return LoginStart::Nothing;
        }
        match self.resolved_login_url() {
            Some(login_url) => {
                self.save_preferences();
                LoginStart::Page { login_url }
            },
            None => match self.resolved_api_url() {
                Some(api_url) => {
                    let server_name: String = match &self.selected_server_name {
                        Some(name) => name.clone(),
                        None => "server".to_owned(),
                    };
                    self.save_preferences();
                    self.native_login_open = true;
                    LoginStart::Native { server_name, api_url }
                },
                None => {
                    self.set_error(
                        "Selected server has no login URL or auth API. Use the developer session-id override.",
                    );
                    LoginStart::Nothing
                },
            },
        }
    }

    /// The web page for the login was opened, or could not be.
    pub fn login_page_opened(&mut self, login_url: &str, outcome: Result<(), String>)
        ensures
            final(self).prefs == old(self).prefs,
            final(self).same_choices(*old(self)),
            final(self).install_status == old(self).install_status,
            final(self).torrent_apply_attempted == old(self).torrent_apply_attempted,
            final(self).patching == old(self).patching,
            final(self).settings_open == old(self).settings_open,
            final(self).developer_open == old(self).developer_open,
            final(self).native_login_open == old(self).native_login_open,
            final(self).outdated_prompt_open == old(self).outdated_prompt_open,
            match outcome {
                Ok(_) => {
                    &&& final(self).login_running
                    &&& final(self).shows(
                        MessageKind::Info,
                        "Opening login page: "@ + login_url@,
                    )
                },
                Err(e) => {
                    &&& final(self).login_running == old(self).login_running
                    &&& final(self).shows(
                        MessageKind::Error,
                        "Failed to open login window: "@ + e@,
                    )
                },
            },
    {
        match outcome {
            Ok(_) => {
                let mut message: String = "Opening login page: ".to_owned();
                message.append(login_url);
                self.login_running = true;
                self.set_info(message.as_str());
            },
            Err(e) => {
                let mut message: String = "Failed to open login window: ".to_owned();
                message.append(e.as_str());
                self.set_error(message.as_str());
            },
        }
    }

    /// Whether the request launches the selected game on the selected server with the session.
    pub open spec fn launches(
        self,
        request: GameLaunchRequest,
        session_id: Seq<char>,
        verbose_channels: Seq<char>,
    ) -> bool {
        &&& Some(request.game_dir) == self.game_location()
        &&& Some(request.lobby_host@) == self.server_address()
        &&& request.session_id@ == session_id
        &&& text_of(request.wine_debug_override)
            == if self.prefs.developer.enable_verbose_wine_debug {
            Some(verbose_channels)
        } else {
            None
        }
        &&& request.enable_winsock_proxy == self.prefs.developer.enable_winsock_tracing
    }

    /// Whether a launch with the session was asked for, or the window says what is missing; at
    /// most the message differs from `old`.
    pub open spec fn launch_asked(
        self,
        old: Launcher,
        r: Option<GameLaunchRequest>,
        session_id: Seq<char>,
        verbose_channels: Seq<char>,
    ) -> bool {
        &&& self.same_but_message(old)
        &&& if old.game_location() is None {
            r is None && self.shows(MessageKind::Error, "No game location set."@)
        } else if old.server_address() is None {
            r is None && self.shows(MessageKind::Error, "No server address selected."@)
        } else {
            &&& r is Some
            &&& old.launches(r->0, session_id, verbose_channels)
            &&& self.last_message == old.last_message
        }
    }

    /// The launch of the game with the given session. `verbose_channels` are Wine's debug
    /// channels where the user wants more of them.
    pub fn launch_game_with_session(
        &mut self,
        session_id: String,
        verbose_channels: &str,
    ) -> (r: Option<GameLaunchRequest>)
        ensures
            final(self).launch_asked(*old(self), r, session_id@, verbose_channels@),
    {
        let game_dir: String = match self.resolved_game_location() {
            Some(dir) => dir,
            None => {
                self.set_error("No game location set.");
                return None;
            },
        };
        let lobby_host: String = match self.resolved_server_address() {
            Some(address) => address,
            None => {
                self.set_error("No server address selected.");
                return None;
            },
        };
        let wine_debug_override: Option<String> =
            if self.prefs.developer.enable_verbose_wine_debug {
            Some(verbose_channels.to_owned())
        } else {
            None
        };
        Some(
            GameLaunchRequest {
                game_dir,
                lobby_host,
                session_id,
                wine_debug_override,
                enable_winsock_proxy: self.prefs.developer.enable_winsock_tracing,
            },
        )
    }

    /// The game was launched, or could not be.
    pub fn game_launched(&mut self, server_address: &str, outcome: Result<(), String>)
        ensures
            final(self).same_but_message(*old(self)),
            match outcome {
                Ok(_) => final(self).shows(
                    MessageKind::Info,
                    "Launched ffxivgame.exe against "@ + server_address@ + "."@,
                ),
                Err(e) => final(self).shows(
                    MessageKind::Error,
                    "Failed to launch game: "@ + e@,
                ),
            },
    {
        match outcome {
            Ok(_) => {
                let mut message: String = "Launched ffxivgame.exe against ".to_owned();
                message.append(server_address);
                message.append(".");
                self.set_info(message.as_str());
            },
            Err(e) => {
                let mut message: String = "Failed to launch game: ".to_owned();
                message.append(e.as_str());
                self.set_error(message.as_str());
            },
        }
    }

    /// A launch with the session id that was typed in, with a fresh verdict on the install.
    pub fn launch_with_dev_session_id(
        &mut self,
        status: InstallStatus,
        verbose_channels: &str,
    ) -> (r: Option<GameLaunchRequest>)
        ensures
            ({
                let now = old(self).with_status(status);
                let session_id = trimmed(now.dev_session_id@);
                if !now.ready() {
                    &&& r is None
                    &&& final(self).same_but_message(now)
                    &&& final(self).shows(MessageKind::Error, gate_text(status.state))
                } else if byte_len(session_id) != SESSION_ID_LEN {
                    &&& r is None
                    &&& final(self).same_but_message(now)
                    &&& final(self).shows(
                        MessageKind::Error,
                        "Dev session ID must be 56 characters."@,
                    )
                } else {
                    &&& final(self).saved(now)
                    &&& final(self).same_windows(now)
                    &&& final(self).launch_asked(
                        (Launcher {
                            last_message: now.last_message,
                            ..*final(self)
                        }),
                        r,
                        session_id,
                        verbose_channels@,
                    )
                }
            }),
    {
        self.refresh_install_status(status);
        assert(*self == old(self).with_status(status));
        if !self.install_ready() {
            let message: String = self.install_gate_message();
            self.set_error(message.as_str());
            return None;
        }
        let session_id: String = trim(self.dev_session_id.as_str()).to_owned();
        if size_of_text(session_id.as_str()) != SESSION_ID_LEN {
            self.set_error("Dev session ID must be 56 characters.");
            return None;
        }
        self.save_preferences();
        self.launch_game_with_session(session_id, verbose_channels)
    }

    /// A login in a web page has ended.
    pub fn login_ended(&mut self, outcome: LoginOutcome, verbose_channels: &str) -> (r: Option<
        GameLaunchRequest,
    >)
        ensures
            !final(self).login_running,
            ({
                let now = Launcher { login_running: false, ..*old(self) };
                match outcome {
                    LoginOutcome::Success(id) => final(self).logged_in(
                        now,
                        r,
                        id@,
                        verbose_channels@,
                    ),
                    LoginOutcome::Cancelled => {
                        &&& r is None
                        &&& final(self).same_but_message(now)
                        &&& final(self).shows(
                            MessageKind::Info,
                            "Login window closed without completing."@,
                        )
                    },
                    LoginOutcome::Error(e) => {
                        &&& r is None
                        &&& final(self).same_but_message(now)
                        &&& final(self).shows(MessageKind::Error, "Login failed: "@ + e@)
                    },
                }
            }),
    {
        self.login_running = false;
        match outcome {
            LoginOutcome::Success(id) => {
                self.set_info("Login complete; launching game…");
                self.launch_game_with_session(id, verbose_channels)
            },
            LoginOutcome::Cancelled => {
                self.set_info("Login window closed without completing.");
                None
            },
            LoginOutcome::Error(e) => {
                let mut message: String = "Login failed: ".to_owned();
                message.append(e.as_str());
                self.set_error(message.as_str());
                None
            },
        }
    }

    /// Whether a login has succeeded: a launch was asked for, and the window says so unless it
    /// says what is missing.
    pub open spec fn logged_in(
        self,
        now: Launcher,
        r: Option<GameLaunchRequest>,
        session_id: Seq<char>,
        verbose_channels: Seq<char>,
    ) -> bool {
        &&& self.same_but_message(now)
        &&& if now.game_location() is None {
            r is None && self.shows(MessageKind::Error, "No game location set."@)
        } else if now.server_address() is None {
            r is None && self.shows(MessageKind::Error, "No server address selected."@)
        } else {
            &&& r is Some
            &&& now.launches(r->0, session_id, verbose_channels)
            &&& self.shows(MessageKind::Info, "Login complete; launching game…"@)
        }
    }

    /// The window for a login through a JSON interface was shown.
    pub fn native_login_shown(
        &mut self,
        outcome: NativeLoginOutcome,
        verbose_channels: &str,
    ) -> (r: Option<GameLaunchRequest>)
        ensures
            ({
                let closed = Launcher { native_login_open: false, ..*old(self) };
                match outcome {
                    NativeLoginOutcome::Open => r is None && *final(self) == *old(self),
                    NativeLoginOutcome::Cancelled => {
                        &&& r is None
                        &&& final(self).same_but_message(closed)
                        &&& final(self).shows(MessageKind::Info, "Login cancelled."@)
                    },
                    NativeLoginOutcome::Success(id) => final(self).logged_in(
                        closed,
                        r,
                        id@,
                        verbose_channels@,
                    ),
                }
            }),
    {
        match outcome {
            NativeLoginOutcome::Open => None,
            NativeLoginOutcome::Cancelled => {
                self.native_login_open = false;
                self.set_info("Login cancelled.");
                None
            },
            NativeLoginOutcome::Success(id) => {
                self.native_login_open = false;
                self.set_info("Login complete; launching game…");
                self.launch_game_with_session(id, verbose_channels)
            },
        }
    }

    /// A click on "Cancel Login".
    pub fn cancel_login(&mut self)
        ensures
            final(self).same_but_message(
                (Launcher { login_running: false, native_login_open: false, ..*old(self) }),
            ),
            final(self).shows(MessageKind::Info, "Login cancelled."@),
    {
        self.login_running = false;
        self.native_login_open = false;
        self.set_info("Login cancelled.");
    }

    /// The game's settings were accepted. The storage folder is not changed under a download that
    /// is under way. The verdict on the install is to be taken anew after this.
    pub fn settings_accepted(
        &mut self,
        values: SettingsValues,
        service: &mut TorrentService,
    ) -> (r: SeedingChange)
        requires
            old(service).wf(),
        ensures
            final(service).wf(),
            final(service).seeding_enabled == values.seed_patches,
            final(service).state == old(service).state,
            final(service).error == old(service).error,
            final(service).same_counters(*old(service)),
            final(service).same_session(*old(service)),
            if old(service).current() == TorrentState::Complete && values.seed_patches {
                &&& final(service).generation == TorrentService::after(old(service).generation)
                &&& r == (SeedingChange::Resume { generation: final(service).generation })
            } else if old(service).current() == TorrentState::Seeding && !values.seed_patches {
                &&& final(service).generation == TorrentService::after(old(service).generation)
                &&& r == SeedingChange::Pause
            } else {
                &&& final(service).generation == old(service).generation
                &&& r == SeedingChange::Nothing
            },
            ({
                let busy = old(service).current() == TorrentState::Resolving
                    || old(service).current() == TorrentState::Downloading;
                let changed = !same_dir(
                    text_of(values.patch_download_dir),
                    text_of(old(self).prefs.launcher.patch_download_dir),
                );
                &&& final(self).prefs.launcher.game_location == values.game_location
                &&& final(self).prefs.launcher.seed_patches == values.seed_patches
                &&& final(self).prefs.launcher.patch_download_dir == if changed && busy {
                    old(self).prefs.launcher.patch_download_dir
                } else {
                    values.patch_download_dir
                }
                &&& final(self).prefs.launcher.server_name == match old(
                    self,
                ).selected_server_name {
                    Some(name) => name,
                    None => old(self).prefs.launcher.server_name,
                }
                &&& final(self).prefs.launcher.server_address == old(self).manual_server_address
                &&& final(self).prefs.launcher.wine_runtime_dir
                    == old(self).prefs.launcher.wine_runtime_dir
                &&& final(self).prefs.developer == old(self).prefs.developer
                &&& if changed && busy {
                    final(self).shows(
                        MessageKind::Error,
                        "Cancel the in-progress patch download before changing the patch storage folder."@,
                    )
                } else if changed && old(service).output_dir is Some {
                    final(self).shows(
                        MessageKind::Info,
                        "Patch storage folder saved. The live torrent session keeps its current folder; the new one applies from the next launcher start."@,
                    )
                } else {
                    final(self).last_message == old(self).last_message
                }
            }),
            final(self).same_choices(*old(self)),
            final(self).install_status == old(self).install_status,
            final(self).torrent_apply_attempted == old(self).torrent_apply_attempted,
            !final(self).settings_open,
            final(self).patching == old(self).patching,
            final(self).developer_open == old(self).developer_open,
            final(self).login_running == old(self).login_running,
            final(self).native_login_open == old(self).native_login_open,
            final(self).outdated_prompt_open == old(self).outdated_prompt_open,
    {
        self.prefs.launcher.game_location = values.game_location;
        let changed: bool = !is_same_dir(
            &values.patch_download_dir,
            &self.prefs.launcher.patch_download_dir,
        );
        let busy: bool = match service.state() {
            TorrentState::Resolving | TorrentState::Downloading => true,
            _ => false,
        };
        if changed && busy {
            self.set_error(
                "Cancel the in-progress patch download before changing the patch storage folder.",
            );
        } else {
            self.prefs.launcher.patch_download_dir = values.patch_download_dir;
            if changed && service.output_dir.is_some() {
                self.set_info(
                    "Patch storage folder saved. The live torrent session keeps its current folder; the new one applies from the next launcher start.",
                );
            }
        }
        self.prefs.launcher.seed_patches = values.seed_patches;
        let change: SeedingChange = service.set_seeding_enabled(values.seed_patches);
        self.save_preferences();
        self.settings_open = false;
        change
    }

    /// The developer settings were accepted.
    pub fn developer_accepted(&mut self, developer: DeveloperPreferences)
        ensures
            final(self).saved(
                (Launcher {
                    prefs: (crate::config::preferences::Preferences {
                        developer,
                        ..old(self).prefs
                    }),
                    ..*old(self)
                }),
            ),
            final(self).last_message == old(self).last_message,
            final(self).same_windows((Launcher { developer_open: false, ..*old(self) })),
    {
        self.prefs.developer = developer;
        self.save_preferences();
        self.developer_open = false;
    }

    /// The question whether to update was shown. The result says whether to start the download.
    pub fn prompt_answered(&mut self, window_open: bool, dismiss: bool, accept: bool) -> (r: bool)
        ensures
            r == accept,
            *final(self) == (Launcher {
                outdated_prompt_open: old(self).outdated_prompt_open && window_open && !dismiss
                    && !accept,
                ..*old(self)
            }),
    {
        if !window_open || dismiss || accept {
            self.outdated_prompt_open = false;
        }
        accept
    }

    /// Whether the patches that were downloaded are to be applied without being asked for: the
    /// payload is there, the install needs it, no window is open, and it was not tried before.
    pub open spec fn applies_by_itself(self, torrent: TorrentState) -> bool {
        &&& !self.patching
        &&& !self.settings_open
        &&& !self.developer_open
        &&& !self.native_login_open
        &&& !self.torrent_apply_attempted
        &&& self.install_status.state is FoundNeedsPatch
        &&& torrent == TorrentState::Complete || torrent == TorrentState::Seeding
    }

    /// See [`Launcher::applies_by_itself`]. It is tried once for each download.
    pub fn auto_apply(&mut self, torrent: TorrentState) -> (r: bool)
        ensures
            r == old(self).applies_by_itself(torrent),
            *final(self) == if r {
                (Launcher {
                    torrent_apply_attempted: true,
                    outdated_prompt_open: false,
                    ..*old(self)
                })
            } else {
                *old(self)
            },
            !final(self).applies_by_itself(torrent),
    {
        let needs_patch: bool = match &self.install_status.state {
            InstallState::FoundNeedsPatch { .. } => true,
            _ => false,
        };
        let payload_there: bool = match torrent {
            TorrentState::Complete | TorrentState::Seeding => true,
            _ => false,
        };
        if !self.patching && !self.settings_open && !self.developer_open && !self.native_login_open
            && !self.torrent_apply_attempted && needs_patch && payload_there {
            self.torrent_apply_attempted = true;
            self.outdated_prompt_open = false;
            true
        } else {
            false
        }
    }

    /// The patcher's screen was closed after a run that ended in the given way. The verdict on the
    /// install is to be taken anew after this.
    pub fn patcher_dismissed(&mut self, phase: Phase, error: Option<String>)
        ensures
            final(self).same_but_message((Launcher { patching: false, ..*old(self) })),
            match phase {
                Phase::Error => final(self).shows(
                    MessageKind::Error,
                    "Update failed: "@ + match error {
                        Some(detail) => detail@,
                        None => "see the log for details"@,
                    },
                ),
                Phase::Cancelled => final(self).shows(MessageKind::Info, "Update cancelled."@),
                _ => final(self).shows(MessageKind::Info, "Update complete."@),
            },
    {
        self.patching = false;
        match phase {
            Phase::Error => {
                let mut message: String = "Update failed: ".to_owned();
                match &error {
                    Some(detail) => {
                        message.append(detail.as_str());
                    },
                    None => {
                        message.append("see the log for details");
                    },
                }
                self.set_error(message.as_str());
            },
            Phase::Cancelled => {
                self.set_info("Update cancelled.");
            },
            _ => {
                self.set_info("Update complete.");
            },
        }
    }

    /// After how many milliseconds the window is drawn again without being asked: soon while the
    /// patcher or a login runs, and often enough for the torrent's counters to move.
    pub fn repaint_after_ms(&self, patcher_over: bool, torrent: TorrentState) -> (r: Option<u64>)
        ensures
            r == if (self.patching && !patcher_over) || self.login_running {
                Some(100u64)
            } else if torrent != TorrentState::Idle && torrent != TorrentState::Stopped {
                Some(500u64)
            } else {
                None
            },
    {
        if (self.patching && !patcher_over) || self.login_running {
            return Some(100);
        }
        match torrent {
            TorrentState::Idle | TorrentState::Stopped => None,
            _ => Some(500),
        }
    }
}

/// No login is started unless the install is ready: whatever is chosen, the verdict alone keeps it
/// from being started.
pub proof fn law_login_needs_a_ready_install(launcher: Launcher, status: InstallStatus)
    requires
        !(status.state is Ready),
    ensures
        launcher.with_status(status).login_block() == Some(
            (MessageKind::Error, gate_text(status.state)),
        ),
{
}

/// A verdict that an install is ready closes the question whether to update it, and with it every
/// reason to apply patches without being asked.
pub proof fn law_ready_install_is_left_alone(
    launcher: Launcher,
    status: InstallStatus,
    torrent: TorrentState,
)
    requires
        status.state is Ready,
    ensures
        !launcher.with_status(status).outdated_prompt_open,
        !launcher.with_status(status).applies_by_itself(torrent),
{
}

/// Whether two directories that there may be are the same.
pub open spec fn same_dir(a: Option<Seq<char>>, b: Option<Seq<char>>) -> bool {
    match (a, b) {
        (Some(a), Some(b)) => same_path(a, b),
        (None, None) => true,
        _ => false,
    }
}

/// See [`same_dir`].
fn is_same_dir(a: &Option<String>, b: &Option<String>) -> (r: bool)
    ensures
        r == same_dir(text_of(*a), text_of(*b)),
{
    match (a, b) {
        (Some(a), Some(b)) => is_same_path(a.as_str(), b.as_str()),
        (None, None) => true,
        _ => false,
    }
}

/// A login is started exactly where the install is ready, no login is under way, and there are a
/// game, a server's address and some way to log in.
pub proof fn law_when_a_login_is_started(launcher: Launcher)
    ensures
        launcher.login_block() is None <==> launcher.install_status.state == InstallState::Ready
            && !launcher.login_running && !launcher.native_login_open && launcher.game_location() is
            Some && launcher.server_address() is Some && (launcher.login_url() is Some
            || launcher.api_url() is Some),
        launcher.ready() && (launcher.login_running || launcher.native_login_open)
            ==> launcher.login_block() == Some(
            (MessageKind::Info, "Login window already open."@),
        ),
        launcher.ready() && !launcher.login_running && !launcher.native_login_open ==> {
            &&& launcher.game_location() is None ==> launcher.login_block() == Some(
                (MessageKind::Error, "No game location set."@),
            )
            &&& launcher.game_location() is Some && launcher.server_address() is None
                ==> launcher.login_block() == Some(
                (MessageKind::Error, "No server address selected."@),
            )
            &&& launcher.game_location() is Some && launcher.server_address() is Some
                && launcher.login_url() is None && launcher.api_url() is None
                ==> launcher.login_block() == Some(
                (
                    MessageKind::Error,
                    "Selected server has no login URL or auth API. Use the developer session-id override."@,
                ),
            )
        },
{
}

/// A fresh verdict replaces the old one and may close the question whether to update; nothing else
/// changes.
pub proof fn law_what_a_fresh_verdict_changes(launcher: Launcher, status: InstallStatus)
    ensures
        ({
            let now = launcher.with_status(status);
            &&& now.refreshed(launcher, status)
            &&& now.install_status == status
            &&& now.prefs == launcher.prefs
            &&& now.servers == launcher.servers
            &&& now.selected_server_name == launcher.selected_server_name
            &&& now.manual_server_address == launcher.manual_server_address
            &&& now.login_running == launcher.login_running
            &&& now.native_login_open == launcher.native_login_open
            &&& now.patching == launcher.patching
            &&& now.last_message == launcher.last_message
            &&& now.dev_session_id == launcher.dev_session_id
            &&& now.outdated_prompt_open <==> launcher.outdated_prompt_open && status.state
                != InstallState::Ready
        }),
{
}

/// The game is launched where it lies, against the server that was chosen, with the session that
/// was got, and with what the developer settings ask for.
pub proof fn law_what_is_launched(
    launcher: Launcher,
    request: GameLaunchRequest,
    session_id: Seq<char>,
    channels: Seq<char>,
)
    requires
        launcher.launches(request, session_id, channels),
    ensures
        launcher.game_location() == Some(request.game_dir),
        launcher.server_address() == Some(request.lobby_host@),
        request.session_id@ == session_id,
        launcher.prefs.developer.enable_verbose_wine_debug ==> text_of(request.wine_debug_override)
            == Some(channels),
        !launcher.prefs.developer.enable_verbose_wine_debug ==> request.wine_debug_override is None,
        request.enable_winsock_proxy <==> launcher.prefs.developer.enable_winsock_tracing,
{
}

/// With a game and a server's address a login leads to a launch with its session, and to none
/// without; the window then says what is missing.
pub proof fn law_a_login_leads_to_a_launch(
    after: Launcher,
    before: Launcher,
    r: Option<GameLaunchRequest>,
    session_id: Seq<char>,
    channels: Seq<char>,
)
    ensures
        after.logged_in(before, r, session_id, channels) || after.launch_asked(
            before,
            r,
            session_id,
            channels,
        ) ==> {
            &&& r is Some <==> before.game_location() is Some && before.server_address() is Some
            &&& r is Some ==> r->0.session_id@ == session_id && Some(r->0.game_dir)
                == before.game_location() && Some(r->0.lobby_host@) == before.server_address()
            &&& after.same_but_message(before)
            &&& before.game_location() is None ==> after.shows(
                MessageKind::Error,
                "No game location set."@,
            )
            &&& before.game_location() is Some && before.server_address() is None ==> after.shows(
                MessageKind::Error,
                "No server address selected."@,
            )
        },
        after.logged_in(before, r, session_id, channels) && r is Some ==> after.shows(
            MessageKind::Info,
            "Login complete; launching game…"@,
        ),
        after.launch_asked(before, r, session_id, channels) && r is Some ==> after.last_message
            == before.last_message,
{
}

/// Patches are applied without being asked for exactly where they are there, the install needs
/// them, no window is open and it was not tried before.
pub proof fn law_when_patches_are_applied_unasked(launcher: Launcher, torrent: TorrentState)
    ensures
        launcher.applies_by_itself(torrent) ==> launcher.install_status.state
            != InstallState::Ready && launcher.install_status.state != InstallState::NotFound,
        launcher.applies_by_itself(torrent) ==> torrent == TorrentState::Complete || torrent
            == TorrentState::Seeding,
        launcher.patching || launcher.settings_open || launcher.developer_open
            || launcher.native_login_open || launcher.torrent_apply_attempted
            ==> !launcher.applies_by_itself(torrent),
        launcher.install_status.state is FoundNeedsPatch && (torrent == TorrentState::Complete
            || torrent == TorrentState::Seeding) && !launcher.patching && !launcher.settings_open
            && !launcher.developer_open && !launcher.native_login_open
            && !launcher.torrent_apply_attempted ==> launcher.applies_by_itself(torrent),
{
}

/// Two directories that there may be are the same where both are missing, or both are there and
/// are one path, however it is written.
pub proof fn law_when_directories_are_the_same(a: Seq<char>, b: Seq<char>)
    ensures
        same_dir(None, None),
        !same_dir(Some(a), None),
        !same_dir(None, Some(b)),
        same_dir(Some(a), Some(a)),
        same_dir(Some(a), Some(b)) <==> same_dir(Some(b), Some(a)),
        a.len() > 0 ==> same_dir(Some(a + seq!['/']), Some(a)),
        same_dir(Some(a), Some(b)) <==> same_path(a, b),
{
    if a.len() > 0 {
        crate::path_text::law_more_slashes_make_no_other_path(a, b);
    }
}

} // verus!

//! What the main window shows.

use vstd::prelude::*;
use crate::servers::definitions::ServerDefinition;
use crate::text::{decimal, decimal_text, text_of};
use crate::torrent::service::{TorrentService, TorrentSnapshot, TorrentState};
use super::launcher_window::{gate_text, Launcher, MessageKind};
use super::patcher_window::Share;
use super::sizes::{format_bytes, size_text};
use super::theme::Tone;

verus! {

/// A text with its kind.
#[derive(Debug, PartialEq, Eq)]
pub struct Line {
    pub tone: Tone,
    pub text: String,
}

/// The parts of the main window that depend on its state.
#[derive(Debug, PartialEq, Eq)]
pub struct MainView {
    pub server_label: String,
    pub location_text: String,
    /// Whether the install is up to date, where there is one.
    pub location_status: Option<Line>,
    pub launch_label: String,
    pub launch_enabled: bool,
    pub cancel_login_shown: bool,
    /// Why the game cannot be launched, where it cannot.
    pub gate: Option<Line>,
    pub message: Option<Line>,
}

/// Whether the line is there and is the given one.
pub open spec fn says(line: Option<Line>, tone: Tone, text: Seq<char>) -> bool {
    line is Some && line->0.tone == tone && line->0.text@ == text
}

/// How a server is offered.
pub fn server_item(server: &ServerDefinition) -> (r: String)
    ensures
        r@ == server@.address + " ("@ + server@.name + ")"@,
{
    let mut out: String = server.address.clone();
    out.append(" (");
    out.append(server.name.as_str());
    out.append(")");
    out
}

impl Launcher {
    /// See [`MainView`].
    pub fn main_view(&self) -> (r: MainView)
        ensures
            r.server_label@ == match self.selected_server_name {
                Some(name) => name@,
                None => "(none)"@,
            },
            r.location_text@ == match self.game_location() {
                Some(dir) => dir@,
                None => "(not set)"@,
            },
            if self.game_location() is None {
                r.location_status is None
            } else if self.ready() {
                says(r.location_status, Tone::Success, "game.ver matches expected version"@)
            } else {
                says(r.location_status, Tone::Warn, "install not fully patched"@)
            },
            r.cancel_login_shown == (self.login_running || self.native_login_open),
            r.launch_label@ == if r.cancel_login_shown {
                "Login in progress…"@
            } else {
                "Launch"@
            },
            r.launch_enabled == (self.ready() && !r.cancel_login_shown),
            if self.ready() {
                r.gate is None
            } else {
                says(r.gate, Tone::Warn, gate_text(self.install_status.state))
            },
            match self.last_message {
                Some(message) => says(
                    r.message,
                    if message.kind == MessageKind::Info {
                        Tone::Info
                    } else {
                        Tone::Error
                    },
                    message.text@,
                ),
                None => r.message is None,
            },
    {
        let ready: bool = self.install_ready();
        let login_in_flight: bool = self.login_running || self.native_login_open;
        let location: Option<String> = self.resolved_game_location();
        let location_status: Option<Line> = match &location {
            None => None,
            Some(_) => if ready {
                Some(
                    Line {
                        tone: Tone::Success,
                        text: "game.ver matches expected version".to_owned(),
                    },
                )
            } else {
                Some(Line { tone: Tone::Warn, text: "install not fully patched".to_owned() })
            },
        };
        MainView {
            server_label: match &self.selected_server_name {
                Some(name) => name.clone(),
                None => "(none)".to_owned(),
            },
            location_text: match location {
                Some(dir) => dir,
                None => "(not set)".to_owned(),
            },
            location_status,
            launch_label: if login_in_flight {
                "Login in progress…".to_owned()
            } else {
                "Launch".to_owned()
            },
            launch_enabled: ready && !login_in_flight,
            cancel_login_shown: login_in_flight,
            gate: if ready {
                None
            } else {
                Some(Line { tone: Tone::Warn, text: self.install_gate_message() })
            },
            message: match &self.last_message {
                Some(message) => Some(
                    Line {
                        tone: if message.kind == MessageKind::Info {
                            Tone::Info
                        } else {
                            Tone::Error
                        },
                        text: message.text.clone(),
                    },
                ),
                None => None,
            },
        }
    }

    /// A click on "Cancel" below the torrent's progress. The result says whether there is a
    /// torrent to pause.
    pub fn cancel_torrent(&mut self, service: &mut TorrentService) -> (r: bool)
        requires
            old(service).wf(),
        ensures
            final(service).wf(),
            final(service).stopped(*old(service)),
            r == old(service).has_torrent(),
            final(self).same_but_message(*old(self)),
            if old(service).current() == TorrentState::Downloading {
                final(self).shows(MessageKind::Info, "Torrent download stopped."@)
            } else {
                final(self).last_message == old(self).last_message
            },
    {
        let downloading: bool = match service.state() {
            TorrentState::Downloading => true,
            _ => false,
        };
        let pause: bool = service.stop();
        if downloading {
            self.set_info("Torrent download stopped.");
        }
        pause
    }
}

/// The button of the torrent's panel.
#[derive(Debug, Clone, Copy, PartialEq, Eq, Structural)]
pub enum PanelButton {
    /// None is shown.
    Nothing,
    Download,
    Cancel,
    Apply,
    Resume,
    Retry,
}

impl PanelButton {
    /// What the button says.
    pub fn label(self) -> (r: &'static str)
        ensures
            r@ == match self {
                PanelButton::Nothing => ""@,
                PanelButton::Download => "Download Patches via Torrent"@,
                PanelButton::Cancel => "Cancel"@,
                PanelButton::Apply => "Apply Downloaded Patches"@,
                PanelButton::Resume => "Resume Download"@,
                PanelButton::Retry => "Retry Download"@,
            },
    {
        match self {
            PanelButton::Nothing => "",
            PanelButton::Download => "Download Patches via Torrent",
            PanelButton::Cancel => "Cancel",
            PanelButton::Apply => "Apply Downloaded Patches",
            PanelButton::Resume => "Resume Download",
            PanelButton::Retry => "Retry Download",
        }
    }
}

/// The panel about the torrent.
#[derive(Debug, PartialEq, Eq)]
pub struct TorrentPanel {
    /// What is said; without a tone in the usual colour.
    pub text: String,
    pub tone: Option<Tone>,
    pub button: PanelButton,
    /// A note beside the button.
    pub hint: Option<String>,
    /// How far the download has come, where that is shown.
    pub progress: Option<Share>,
}

/// What the panel says of the torrent; `percent` is the share of the download in percent.
pub open spec fn torrent_text(snapshot: TorrentSnapshot, percent: Seq<char>) -> Seq<char> {
    match snapshot.state {
        TorrentState::Idle => ""@,
        TorrentState::Resolving => "Fetching the patch torrent..."@,
        TorrentState::Downloading => "Downloading patches: "@ + size_text(
            snapshot.progress_bytes as nat,
        ) + " / "@ + size_text(snapshot.total_bytes as nat) + " ("@ + percent + "%) - "@
            + size_text(snapshot.download_bps as nat) + "/s - "@ + decimal(snapshot.peers as nat)
            + " peers"@,
        TorrentState::Complete => "Patch archive downloaded."@,
        TorrentState::Seeding => "Seeding - "@ + decimal(snapshot.peers as nat) + " peers - "@
            + size_text(snapshot.uploaded_bytes as nat) + " uploaded"@,
        TorrentState::Stopped => "Torrent download stopped."@,
        TorrentState::Error => match snapshot.error {
            Some(message) => message@,
            None => "Torrent download failed."@,
        },
    }
}

/// How far the download has come.
pub fn download_share(snapshot: &TorrentSnapshot) -> (r: Share)
    ensures
        r.part == snapshot.progress_bytes,
        r.whole == if snapshot.total_bytes == 0 {
            1
        } else {
            snapshot.total_bytes
        },
{
    Share {
        part: snapshot.progress_bytes,
        whole: if snapshot.total_bytes == 0 {
            1
        } else {
            snapshot.total_bytes
        },
    }
}

/// The panel about the torrent. Patches that were downloaded can be applied unless the install is
/// ready.
pub fn torrent_panel(snapshot: &TorrentSnapshot, ready: bool, percent: &str) -> (r: TorrentPanel)
    ensures
        r.text@ == torrent_text(*snapshot, percent@),
        r.tone == match snapshot.state {
            TorrentState::Complete | TorrentState::Seeding => Some(Tone::Success),
            TorrentState::Stopped => Some(Tone::Warn),
            TorrentState::Error => Some(Tone::Error),
            _ => None,
        },
        r.button == match snapshot.state {
            TorrentState::Idle => PanelButton::Download,
            TorrentState::Resolving | TorrentState::Downloading => PanelButton::Cancel,
            TorrentState::Complete | TorrentState::Seeding => if ready {
                PanelButton::Nothing
            } else {
                PanelButton::Apply
            },
            TorrentState::Stopped => PanelButton::Resume,
            TorrentState::Error => PanelButton::Retry,
        },
        text_of(r.hint) == if snapshot.state == TorrentState::Idle && ready {
            Some("Game is up to date - downloading only helps seed."@)
        } else {
            None
        },
        r.progress is Some <==> snapshot.state == TorrentState::Downloading,
        r.progress is Some ==> r.progress->0.part == snapshot.progress_bytes,
        r.progress is Some ==> r.progress->0.whole == if snapshot.total_bytes == 0 {
            1
        } else {
            snapshot.total_bytes
        },
{
    let mut panel: TorrentPanel = TorrentPanel {
        text: "".to_owned(),
        tone: None,
        button: PanelButton::Nothing,
        hint: None,
        progress: None,
    };
    match snapshot.state {
        TorrentState::Idle => {
            panel.button = PanelButton::Download;
            if ready {
                panel.hint = Some("Game is up to date - downloading only helps seed.".to_owned());
            }
        },
        TorrentState::Resolving => {
            panel.text = "Fetching the patch torrent...".to_owned();
            panel.button = PanelButton::Cancel;
        },
        TorrentState::Downloading => {
            let mut text: String = "Downloading patches: ".to_owned();
            text.append(format_bytes(snapshot.progress_bytes).as_str());
            text.append(" / ");
            text.append(format_bytes(snapshot.total_bytes).as_str());
            text.append(" (");
            text.append(percent);
            text.append("%) - ");
            text.append(format_bytes(snapshot.download_bps).as_str());
            text.append("/s - ");
            text.append(decimal_text(snapshot.peers as u64).as_str());
            text.append(" peers");
            panel.text = text;
            panel.button = PanelButton::Cancel;
            panel.progress = Some(download_share(snapshot));
        },
        TorrentState::Complete => {
            panel.text = "Patch archive downloaded.".to_owned();
            panel.tone = Some(Tone::Success);
            if !ready {
                panel.button = PanelButton::Apply;
            }
        },
        TorrentState::Seeding => {
            let mut text: String = "Seeding - ".to_owned();
            text.append(decimal_text(snapshot.peers as u64).as_str());
            text.append(" peers - ");
            text.append(format_bytes(snapshot.uploaded_bytes).as_str());
            text.append(" uploaded");
            panel.text = text;
            panel.tone = Some(Tone::Success);
            if !ready {
                panel.button = PanelButton::Apply;
            }
        },
        TorrentState::Stopped => {
            panel.text = "Torrent download stopped.".to_owned();
            panel.tone = Some(Tone::Warn);
            panel.button = PanelButton::Resume;
        },
        TorrentState::Error => {
            panel.text = match &snapshot.error {
                Some(message) => message.clone(),
                None => "Torrent download failed.".to_owned(),
            };
            panel.tone = Some(Tone::Error);
            panel.button = PanelButton::Retry;
        },
    }
    panel
}

/// What the panel tells of the torrent in each state.
pub proof fn law_what_is_told_of_the_torrent(snapshot: TorrentSnapshot, percent: Seq<char>)
    ensures
        ({
            let text = torrent_text(snapshot, percent);
            &&& snapshot.state == TorrentState::Idle ==> text == ""@
            &&& snapshot.state == TorrentState::Resolving ==> text
                == "Fetching the patch torrent..."@
            &&& snapshot.state == TorrentState::Downloading ==> text == "Downloading patches: "@
                + size_text(snapshot.progress_bytes as nat) + " / "@ + size_text(
                snapshot.total_bytes as nat,
            ) + " ("@ + percent + "%) - "@ + size_text(snapshot.download_bps as nat) + "/s - "@
                + decimal(snapshot.peers as nat) + " peers"@
            &&& snapshot.state == TorrentState::Complete ==> text == "Patch archive downloaded."@
            &&& snapshot.state == TorrentState::Seeding ==> text == "Seeding - "@ + decimal(
                snapshot.peers as nat,
            ) + " peers - "@ + size_text(snapshot.uploaded_bytes as nat) + " uploaded"@
            &&& snapshot.state == TorrentState::Stopped ==> text == "Torrent download stopped."@
            &&& snapshot.state == TorrentState::Error && snapshot.error is Some ==> text
                == snapshot.error->0@
            &&& snapshot.state == TorrentState::Error && snapshot.error is None ==> text
                == "Torrent download failed."@
        }),
{
}

/// A line that says something has that tone and that text.
pub proof fn law_what_a_line_says(line: Option<Line>, tone: Tone, text: Seq<char>)
    ensures
        says(line, tone, text) <==> line is Some && line->0.tone == tone && line->0.text@ == text,
{
}

} // verus!

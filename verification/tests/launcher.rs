use garlemald_client::app::launcher_window::{
    apply_candidates, initial_preferences, location_at_start, picked_source, seeding_dir_at_start,
    Launcher, LoginStart, MessageKind, PatchStart,
};
use garlemald_client::app::main_view::{torrent_panel, PanelButton};
use garlemald_client::app::native_login_window::NativeLoginOutcome;
use garlemald_client::app::settings_window::{SettingsModal, SettingsOutcome, SettingsValues};
use garlemald_client::app::theme::{self, ThemeColor, Tone};
use garlemald_client::config::preferences::{DeveloperPreferences, Preferences};
use garlemald_client::install_check::{
    game_is_installed_but_outdated, GameDir, InstallState, InstallStatus,
};
use garlemald_client::login::subprocess::LoginOutcome;
use garlemald_client::patcher::extract::PatchPayload;
use garlemald_client::patcher::worker::{PatchSource, Phase};
use garlemald_client::servers::definitions::ServerDefinitions;
use garlemald_client::torrent::service::{
    SeedingChange, TorrentService, TorrentSnapshot, TorrentState,
};

fn status(state: InstallState) -> InstallStatus {
    InstallStatus { state, game_dir: Some("/g".to_string()) }
}

fn needs_patch() -> InstallStatus {
    status(InstallState::FoundNeedsPatch { game_version: None })
}

fn game_at(version: &str) -> GameDir {
    GameDir {
        path: "/g".to_string(),
        boot_exe: true,
        client_exe: true,
        game_ver: Some(version.to_string()),
    }
}

fn launcher_with(prefs: Preferences) -> Launcher {
    Launcher::new(
        prefs,
        ServerDefinitions::load_default().unwrap(),
        Some("/g".to_string()),
        Some(game_at("2012.09.19.0001")),
    )
}

fn launcher() -> Launcher {
    launcher_with(Preferences::default())
}

fn message(launcher: &Launcher) -> (MessageKind, &str) {
    let message = launcher.last_message.as_ref().unwrap();
    (message.kind, message.text.as_str())
}

#[test]
fn the_first_server_is_chosen_at_first() {
    let fresh = launcher();
    assert_eq!(fresh.selected_server_name.as_deref(), Some("Bahamut (main)"));
    assert_eq!(fresh.resolved_server_address().as_deref(), Some("bahamut.stegall.me"));
    assert_eq!(fresh.resolved_login_url(), None);
    assert_eq!(
        fresh.resolved_api_url().as_deref(),
        Some("https://bahamut.stegall.me/api/v1")
    );
    let mut prefs = Preferences::default();
    prefs.launcher.server_name = "Localhost".to_string();
    prefs.launcher.server_address = " 10.0.0.1 ".to_string();
    let chosen = launcher_with(prefs);
    assert_eq!(chosen.resolved_server_address().as_deref(), Some("10.0.0.1"));
    assert_eq!(
        chosen.resolved_login_url().as_deref(),
        Some("http://127.0.0.1:54993/login")
    );
    assert_eq!(chosen.resolved_api_url(), None);
    let mut unknown = launcher();
    unknown.selected_server_name = Some("nowhere".to_string());
    assert_eq!(unknown.resolved_server_address(), None);
}

#[test]
fn an_outdated_install_is_asked_about_at_the_start() {
    let begun = |game: Option<GameDir>| {
        let servers = ServerDefinitions::from_list(Vec::new());
        Launcher::new(Preferences::default(), servers, None, game)
    };
    let old = begun(Some(game_at("2010.07.10.0000")));
    assert!(old.outdated_prompt_open);
    assert_eq!(
        old.install_status,
        status(InstallState::FoundNeedsPatch { game_version: Some("2010.07.10.0000".to_string()) })
    );
    assert_eq!(old.selected_server_name, None);
    let current = begun(Some(game_at(" 2012.09.19.0001\n")));
    assert!(!current.outdated_prompt_open && current.install_ready());
    // Without its client the install needs patches, though its version is the right one.
    let mut damaged = game_at("2012.09.19.0001");
    damaged.client_exe = false;
    let damaged = begun(Some(damaged));
    assert!(!damaged.outdated_prompt_open && !damaged.install_ready());
    let mut no_install = game_at("x");
    no_install.boot_exe = false;
    assert!(!game_is_installed_but_outdated(&Some(no_install)));
    assert!(!begun(None).outdated_prompt_open);
    let mut prefs = Preferences::default();
    let found = Some("/found".to_string());
    assert_eq!(location_at_start(&prefs, &found), found);
    prefs.launcher.game_location = Some("/chosen".to_string());
    assert_eq!(location_at_start(&prefs, &found).as_deref(), Some("/chosen"));
}

#[test]
fn preferences_come_from_the_user_or_the_bundle() {
    let named = |name: &str| {
        let mut prefs = Preferences::default();
        prefs.launcher.server_name = name.to_string();
        prefs
    };
    let name = |prefs: Preferences| prefs.launcher.server_name;
    assert_eq!(name(initial_preferences(Some(Some(named("u"))), Some(Some(named("b"))))), "u");
    assert_eq!(name(initial_preferences(Some(None), Some(Some(named("b"))))), "");
    assert_eq!(name(initial_preferences(None, Some(Some(named("b"))))), "b");
    assert_eq!(name(initial_preferences(None, None)), "");
    let mut prefs = Preferences::default();
    let docs = || Some("/docs".to_string());
    assert_eq!(seeding_dir_at_start(&prefs, docs()), docs());
    prefs.launcher.patch_download_dir = Some("/p".to_string());
    assert_eq!(seeding_dir_at_start(&prefs, docs()).as_deref(), Some("/p"));
    assert_eq!(
        launcher_with(prefs).resolved_patch_storage_dir(docs()).as_deref(),
        Some("/p")
    );
    let mut off = Preferences::default();
    off.launcher.seed_patches = false;
    assert_eq!(seeding_dir_at_start(&off, docs()), None);
}

#[test]
fn login_is_blocked_until_the_install_is_ready() {
    let old = |version: &str| {
        status(InstallState::FoundNeedsPatch { game_version: Some(version.to_string()) })
    };
    for (verdict, text) in [
        (
            status(InstallState::NotFound),
            "Game install not found - set the game location in Game Settings.",
        ),
        (
            old("2012.09.19.0001"),
            "Client files are incomplete (ffxivgame.exe is missing) - re-apply the patches before logging in.",
        ),
        (
            old("2010.07.10.0000"),
            "Client is at 2010.07.10.0000 - apply the 1.23b patches before logging in.",
        ),
        (needs_patch(), "Client is not 1.23b - apply the patches before logging in."),
    ] {
        let mut launcher = launcher();
        assert_eq!(launcher.launch_via_login(verdict), LoginStart::Nothing);
        assert_eq!(message(&launcher), (MessageKind::Error, text));
        let view = launcher.main_view();
        assert!(!view.launch_enabled);
        assert_eq!(view.gate.unwrap().text, text);
        launcher.dev_session_id = "a".repeat(56);
        let again = InstallStatus {
            state: InstallState::NotFound,
            game_dir: None,
        };
        assert!(launcher.launch_with_dev_session_id(again, "").is_none());
    }
}

#[test]
fn a_launch_leads_to_the_login_that_the_server_has() {
    let mut native = launcher();
    assert_eq!(
        native.launch_via_login(status(InstallState::Ready)),
        LoginStart::Native {
            server_name: "Bahamut (main)".to_string(),
            api_url: "https://bahamut.stegall.me/api/v1".to_string(),
        }
    );
    assert!(native.native_login_open);
    assert_eq!(native.prefs.launcher.server_name, "Bahamut (main)");
    assert_eq!(native.main_view().launch_label, "Login in progress…");
    assert_eq!(native.launch_via_login(status(InstallState::Ready)), LoginStart::Nothing);
    assert_eq!(message(&native), (MessageKind::Info, "Login window already open."));
    native.cancel_login();
    assert_eq!(message(&native), (MessageKind::Info, "Login cancelled."));

    let mut web = launcher();
    web.selected_server_name = Some("Localhost".to_string());
    let url = "http://127.0.0.1:54993/login".to_string();
    assert_eq!(
        web.launch_via_login(status(InstallState::Ready)),
        LoginStart::Page { login_url: url.clone() }
    );
    web.login_page_opened(&url, Ok(()));
    assert!(web.login_running);
    assert_eq!(message(&web).1, "Opening login page: http://127.0.0.1:54993/login");
    web.login_page_opened(&url, Err("no display".to_string()));
    assert_eq!(message(&web).1, "Failed to open login window: no display");

    let mut none = launcher();
    none.selected_server_name = None;
    none.launch_via_login(status(InstallState::Ready));
    assert_eq!(message(&none).1, "No server address selected.");
    none.manual_server_address = "1.2.3.4".to_string();
    none.launch_via_login(status(InstallState::Ready));
    assert_eq!(
        message(&none).1,
        "Selected server has no login URL or auth API. Use the developer session-id override."
    );
    none.detected_install = None;
    none.launch_via_login(status(InstallState::Ready));
    assert_eq!(message(&none).1, "No game location set.");
}

#[test]
fn a_login_that_succeeds_launches_the_game() {
    let mut launcher = launcher();
    launcher.login_running = true;
    launcher.prefs.developer.enable_winsock_tracing = true;
    let request = launcher
        .login_ended(LoginOutcome::Success("sid".to_string()), "+relay")
        .unwrap();
    assert_eq!(request.game_dir, "/g");
    assert_eq!(request.lobby_host, "bahamut.stegall.me");
    assert_eq!(request.session_id, "sid");
    assert_eq!(request.wine_debug_override, None);
    assert!(request.enable_winsock_proxy);
    assert!(!launcher.login_running);
    assert_eq!(message(&launcher).1, "Login complete; launching game…");
    launcher.game_launched("host", Ok(()));
    assert_eq!(message(&launcher).1, "Launched ffxivgame.exe against host.");
    launcher.game_launched("host", Err("e".to_string()));
    assert_eq!(message(&launcher).1, "Failed to launch game: e");
    assert!(launcher.login_ended(LoginOutcome::Cancelled, "").is_none());
    assert_eq!(message(&launcher).1, "Login window closed without completing.");
    assert!(launcher.login_ended(LoginOutcome::Error("x".to_string()), "").is_none());
    assert_eq!(message(&launcher), (MessageKind::Error, "Login failed: x"));

    launcher.native_login_open = true;
    assert!(launcher.native_login_shown(NativeLoginOutcome::Open, "").is_none());
    assert!(launcher.native_login_open);
    launcher.prefs.developer.enable_verbose_wine_debug = true;
    let request = launcher
        .native_login_shown(NativeLoginOutcome::Success("s".to_string()), "+relay")
        .unwrap();
    assert_eq!(request.wine_debug_override.as_deref(), Some("+relay"));
    launcher.native_login_open = true;
    assert!(launcher.native_login_shown(NativeLoginOutcome::Cancelled, "").is_none());
    assert!(!launcher.native_login_open);
    launcher.detected_install = None;
    assert!(launcher.launch_game_with_session("s".to_string(), "").is_none());
    assert_eq!(message(&launcher).1, "No game location set.");
}

#[test]
fn a_typed_session_id_must_have_its_length() {
    let mut launcher = launcher();
    launcher.dev_session_id = " short ".to_string();
    assert!(launcher.launch_with_dev_session_id(status(InstallState::Ready), "").is_none());
    assert_eq!(message(&launcher).1, "Dev session ID must be 56 characters.");
    launcher.dev_session_id = format!(" {} ", "z".repeat(56));
    let request = launcher
        .launch_with_dev_session_id(status(InstallState::Ready), "")
        .unwrap();
    assert_eq!(request.session_id, "z".repeat(56));
}

#[test]
fn a_ready_install_closes_the_question_whether_to_update() {
    let mut launcher = launcher();
    launcher.outdated_prompt_open = true;
    launcher.refresh_install_status(needs_patch());
    assert!(launcher.outdated_prompt_open);
    launcher.refresh_install_status(status(InstallState::Ready));
    assert!(!launcher.outdated_prompt_open);
    assert!(launcher.install_check_due(3000));
    assert!(!launcher.install_check_due(2999));
    launcher.outdated_prompt_open = true;
    assert!(!launcher.prompt_answered(true, false, false));
    assert!(launcher.outdated_prompt_open);
    assert!(launcher.prompt_answered(true, false, true));
    assert!(!launcher.outdated_prompt_open);
}

#[test]
fn downloaded_patches_are_applied_once_without_being_asked_for() {
    let mut launcher = launcher();
    launcher.outdated_prompt_open = true;
    assert!(!launcher.auto_apply(TorrentState::Seeding));
    launcher.refresh_install_status(needs_patch());
    assert!(!launcher.auto_apply(TorrentState::Downloading));
    launcher.settings_open = true;
    assert!(!launcher.auto_apply(TorrentState::Complete));
    launcher.settings_open = false;
    assert!(launcher.auto_apply(TorrentState::Complete));
    assert!(!launcher.outdated_prompt_open);
    assert!(!launcher.auto_apply(TorrentState::Complete));
}

#[test]
fn patches_are_applied_from_where_they_were_found() {
    let text = |t: &str| Some(t.to_string());
    assert_eq!(
        apply_candidates(text("/docs/ffxiv_patches"), text("/docs/"), text("/docs")),
        ["/docs/ffxiv_patches", "/docs/"]
    );
    let candidates = apply_candidates(None, None, text("/docs"));
    let mut launcher = launcher();
    assert_eq!(launcher.kick_off_torrent_apply(true, &candidates, None), None);
    assert_eq!(
        message(&launcher).1,
        "No downloaded patches were found in /docs. Download them first."
    );
    assert_eq!(launcher.kick_off_torrent_apply(true, &Vec::new(), None), None);
    assert_eq!(
        message(&launcher).1,
        "No downloaded patches were found in the storage directory. Download them first."
    );
    assert_eq!(launcher.kick_off_torrent_apply(false, &candidates, None), None);
    assert_eq!(
        message(&launcher).1,
        "'/g' doesn't look like an FFXIV install (no ffxivboot.exe)."
    );
    let zip = Some(PatchPayload::Zip("/docs/z.zip".to_string()));
    assert_eq!(
        launcher.kick_off_torrent_apply(true, &candidates, zip),
        Some(PatchStart {
            game_dir: "/g".to_string(),
            source: PatchSource::LocalZip { zip_path: "/docs/z.zip".to_string() },
        })
    );
    assert!(launcher.patching);
    launcher.patcher_dismissed(Phase::Error, Some("d".to_string()));
    assert_eq!(message(&launcher), (MessageKind::Error, "Update failed: d"));
    launcher.patcher_dismissed(Phase::Error, None);
    assert_eq!(message(&launcher).1, "Update failed: see the log for details");
    launcher.patcher_dismissed(Phase::Cancelled, None);
    assert_eq!(message(&launcher).1, "Update cancelled.");
    launcher.patcher_dismissed(Phase::Done, None);
    assert_eq!(message(&launcher), (MessageKind::Info, "Update complete."));
    assert!(!launcher.patching);
}

#[test]
fn a_picked_folder_is_read_or_its_archive() {
    let mut launcher = launcher();
    assert!(launcher.start_local_install(true));
    assert!(!launcher.start_local_install(false));
    let folder = || "/f".to_string();
    let local = || PatchSource::Local { source_dir: folder() };
    assert_eq!(picked_source(folder(), None), local());
    assert_eq!(picked_source(folder(), Some(PatchPayload::PatchDir(folder()))), local());
    let zip = PatchSource::LocalZip { zip_path: "/f/a.zip".to_string() };
    assert_eq!(
        picked_source(folder(), Some(PatchPayload::Zip("/f/a.zip".to_string()))),
        zip
    );
    assert_eq!(launcher.kick_off_local_patcher(local()).unwrap().game_dir, "/g");
    launcher.detected_install = None;
    assert!(!launcher.start_local_install(true));
    assert_eq!(message(&launcher).1, "No game location set. Use Game Settings to pick one.");
    assert!(launcher.kick_off_local_patcher(local()).is_none());
    assert_eq!(message(&launcher).1, "No game location set.");
}

#[test]
fn a_download_is_started_in_the_storage_folder() {
    let mut launcher = launcher();
    let mut service = TorrentService::new("/p");
    let dir = || Some("/docs".to_string());
    assert!(launcher.start_torrent_download(&mut service, None, Ok(())).is_none());
    assert_eq!(message(&launcher).1, "Could not resolve a patch storage directory.");
    let denied = Err("denied".to_string());
    assert!(launcher.start_torrent_download(&mut service, dir(), denied).is_none());
    assert_eq!(
        message(&launcher).1,
        "Could not create patch storage directory /docs: denied"
    );
    launcher.torrent_apply_attempted = true;
    let task = launcher.start_torrent_download(&mut service, dir(), Ok(())).unwrap();
    assert_eq!(task.output_dir, "/docs");
    assert_eq!(task.endpoint_url, "https://www.stegall.me/ffxiv/1.0/patches/torrent");
    assert!(!launcher.torrent_apply_attempted);
    assert_eq!(message(&launcher).1, "Fetching the patch torrent...");
    assert!(launcher.start_torrent_download(&mut service, dir(), Ok(())).is_none());
    assert!(message(&launcher).1.starts_with("A patch download is already running"));
    assert!(!launcher.cancel_torrent(&mut service));
    assert_eq!(service.state(), TorrentState::Stopped);
    service.set_state(TorrentState::Downloading);
    launcher.cancel_torrent(&mut service);
    assert_eq!(message(&launcher).1, "Torrent download stopped.");
}

#[test]
fn the_storage_folder_is_not_changed_under_a_download() {
    let values = |dir: Option<&str>, seed: bool| SettingsValues {
        game_location: Some("/other".to_string()),
        patch_download_dir: dir.map(String::from),
        seed_patches: seed,
    };
    let mut launcher = launcher();
    let mut service = TorrentService::new("/p");
    launcher.settings_open = true;
    service.set_state(TorrentState::Downloading);
    let change = launcher.settings_accepted(values(Some("/new"), false), &mut service);
    assert_eq!(change, SeedingChange::Nothing);
    assert_eq!(launcher.prefs.launcher.patch_download_dir, None);
    assert_eq!(launcher.prefs.launcher.game_location.as_deref(), Some("/other"));
    assert!(!launcher.prefs.launcher.seed_patches && !service.seeding_enabled);
    assert!(!launcher.settings_open);
    assert_eq!(
        message(&launcher).1,
        "Cancel the in-progress patch download before changing the patch storage folder."
    );
    launcher.last_message = None;
    service.set_state(TorrentState::Complete);
    let change = launcher.settings_accepted(values(Some("/new"), true), &mut service);
    assert_eq!(change, SeedingChange::Resume { generation: 1 });
    assert_eq!(launcher.prefs.launcher.patch_download_dir.as_deref(), Some("/new"));
    assert!(launcher.last_message.is_none());
    service.session_created("/new");
    launcher.settings_accepted(values(Some("/new/"), true), &mut service);
    assert!(launcher.last_message.is_none());
    launcher.settings_accepted(values(None, true), &mut service);
    assert!(message(&launcher).1.starts_with("Patch storage folder saved."));
    launcher.developer_open = true;
    launcher.developer_accepted(DeveloperPreferences {
        enable_verbose_wine_debug: true,
        enable_winsock_tracing: false,
    });
    assert!(launcher.prefs.developer.enable_verbose_wine_debug && !launcher.developer_open);
}

#[test]
fn the_settings_window_gives_back_its_fields() {
    let mut modal = SettingsModal::new(Some("/g"), None, true, Some("/docs"));
    assert_eq!(modal.storage_hint, "Empty = /docs (patches/torrent are stored here).");
    assert_eq!(modal.game_location_text, "/g");
    assert_eq!(modal.shown(false, false, true), SettingsOutcome::Open);
    modal.game_location_text = "  ".to_string();
    modal.patch_download_dir_text = " /p ".to_string();
    modal.seed_patches = false;
    assert_eq!(
        modal.shown(true, false, true),
        SettingsOutcome::Accepted(SettingsValues {
            game_location: None,
            patch_download_dir: Some("/p".to_string()),
            seed_patches: false,
        })
    );
    assert!(!modal.open);
    assert_eq!(modal.shown(true, false, false), SettingsOutcome::Cancelled);
    assert_eq!(modal.shown(false, true, true), SettingsOutcome::Cancelled);
    assert_eq!(
        SettingsModal::new(None, None, true, None).storage_hint,
        "Empty = your Documents folder (patches/torrent are stored here)."
    );
}

fn snapshot(state: TorrentState) -> TorrentSnapshot {
    TorrentSnapshot {
        state,
        progress_bytes: 3 << 29,
        total_bytes: 6 << 29,
        uploaded_bytes: 5 << 20,
        peers: 12,
        download_bps: 1 << 20,
        upload_bps: 0,
        error: None,
    }
}

#[test]
fn the_torrent_panel_says_where_the_download_stands() {
    let panel = torrent_panel(&snapshot(TorrentState::Downloading), false, "50.0");
    assert_eq!(
        panel.text,
        "Downloading patches: 1.50 GB / 3.00 GB (50.0%) - 1.00 MB/s - 12 peers"
    );
    assert_eq!(panel.button, PanelButton::Cancel);
    assert_eq!(panel.progress.unwrap().whole, 6 << 29);
    let panel = torrent_panel(&snapshot(TorrentState::Seeding), false, "");
    assert_eq!(panel.text, "Seeding - 12 peers - 5.00 MB uploaded");
    assert_eq!((panel.tone, panel.button), (Some(Tone::Success), PanelButton::Apply));
    assert_eq!(
        torrent_panel(&snapshot(TorrentState::Complete), true, "").button,
        PanelButton::Nothing
    );
    let idle = torrent_panel(&snapshot(TorrentState::Idle), true, "");
    assert_eq!(idle.button.label(), "Download Patches via Torrent");
    assert_eq!(
        idle.hint.as_deref(),
        Some("Game is up to date - downloading only helps seed.")
    );
    let stopped = torrent_panel(&snapshot(TorrentState::Stopped), false, "");
    assert_eq!((stopped.text.as_str(), stopped.button.label()), ("Torrent download stopped.", "Resume Download"));
    let mut failed = snapshot(TorrentState::Error);
    assert_eq!(torrent_panel(&failed, false, "").text, "Torrent download failed.");
    failed.error = Some("boom".to_string());
    let panel = torrent_panel(&failed, false, "");
    assert_eq!((panel.text.as_str(), panel.button.label()), ("boom", "Retry Download"));
    assert_eq!(
        torrent_panel(&snapshot(TorrentState::Resolving), false, "").text,
        "Fetching the patch torrent..."
    );
}

#[test]
fn the_main_window_shows_what_is_chosen() {
    let mut launcher = launcher();
    let view = launcher.main_view();
    assert_eq!(view.server_label, "Bahamut (main)");
    assert_eq!(view.location_text, "/g");
    assert_eq!(view.location_status.unwrap().text, "game.ver matches expected version");
    assert!(view.launch_enabled && view.gate.is_none() && view.message.is_none());
    launcher.detected_install = None;
    launcher.selected_server_name = None;
    launcher.set_error("e");
    launcher.refresh_install_status(needs_patch());
    let view = launcher.main_view();
    assert_eq!((view.server_label.as_str(), view.location_text.as_str()), ("(none)", "(not set)"));
    assert!(view.location_status.is_none());
    assert_eq!(view.message.unwrap().tone, Tone::Error);
}

#[test]
fn the_window_is_drawn_again_as_often_as_needed() {
    let mut launcher = launcher();
    assert_eq!(launcher.repaint_after_ms(true, TorrentState::Idle), None);
    assert_eq!(launcher.repaint_after_ms(true, TorrentState::Stopped), None);
    assert_eq!(launcher.repaint_after_ms(true, TorrentState::Seeding), Some(500));
    launcher.login_running = true;
    assert_eq!(launcher.repaint_after_ms(true, TorrentState::Seeding), Some(100));
    launcher.login_running = false;
    launcher.patching = true;
    assert_eq!(launcher.repaint_after_ms(false, TorrentState::Idle), Some(100));
    assert_eq!(launcher.repaint_after_ms(true, TorrentState::Idle), None);
}

#[test]
fn colours_suit_the_window() {
    assert_eq!(theme::success(true), ThemeColor::LightGreen);
    assert_eq!(theme::success(false), ThemeColor::Rgb(0x1a, 0x7f, 0x37));
    assert_eq!(theme::info(true), ThemeColor::LightBlue);
    assert_eq!(theme::info(false), ThemeColor::Rgb(0x0b, 0x5c, 0xad));
    assert_eq!(theme::warn(true), ThemeColor::WarnForeground);
    assert_eq!(theme::warn(false), ThemeColor::Rgb(0x9a, 0x67, 0x00));
    assert_eq!(theme::error(true), ThemeColor::ErrorForeground);
    assert_eq!(theme::error(false), ThemeColor::Rgb(0xcf, 0x22, 0x2e));
}

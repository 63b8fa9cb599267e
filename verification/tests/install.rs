use garlemald_client::config::paths::{self, ProjectDir, ProjectPath};
use garlemald_client::config::preferences::Preferences;
use garlemald_client::install_check::{check_install, GameDir, InstallState};
use garlemald_client::version::FFXIV_GAME_VERSION;
use std::path::Path;

fn looked_at(dir: &Path) -> GameDir {
    GameDir {
        path: dir.to_str().unwrap().to_string(),
        boot_exe: dir.join("ffxivboot.exe").is_file(),
        client_exe: dir.join("ffxivgame.exe").is_file(),
        game_ver: None,
    }
}

fn install(boot_exe: bool, client_exe: bool, game_ver: Option<&str>) -> GameDir {
    GameDir {
        path: "/games/ffxiv".to_string(),
        boot_exe,
        client_exe,
        game_ver: game_ver.map(String::from),
    }
}

#[test]
fn no_dir_is_not_found() {
    let status = check_install(None);
    assert_eq!(status.state, InstallState::NotFound);
    assert_eq!(status.game_dir, None);
}

#[test]
fn missing_dir_is_not_found() {
    let tmp = tempfile::tempdir().unwrap();
    let gone = tmp.path().join("nope");
    let status = check_install(Some(looked_at(&gone)));
    assert_eq!(status.state, InstallState::NotFound);
}

#[test]
fn dir_without_boot_exe_is_not_found() {
    let tmp = tempfile::tempdir().unwrap();
    let status = check_install(Some(looked_at(tmp.path())));
    assert_eq!(status.state, InstallState::NotFound);
    assert_eq!(status.game_dir.as_deref(), tmp.path().to_str());
}

#[test]
fn base_install_needs_patch_and_reports_its_version() {
    let status = check_install(Some(install(true, false, Some("2010.07.10.0000\n"))));
    assert_eq!(
        status.state,
        InstallState::FoundNeedsPatch {
            game_version: Some("2010.07.10.0000".into())
        }
    );
}

#[test]
fn boot_exe_without_game_ver_needs_patch() {
    let status = check_install(Some(install(true, false, None)));
    assert_eq!(
        status.state,
        InstallState::FoundNeedsPatch { game_version: None }
    );
    let blank = check_install(Some(install(true, true, Some(" \n"))));
    assert_eq!(
        blank.state,
        InstallState::FoundNeedsPatch { game_version: None }
    );
}

#[test]
fn target_game_ver_without_client_exe_still_needs_patch() {
    let status = check_install(Some(install(true, false, Some(FFXIV_GAME_VERSION))));
    assert!(matches!(status.state, InstallState::FoundNeedsPatch { .. }));
}

#[test]
fn patched_install_is_ready() {
    let status = check_install(Some(install(true, true, Some(FFXIV_GAME_VERSION))));
    assert_eq!(status.state, InstallState::Ready);
    assert_eq!(status.game_dir.as_deref(), Some("/games/ffxiv"));
}

#[test]
fn seeding_is_on_by_default() {
    let prefs = Preferences::default();
    assert!(prefs.launcher.seed_patches);
    assert!(prefs.launcher.server_name.is_empty());
    assert!(prefs.launcher.game_location.is_none());
    assert!(!prefs.developer.enable_verbose_wine_debug);
    assert!(!prefs.developer.enable_winsock_tracing);
}

#[test]
fn directories_are_those_of_the_platform() {
    let dirs = directories::ProjectDirs::from("me", "stegall", "garlemald-client");
    let text = |p: &Path| p.to_str().unwrap().to_string();
    match dirs {
        Some(dirs) => {
            assert_eq!(paths::config_dir(), Ok(text(dirs.config_dir())));
            assert_eq!(paths::data_dir(), Ok(text(dirs.data_dir())));
            assert_eq!(paths::cache_dir(), Ok(text(dirs.cache_dir())));
            for dir in [paths::config_dir(), paths::data_dir(), paths::cache_dir()] {
                assert!(dir.unwrap().contains("garlemald-client"));
            }
            assert_eq!(
                paths::preferences_file_path(),
                Ok(text(&dirs.config_dir().join("preferences.toml")))
            );
            assert_eq!(
                paths::servers_file_path(),
                Ok(text(&dirs.config_dir().join("servers.xml")))
            );
            assert_eq!(
                paths::torrent_session_dir(),
                Ok(text(&dirs.cache_dir().join("torrent-session")))
            );
            assert_eq!(
                paths::patch_staging_dir(),
                Ok(text(&dirs.cache_dir().join("patch-staging")))
            );
            assert_eq!(paths::default_torrent_storage_dir(None), Ok(text(dirs.data_dir())));
        }
        None => assert_eq!(paths::config_dir(), Err(paths::PathsError::Unresolved)),
    }
}

#[test]
fn directories_that_cannot_be_told_are_errors() {
    let dirs = || {
        Some(paths::PlatformDirs {
            config: Some("/c".to_string()),
            data: Some("/d".to_string()),
            cache: None,
        })
    };
    assert_eq!(paths::pick(None, ProjectDir::Data), Err(paths::PathsError::Unresolved));
    assert_eq!(paths::pick(dirs(), ProjectDir::Config), Ok("/c".to_string()));
    assert_eq!(paths::pick(dirs(), ProjectDir::Data), Ok("/d".to_string()));
    assert_eq!(paths::pick(dirs(), ProjectDir::Cache), Err(paths::PathsError::NotUtf8));
    let all = || {
        Some(paths::PlatformDirs {
            config: Some("/c".to_string()),
            data: Some("/d".to_string()),
            cache: Some("/x".to_string()),
        })
    };
    for (what, path) in [
        (ProjectPath::Config, "/c"),
        (ProjectPath::Data, "/d"),
        (ProjectPath::Cache, "/x"),
        (ProjectPath::Preferences, "/c/preferences.toml"),
        (ProjectPath::Servers, "/c/servers.xml"),
        (ProjectPath::TorrentSession, "/x/torrent-session"),
        (ProjectPath::PatchStaging, "/x/patch-staging"),
    ] {
        assert_eq!(paths::project_path(all(), what), Ok(path.to_string()));
        assert_eq!(paths::project_path(None, what), Err(paths::PathsError::Unresolved));
    }
    assert_eq!(
        paths::project_path(dirs(), ProjectPath::PatchStaging),
        Err(paths::PathsError::NotUtf8)
    );
    let names = paths::project_names();
    assert_eq!(
        (names.qualifier, names.organization, names.application),
        ("me", "stegall", "garlemald-client")
    );
    assert_eq!(
        paths::within(Err(paths::PathsError::Unresolved), "leaf"),
        Err(paths::PathsError::Unresolved)
    );
    assert_eq!(paths::within(Ok("/x".to_string()), "leaf"), Ok("/x/leaf".to_string()));
    assert_eq!(
        paths::PathsError::Unresolved.message(),
        "could not resolve platform-specific project directories"
    );
    let data = || Ok("/d".to_string());
    assert_eq!(
        paths::storage_dir(Some(Some("/home/me/Documents".to_string())), data()),
        Ok("/home/me/Documents".to_string())
    );
    assert_eq!(paths::storage_dir(Some(None), data()), Err(paths::PathsError::NotUtf8));
    assert_eq!(paths::storage_dir(None, data()), data());
    assert_eq!(
        paths::default_torrent_storage_dir(Some(Some("/docs".to_string()))),
        Ok("/docs".to_string())
    );
    assert_eq!(
        paths::default_torrent_storage_dir(Some(None)),
        Err(paths::PathsError::NotUtf8)
    );
    assert_eq!(paths::bundled_config_path(), "./configs/garlemald-client.toml");
}

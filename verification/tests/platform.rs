use garlemald_client::platform::dxvk::{
    ensure_dxvk, vulkan_available, wants_dxvk, DxvkInstall, DxvkStep,
};
use garlemald_client::platform::macos::{
    derive_prefix_from_game_location, install_needed, missing_game_exe, rosetta_problem,
    Component, EngineTrial, MacosPlatform, RuntimeSetup, SetupFailure, SetupStep, ENGINE_NAME,
    WRAPPER_VERSION,
};
use garlemald_client::platform::wine::{
    apply_winsock_proxy, dll_overrides, launch_ffxiv_game, launch_result, log_footer,
    monotonic_ms_since_boot, tail_start, wine_log_path, workspace_ws2_32_proxy_dll, EnvVar,
    ProxyAction, WineRuntime, WINEDEBUG_DEFAULT,
};

#[test]
fn derives_prefix_from_nested_game_dir() {
    let game = "/Users/me/Library/Application Support/garlemald-client/prefix/drive_c/Program Files (x86)/SquareEnix/FINAL FANTASY XIV";
    assert_eq!(
        derive_prefix_from_game_location(game).as_deref(),
        Some("/Users/me/Library/Application Support/garlemald-client/prefix")
    );
}

#[test]
fn no_prefix_when_no_drive_c() {
    assert_eq!(derive_prefix_from_game_location("/tmp/ffxiv"), None);
}

#[test]
fn derives_prefix_from_external_installer_layout() {
    // The xiv1point0-apple-silicon-installer's default prefix.
    let game = "/Users/me/Code/xiv1point0-apple-silicon-installer/target/prefix/drive_c/Program Files (x86)/SquareEnix/FINAL FANTASY XIV";
    let prefix = derive_prefix_from_game_location(game).unwrap();
    assert!(prefix.ends_with("target/prefix"));
}

#[test]
fn the_innermost_drive_c_counts() {
    assert_eq!(
        derive_prefix_from_game_location("/a/drive_c/b/drive_c/g").as_deref(),
        Some("/a/drive_c/b")
    );
    assert_eq!(derive_prefix_from_game_location("/drive_c").as_deref(), Some("/"));
    assert_eq!(derive_prefix_from_game_location("drive_c/x").as_deref(), Some(""));
    assert_eq!(derive_prefix_from_game_location("/a/Drive_C/x"), None);
}

#[test]
fn install_needed_quadrants() {
    // A missing component installs regardless of the marker.
    assert!(install_needed(false, None, ENGINE_NAME));
    assert!(install_needed(false, Some(ENGINE_NAME), ENGINE_NAME));
    // Present + matching marker (trailing newline tolerated) is the only skip.
    assert!(!install_needed(true, Some(ENGINE_NAME), ENGINE_NAME));
    assert!(!install_needed(
        true,
        Some(&format!("{ENGINE_NAME}\n")),
        ENGINE_NAME
    ));
    // Present but unmarked or differently marked reinstalls.
    assert!(install_needed(true, None, ENGINE_NAME));
    assert!(install_needed(
        true,
        Some("WS12WineCX24.0.7_7"),
        ENGINE_NAME
    ));
}

#[test]
fn ticks_are_milliseconds_modulo_two_to_the_thirty_two() {
    assert_eq!(monotonic_ms_since_boot(0, 5, 999_999_999), 5_999);
    assert_eq!(monotonic_ms_since_boot(0, 4_294_967, 296_000_000), 0);
    assert_eq!(monotonic_ms_since_boot(0, 4_294_967, 297_000_000), 1);
    assert_eq!(monotonic_ms_since_boot(-1, 5, 0), 0);
}

#[test]
fn the_runtime_works_on_the_prefix_of_the_game() {
    assert_eq!(MacosPlatform::new(), MacosPlatform::default());
    let runtime = MacosPlatform::runtime_for_game_dir("/p/drive_c/g", "/data");
    assert_eq!(runtime.prefix, "/p");
    assert_eq!(runtime.wine_bin, "/data/runtime/wswine.bundle/bin/wine");
    assert_eq!(runtime.wineserver_bin, "/data/runtime/wswine.bundle/bin/wineserver");
    assert_eq!(
        runtime.dyld_fallback_paths,
        [
            "/data/runtime/Frameworks",
            "/data/runtime/Frameworks/GStreamer.framework/Versions/Current/lib",
            "/data/runtime/wswine.bundle/lib",
            "/usr/local/lib",
            "/usr/lib",
        ]
    );
    let managed = MacosPlatform::runtime_for_game_dir("/games/g", "/data");
    assert_eq!(managed.prefix, "/data/prefix");
    assert_eq!(
        managed.install_root(),
        "/data/prefix/drive_c/Program Files (x86)/SquareEnix/FINAL FANTASY XIV"
    );
    assert_eq!(MacosPlatform::managed_install_dir("/data"), managed.install_root());
    assert_eq!(MacosPlatform.detect_game_install("/data", true), Some(managed.install_root()));
    assert_eq!(MacosPlatform.detect_game_install("/data", false), None);
    assert_eq!(managed.registry_file(), "/data/prefix/system.reg");
    let (exe, patched) = MacosPlatform::game_exes("/g");
    assert_eq!((exe.as_str(), patched.as_str()), ("/g/ffxivgame.exe", "/g/ffxivgame.patched.exe"));
    assert_eq!(missing_game_exe(&exe), "ffxivgame.exe not found at /g/ffxivgame.exe");
    assert!(rosetta_problem(true, false).unwrap().contains("softwareupdate"));
    assert_eq!(rosetta_problem(true, true), None);
    assert_eq!(rosetta_problem(false, false), None);
}

fn runtime() -> WineRuntime {
    WineRuntime {
        root: "/data".to_string(),
        prefix: "/p".to_string(),
        wine_bin: "/w/wine".to_string(),
        wineserver_bin: "/w/wineserver".to_string(),
        dyld_fallback_paths: vec!["/a".to_string(), "/b".to_string()],
        gst_plugin_path: Some("/gst".to_string()),
    }
}

fn pairs(vars: &[EnvVar]) -> Vec<(&str, &str)> {
    vars.iter().map(|v| (v.name.as_str(), v.value.as_str())).collect()
}

#[test]
fn commands_are_given_their_environment() {
    let mut runtime = runtime();
    assert_eq!(
        pairs(&runtime.configure_command(false, true)),
        [
            ("WINEPREFIX", "/p"),
            ("WINEDEBUG", WINEDEBUG_DEFAULT),
            ("DYLD_FALLBACK_LIBRARY_PATH", "/a:/b"),
            ("GST_PLUGIN_PATH", "/gst"),
            ("GST_PLUGIN_SYSTEM_PATH", "/gst"),
        ]
    );
    runtime.gst_plugin_path = None;
    assert_eq!(pairs(&runtime.configure_command(true, false)), [("WINEPREFIX", "/p")]);
    assert_eq!(
        pairs(&runtime.configure_command_with_debug(Some("+relay"), true, false)),
        [("WINEPREFIX", "/p"), ("WINEDEBUG", "+relay")]
    );
    assert!(!WINEDEBUG_DEFAULT.contains("seh"));
}

#[test]
fn a_launch_runs_the_game_in_its_directory() {
    let runtime = runtime();
    let launch = launch_ffxiv_game(
        &runtime,
        "/g/ffxivgame.patched.exe",
        "sqex0002x!////",
        None,
        true,
        Some("d3d9=n,b;dxgi=n,b"),
        true,
        false,
    );
    assert_eq!(launch.program, "/w/wine");
    assert_eq!(launch.arguments, ["/g/ffxivgame.patched.exe", "sqex0002x!////"]);
    assert_eq!(launch.game_dir.as_deref(), Some("/g"));
    assert_eq!(
        pairs(&launch.environment).last(),
        Some(&("WINEDLLOVERRIDES", "d3d9=n,b;dxgi=n,b;ws2_32=n,b"))
    );
    assert_eq!(
        launch.log_header,
        "=== garlemald-client launch ===\nwine: /w/wine\nexe:  /g/ffxivgame.patched.exe\narg:  sqex0002x!////\nprefix: /p\nWINEDEBUG: (default)\n\n"
    );
    assert_eq!(dll_overrides(None, false), None);
    assert_eq!(dll_overrides(None, true).as_deref(), Some("ws2_32=n,b"));
    assert_eq!(dll_overrides(Some("x"), false).as_deref(), Some("x"));
    assert_eq!(log_footer("ExitStatus(0)"), "\n=== exit: ExitStatus(0) ===\n");
    assert_eq!(launch_result(true, "s", "/l"), Ok(()));
    assert_eq!(
        launch_result(false, "s", "/l"),
        Err("ffxivgame.exe exited with status s; see /l for wine output".to_string())
    );
    assert_eq!(wine_log_path("/data"), "/data/logs/wine.log");
    assert_eq!((tail_start(8192), tail_start(8193), tail_start(10)), (0, 1, 0));
}

#[test]
fn the_socket_proxy_is_put_in_place_or_removed() {
    let gone = |leaf: &str| ProxyAction::Remove(format!("/g/{leaf}"));
    let off = apply_winsock_proxy("/g", false, "/b", true);
    assert_eq!(off.actions, [gone("ws2_32_real.dll"), gone("ws2_32.dll")]);
    assert_eq!(off.problem, None);
    let on = apply_winsock_proxy("/g", true, "/b", true);
    let copy = ProxyAction::Copy { from: "/b".to_string(), to: "/g/ws2_32.dll".to_string() };
    assert_eq!(on.actions, [gone("ws2_32_real.dll"), copy]);
    assert_eq!(on.problem, None);
    let unbuilt = apply_winsock_proxy("/g", true, "/b", false);
    assert_eq!(unbuilt.actions, off.actions);
    assert!(unbuilt
        .problem
        .unwrap()
        .starts_with("winsock tracing is on but the proxy DLL is missing at /b.\nRun"));
    assert_eq!(
        workspace_ws2_32_proxy_dll("/src"),
        "/src/ws2_32-proxy/target/i686-pc-windows-gnu/release/ws2_32.dll"
    );
}

#[test]
fn a_current_runtime_is_not_downloaded_again() {
    let mut setup = RuntimeSetup::begin("/data");
    setup.root_created(Ok(()));
    assert_eq!(setup.component.marker(&setup.root), "/data/runtime/wrapper-version");
    assert_eq!(setup.component.witness(&setup.root), "/data/runtime/Frameworks");
    setup.inspected(true, Some("1.0.11\n"));
    assert_eq!((setup.step, setup.component), (SetupStep::Inspect, Component::Engine));
    assert_eq!(
        setup.component.witness(&setup.root),
        "/data/runtime/wswine.bundle/bin/wine"
    );
    setup.inspected(true, Some(ENGINE_NAME));
    assert_eq!(setup.step, SetupStep::TryEngine);
    setup.engine_tried(EngineTrial::Works);
    assert_eq!(setup.step, SetupStep::WriteMarker);
    setup.marker_written(Ok(()));
    assert_eq!((setup.step, setup.failure), (SetupStep::Finished, None));
}

#[test]
fn a_stale_runtime_is_removed_only_for_its_replacement() {
    let mut setup = RuntimeSetup::begin("/data");
    setup.root_created(Ok(()));
    setup.inspected(true, Some("1.0.10"));
    assert_eq!(setup.step, SetupStep::Fetch);
    assert!(setup.component.url().contains(WRAPPER_VERSION));
    assert_eq!(setup.component.archive_name(), "wrapper.tar.xz");
    setup.archive_fetched(Ok("/tmp/w".to_string()));
    assert_eq!(setup.source_path(), "/tmp/w/Template-1.0.11.app/Contents/Frameworks");
    setup.source_checked(true);
    setup.stale_checked(true);
    assert_eq!(setup.step, SetupStep::RemoveStale);
    setup.stale_removed(Ok(()));
    setup.installed(Ok(()));
    setup.marker_written(Ok(()));
    assert_eq!((setup.step, setup.component), (SetupStep::Inspect, Component::Engine));
    setup.inspected(false, None);
    setup.archive_fetched(Ok("/tmp/e".to_string()));
    assert_eq!(setup.source_path(), "/tmp/e/wswine.bundle");
    setup.source_checked(true);
    setup.stale_checked(false);
    assert_eq!(setup.step, SetupStep::Install);
    setup.installed(Ok(()));
    assert_eq!(setup.step, SetupStep::TryEngine);
}

#[test]
fn failures_of_the_runtime_setup_are_told() {
    let begun = || {
        let mut setup = RuntimeSetup::begin("/d");
        setup.root_created(Ok(()));
        setup
    };
    let fetched = || {
        let mut setup = begun();
        setup.inspected(false, None);
        setup.archive_fetched(Ok("/t".to_string()));
        setup
    };
    let engine = || {
        let mut setup = begun();
        setup.inspected(true, Some(WRAPPER_VERSION));
        setup
    };
    let e = || Err("io".to_string());
    let mut told: Vec<RuntimeSetup> = Vec::new();
    let mut s = RuntimeSetup::begin("/d");
    s.root_created(e());
    told.push(s);
    let mut s = begun();
    s.inspected(false, None);
    s.archive_fetched(Err(SetupFailure { message: "GET url".to_string(), cause: None }));
    told.push(s);
    let mut s = fetched();
    s.source_checked(false);
    told.push(s);
    let mut s = fetched();
    s.source_checked(true);
    s.stale_checked(true);
    s.stale_removed(e());
    told.push(s);
    let mut s = fetched();
    s.source_checked(true);
    s.stale_checked(false);
    s.installed(e());
    told.push(s);
    let mut s = fetched();
    s.source_checked(true);
    s.stale_checked(false);
    s.installed(Ok(()));
    s.marker_written(e());
    told.push(s);
    let mut s = engine();
    s.inspected(false, None);
    s.archive_fetched(Ok("/t".to_string()));
    s.source_checked(false);
    told.push(s);
    let mut s = engine();
    s.inspected(true, Some(ENGINE_NAME));
    s.engine_tried(EngineTrial::Failed {
        code: "Some(1)".to_string(),
        stderr: "no".to_string(),
    });
    told.push(s);
    let mut s = engine();
    s.inspected(true, Some(ENGINE_NAME));
    s.engine_tried(EngineTrial::NotRun("ENOENT".to_string()));
    told.push(s);
    let messages: Vec<String> = told.into_iter().map(|s| s.failure.unwrap().message).collect();
    assert_eq!(
        messages,
        [
            "creating runtime dir /d/runtime",
            "GET url",
            "wrapper archive didn't contain expected path /t/Template-1.0.11.app/Contents/Frameworks",
            "removing stale /d/runtime/Frameworks",
            "copying wrapper Frameworks",
            "writing /d/runtime/wrapper-version",
            "engine archive didn't contain expected wswine.bundle at /t/wswine.bundle",
            "wine --version failed (exit Some(1)): no",
            "failed to execute /d/runtime/wswine.bundle/bin/wine: ENOENT",
        ]
    );
}

#[test]
fn dxvk_is_installed_once() {
    let mut install = DxvkInstall::begin("/p", "/cache");
    assert_eq!(install.target_dir(), "/p/drive_c/windows/syswow64");
    install.target_checked(true);
    assert_eq!(install.marker(), "/p/.dxvk-version");
    install.marker_read(Some("2.9"));
    assert_eq!(install.release_witness(), "/cache/dxvk-3.0/x32/d3d9.dll");
    install.cache_checked(false);
    install.cache_created(Ok(()));
    install.release_fetched(Ok(()));
    install.unpacked_checked(true);
    assert_eq!(install.dll_from(), "/cache/dxvk-3.0/x32/d3d9.dll");
    assert_eq!(install.dll_to(), "/p/drive_c/windows/syswow64/d3d9.dll");
    install.dll_copied(Ok(()));
    assert_eq!(install.dll_from(), "/cache/dxvk-3.0/x32/dxgi.dll");
    assert_eq!(install.step, DxvkStep::CopyDll);
    install.dll_copied(Ok(()));
    assert_eq!(install.step, DxvkStep::WriteMarker);
    install.marker_written(Ok(()));
    assert_eq!((install.step, install.failure), (DxvkStep::Finished, None));

    let mut again = DxvkInstall::begin("/p", "/cache");
    again.target_checked(true);
    again.marker_read(Some("3.0\n"));
    assert_eq!(again.step, DxvkStep::Finished);
    let mut cached = DxvkInstall::begin("/p", "/cache");
    cached.target_checked(true);
    cached.marker_read(None);
    cached.cache_checked(true);
    assert_eq!(cached.step, DxvkStep::CopyDll);
}

#[test]
fn dxvk_is_left_out_where_it_cannot_work() {
    assert!(vulkan_available(&vec!["/etc/vulkan/icd.d/radeon.json".to_string()]));
    assert!(!vulkan_available(&vec!["/etc/vulkan/icd.d/readme".to_string()]));
    assert!(wants_dxvk(false, true));
    assert_eq!(ensure_dxvk(false, true, true).as_deref(), Some("d3d9=n,b;dxgi=n,b"));
    assert_eq!(ensure_dxvk(true, true, true), None);
    assert_eq!(ensure_dxvk(false, false, true), None);
    assert_eq!(ensure_dxvk(false, true, false), None);
}

#[test]
fn failures_of_the_dxvk_setup_are_told() {
    let begun = || {
        let mut install = DxvkInstall::begin("/p", "/c");
        install.target_checked(true);
        install.marker_read(None);
        install
    };
    let e = || Err("io".to_string());
    let mut told: Vec<DxvkInstall> = Vec::new();
    let mut i = DxvkInstall::begin("/p", "/c");
    i.target_checked(false);
    told.push(i);
    let mut i = begun();
    i.cache_checked(false);
    i.cache_created(e());
    told.push(i);
    let mut i = begun();
    i.cache_checked(false);
    i.cache_created(Ok(()));
    i.release_fetched(Err("GET x: timeout".to_string()));
    told.push(i);
    let mut i = begun();
    i.cache_checked(false);
    i.cache_created(Ok(()));
    i.release_fetched(Ok(()));
    i.unpacked_checked(false);
    told.push(i);
    let mut i = begun();
    i.cache_checked(true);
    i.dll_copied(e());
    told.push(i);
    let mut i = begun();
    i.cache_checked(true);
    i.dll_copied(Ok(()));
    i.dll_copied(Ok(()));
    i.marker_written(e());
    told.push(i);
    let messages: Vec<String> = told.into_iter().map(|i| i.failure.unwrap()).collect();
    assert_eq!(
        messages,
        [
            "prefix syswow64 missing at /p/drive_c/windows/syswow64 (prefix not initialized, or a 32-bit prefix?)",
            "creating DXVK cache dir /c: io",
            "GET x: timeout",
            "DXVK archive did not contain the expected /c/dxvk-3.0/x32/d3d9.dll",
            "copying /c/dxvk-3.0/x32/d3d9.dll -> /p/drive_c/windows/syswow64/d3d9.dll: io",
            "writing DXVK marker /p/.dxvk-version: io",
        ]
    );
}

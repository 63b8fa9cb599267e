use garlemald_client::torrent::endpoint::{
    fetch_magnet, not_a_magnet, MagnetFetchError, MagnetReply, TORRENT_ENDPOINT,
};
use garlemald_client::torrent::service::{
    complete_marker_path, EngineState, LiveStats, SeedingChange, TorrentService,
    TorrentServiceError, TorrentState, TorrentStats,
};
use garlemald_client::torrent::tasks::{
    has_persisted_state, zip_selection, AddOutcome, DownloadStep, DownloadTask, MagnetOutcome,
    Monitor, MonitorStep, ResumeStep, SessionOrigin,
};

#[test]
fn fetch_magnet_success_returns_the_uri() {
    let reply = MagnetReply::Decoded("magnet:?xt=urn:btih:abcdef0123456789".to_string());
    assert_eq!(
        fetch_magnet(reply),
        Ok("magnet:?xt=urn:btih:abcdef0123456789".to_string())
    );
}

#[test]
fn fetch_magnet_server_error_is_malformed() {
    match fetch_magnet(MagnetReply::Status(500)).unwrap_err() {
        MagnetFetchError::Malformed(msg) => assert!(msg.contains("500"), "got {msg:?}"),
        other => panic!("expected Malformed, got {other:?}"),
    }
}

#[test]
fn fetch_magnet_invalid_json_is_malformed() {
    let err = fetch_magnet(MagnetReply::InvalidJson("expected ident".to_string())).unwrap_err();
    assert!(matches!(err, MagnetFetchError::Malformed(_)), "got {err:?}");
    assert_eq!(
        err.message(),
        "patch distribution endpoint returned a malformed response: invalid JSON: expected ident"
    );
}

#[test]
fn fetch_magnet_missing_field_is_malformed() {
    let err = fetch_magnet(MagnetReply::InvalidJson("missing field `magnet`".to_string()));
    assert!(matches!(err, Err(MagnetFetchError::Malformed(_))), "got {err:?}");
}

#[test]
fn fetch_magnet_non_magnet_value_is_malformed() {
    let reply = MagnetReply::Decoded("https://example.com/not-a-magnet".to_string());
    match fetch_magnet(reply).unwrap_err() {
        MagnetFetchError::Malformed(msg) => {
            assert!(msg.contains("magnet:"), "got {msg:?}");
            assert_eq!(
                msg,
                "expected a magnet: URI, got \"https://example.com/not-a-magnet\""
            );
        }
        other => panic!("expected Malformed, got {other:?}"),
    }
    assert_eq!(
        not_a_magnet("\"x\""),
        MagnetFetchError::Malformed("expected a magnet: URI, got \"x\"".to_string())
    );
}

#[test]
fn an_unreachable_endpoint_is_a_transport_error() {
    let err = fetch_magnet(MagnetReply::Transport("dns".to_string())).unwrap_err();
    assert_eq!(err.message(), "could not reach the patch distribution endpoint: dns");
    assert!(TORRENT_ENDPOINT.starts_with("https://"));
}

#[test]
fn torrent_state_round_trips_through_u8() {
    for state in [
        TorrentState::Idle,
        TorrentState::Resolving,
        TorrentState::Downloading,
        TorrentState::Complete,
        TorrentState::Seeding,
        TorrentState::Stopped,
        TorrentState::Error,
    ] {
        assert_eq!(TorrentState::from_u8(state.as_u8()), state);
    }
    assert_eq!(TorrentState::from_u8(7), TorrentState::Idle);
}

#[test]
fn new_service_snapshot_is_idle_with_zeroed_counters() {
    let dir = tempfile::tempdir().unwrap();
    let service = TorrentService::new(dir.path().to_str().unwrap());
    let snapshot = service.snapshot();
    assert_eq!(snapshot.state, TorrentState::Idle);
    assert_eq!(snapshot.progress_bytes, 0);
    assert_eq!(snapshot.total_bytes, 0);
    assert_eq!(snapshot.uploaded_bytes, 0);
    assert_eq!(snapshot.peers, 0);
    assert_eq!(snapshot.download_bps, 0);
    assert_eq!(snapshot.upload_bps, 0);
    assert_eq!(snapshot.error, None);
}

#[test]
fn start_download_twice_returns_busy_the_second_time() {
    let dir = tempfile::tempdir().unwrap();
    let path = dir.path().to_str().unwrap().to_string();
    let mut service = TorrentService::new(&path);
    let first = service.start_download("not-a-valid-url".to_string(), path.clone());
    assert!(first.is_ok());

    let second = service.start_download("not-a-valid-url".to_string(), path);
    assert!(
        matches!(second, Err(TorrentServiceError::Busy)),
        "got {second:?}"
    );
    assert_eq!(
        TorrentServiceError::Busy.message(),
        "a torrent download is already in progress"
    );
}

#[test]
fn set_seeding_enabled_is_inert_without_an_active_session() {
    let dir = tempfile::tempdir().unwrap();
    let mut service = TorrentService::new(dir.path().to_str().unwrap());

    service.set_seeding_enabled(false);
    assert_eq!(service.snapshot().state, TorrentState::Idle);

    service.set_seeding_enabled(true);
    assert_eq!(service.snapshot().state, TorrentState::Idle);
}

fn started() -> (TorrentService, DownloadTask) {
    let mut service = TorrentService::new("/cache/torrent-session");
    let task = service.start_download("url".to_string(), "/docs".to_string()).unwrap();
    (service, task)
}

fn added() -> (TorrentService, DownloadTask) {
    let (mut service, mut task) = started();
    task.magnet_fetched(&mut service, MagnetOutcome::Fetched("magnet:?x".to_string()));
    assert_eq!(task.step, DownloadStep::OpenSession);
    task.session_opened(&mut service, Ok(SessionOrigin::Created));
    assert_eq!(task.step, DownloadStep::AddTorrent);
    assert_eq!(service.session_output_dir().as_deref(), Some("/docs"));
    (service, task)
}

fn stats(finished: bool) -> TorrentStats {
    TorrentStats {
        state: EngineState::Live,
        error: None,
        progress_bytes: 5,
        total_bytes: 10,
        uploaded_bytes: 2,
        finished,
        live: Some(LiveStats { peers: 0x1_0000_0003, download_bps: 7, upload_bps: 8 }),
    }
}

fn look(monitor: &mut Monitor, service: &mut TorrentService, seen: TorrentStats) {
    monitor.before_sleep(service);
    assert_eq!(monitor.step, MonitorStep::Sleep);
    monitor.slept(service);
    assert_eq!(monitor.step, MonitorStep::ReadStats);
    monitor.stats_read(service, seen);
}

#[test]
fn a_download_is_watched_and_then_seeded() {
    let (mut service, mut task) = added();
    assert!(task.narrowed);
    task.add_tried(&mut service, AddOutcome::Added);
    assert_eq!(task.step, DownloadStep::ClearMarker);
    assert_eq!(
        service.marker_path().as_deref(),
        Some("/docs/.garlemald-patches-complete")
    );
    assert_eq!(complete_marker_path("/d/"), "/d/.garlemald-patches-complete");
    task.marker_cleared(&mut service);
    assert_eq!(service.state(), TorrentState::Downloading);
    assert_eq!(task.step, DownloadStep::Watch);
    let mut monitor = task.monitor();
    look(&mut monitor, &mut service, stats(false));
    assert_eq!(monitor.step, MonitorStep::BeforeSleep);
    let snapshot = service.snapshot();
    assert_eq!((snapshot.progress_bytes, snapshot.total_bytes), (5, 10));
    assert_eq!((snapshot.peers, snapshot.download_bps, snapshot.upload_bps), (3, 7, 8));
    look(&mut monitor, &mut service, stats(true));
    assert_eq!(monitor.step, MonitorStep::WriteMarker);
    monitor.marker_written(&mut service);
    assert_eq!(service.state(), TorrentState::Seeding);
    // The decision is not made again.
    look(&mut monitor, &mut service, stats(true));
    assert_eq!(monitor.step, MonitorStep::BeforeSleep);
    assert_eq!(service.state(), TorrentState::Seeding);
    assert_eq!(
        service.payload_dir(Some("ffxiv_patches/ffxiv_patches.zip")).as_deref(),
        Some("/docs/ffxiv_patches")
    );
    assert_eq!(service.payload_dir(None), None);
    assert_eq!(service.payload_dir(Some("")), None);
    // Switching seeding off pauses the torrent, and on wakes it.
    assert_eq!(service.set_seeding_enabled(false), SeedingChange::Pause);
    monitor.before_sleep(&service);
    assert_eq!(monitor.step, MonitorStep::Finished);
    service.seeding_paused(Ok(()));
    assert_eq!(service.state(), TorrentState::Complete);
    let generation = service.generation + 1;
    assert_eq!(service.set_seeding_enabled(true), SeedingChange::Resume { generation });
    assert!(service.seeding_resumed(Ok(())));
    assert_eq!(service.state(), TorrentState::Seeding);
    assert!(!service.seeding_resumed(Err("x".to_string())));
    assert_eq!(service.snapshot().error.as_deref(), Some("could not resume seeding: x"));
    service.seeding_paused(Err("y".to_string()));
    assert_eq!(service.snapshot().error.as_deref(), Some("could not pause seeding: y"));
}

#[test]
fn a_complete_torrent_is_paused_when_seeding_is_off() {
    let (mut service, _) = added();
    service.set_seeding_enabled(false);
    let mut monitor = Monitor::begin(service.generation, false);
    look(&mut monitor, &mut service, stats(true));
    monitor.marker_written(&mut service);
    assert_eq!(monitor.step, MonitorStep::PauseCompleted);
    monitor.paused(&mut service, Ok(()));
    assert_eq!((monitor.step, service.state()), (MonitorStep::Finished, TorrentState::Complete));
    let mut monitor = Monitor::begin(service.generation, false);
    look(&mut monitor, &mut service, stats(true));
    monitor.marker_written(&mut service);
    monitor.paused(&mut service, Err("e".to_string()));
    assert_eq!(
        service.snapshot().error.as_deref(),
        Some("could not pause the completed torrent: e")
    );
}

#[test]
fn a_torrent_in_error_ends_the_watch() {
    let (mut service, _) = added();
    let mut monitor = Monitor::begin(service.generation, true);
    let mut seen = stats(false);
    seen.state = EngineState::Error;
    seen.live = None;
    look(&mut monitor, &mut service, seen);
    assert_eq!(monitor.step, MonitorStep::Finished);
    let snapshot = service.snapshot();
    assert_eq!(snapshot.error.as_deref(), Some("torrent entered an error state"));
    assert_eq!((snapshot.peers, snapshot.download_bps), (0, 0));
}

#[test]
fn failures_of_a_download_are_reported() {
    let cases: [(fn(&mut DownloadTask, &mut TorrentService), &str); 6] = [
        (
            |t, s| {
                let e = MagnetFetchError::Transport("x".to_string());
                t.magnet_fetched(s, MagnetOutcome::Refused(e))
            },
            "could not fetch the patch magnet link: could not reach the patch distribution endpoint: x",
        ),
        (
            |t, s| t.magnet_fetched(s, MagnetOutcome::TaskFailed("panic".to_string())),
            "magnet fetch task failed: panic",
        ),
        (
            |t, s| {
                t.magnet_fetched(s, MagnetOutcome::Fetched("magnet:".to_string()));
                t.session_opened(s, Err("port".to_string()))
            },
            "could not start the torrent session: port",
        ),
        (
            |t, s| {
                t.magnet_fetched(s, MagnetOutcome::Fetched("magnet:".to_string()));
                t.session_opened(s, Ok(SessionOrigin::Created));
                t.add_tried(s, AddOutcome::ListOnly)
            },
            "torrent session returned an unexpected list-only response",
        ),
        (
            |t, s| {
                t.magnet_fetched(s, MagnetOutcome::Fetched("magnet:".to_string()));
                t.session_opened(s, Ok(SessionOrigin::Created));
                t.add_tried(s, AddOutcome::Failed("no zip".to_string()));
                assert!(!t.narrowed);
                t.add_tried(s, AddOutcome::Failed("bad".to_string()))
            },
            "could not add the patch torrent: bad",
        ),
        (
            |t, s| {
                t.magnet_fetched(s, MagnetOutcome::Fetched("magnet:".to_string()));
                t.session_opened(s, Ok(SessionOrigin::Created));
                t.add_tried(s, AddOutcome::AlreadyManaged);
                t.stale_dropped(s, Err("locked".to_string()))
            },
            "could not drop the stale managed torrent: locked",
        ),
    ];
    for (run, message) in cases {
        let (mut service, mut task) = started();
        run(&mut task, &mut service);
        assert_eq!(task.step, DownloadStep::Finished);
        assert_eq!(service.state(), TorrentState::Error);
        assert_eq!(service.snapshot().error.as_deref(), Some(message));
    }
}

#[test]
fn adding_is_given_up_after_several_attempts() {
    let (mut service, mut task) = added();
    for attempt in 1..=4u32 {
        assert_eq!(task.step, DownloadStep::AddTorrent);
        task.add_tried(&mut service, AddOutcome::AlreadyManaged);
        task.stale_dropped(&mut service, Ok(()));
        assert_eq!(task.attempts, attempt);
    }
    assert_eq!(task.step, DownloadStep::Finished);
    assert_eq!(
        service.snapshot().error.as_deref(),
        Some("could not add the patch torrent after several attempts")
    );
}

#[test]
fn a_stop_is_not_undone_by_the_task_that_it_stops() {
    let (mut service, mut task) = started();
    assert!(!service.stop());
    task.magnet_fetched(&mut service, MagnetOutcome::TaskFailed("late".to_string()));
    assert_eq!(task.step, DownloadStep::Finished);
    assert_eq!(service.state(), TorrentState::Stopped);
    assert_eq!(service.snapshot().error, None);

    let (mut service, mut task) = added();
    service.stop();
    task.add_tried(&mut service, AddOutcome::Added);
    assert_eq!(task.step, DownloadStep::PauseAdded);
    task.added_paused();
    assert_eq!(service.state(), TorrentState::Stopped);
    assert!(service.stop());
    assert!(service.start_download("u".to_string(), "/d".to_string()).is_ok());
}

#[test]
fn a_torrent_of_an_earlier_run_is_taken_up() {
    let mut service = TorrentService::new("/p");
    let mut task = service.ensure_seeding_if_complete("/docs".to_string()).unwrap();
    assert!(!has_persisted_state(None));
    assert!(!has_persisted_state(Some(&vec![".lock".to_string()])));
    let names = vec![".lock".to_string(), "session.json".to_string()];
    task.state_checked(Some(&names));
    task.session_opened(&mut service, Ok(SessionOrigin::Created));
    task.torrent_found(&mut service, true);
    assert_eq!(service.state(), TorrentState::Downloading);
    task.check_polled(&service, EngineState::Initializing);
    assert_eq!(task.step, ResumeStep::AwaitCheck);
    task.check_polled(&service, EngineState::Paused);
    task.judged(true, true, true);
    assert_eq!(task.step, ResumeStep::Wake);
    task.woken();
    task.recheck_polled(&service, EngineState::Live);
    let files = vec!["f/a.ZIP".to_string(), "f/a.xml".to_string(), "f/b.zip".to_string()];
    assert_eq!(zip_selection(&files), [0, 2]);
    task.files_listed(&service, Some(&files));
    assert_eq!((task.step, task.selection.clone()), (ResumeStep::Narrow, vec![0, 2]));
    task.narrowed(&service);
    assert_eq!(task.step, ResumeStep::Watch);
    assert!(!task.monitor().past_completion);
    assert!(service.ensure_seeding_if_complete("/docs".to_string()).is_none());
}

#[test]
fn a_complete_payload_is_not_downloaded_again() {
    let mut service = TorrentService::new("/p");
    let mut task = service.ensure_seeding_if_complete("/docs".to_string()).unwrap();
    task.state_checked(Some(&vec!["s".to_string()]));
    task.session_opened(&mut service, Ok(SessionOrigin::Created));
    task.torrent_found(&mut service, true);
    task.check_polled(&service, EngineState::Live);
    task.judged(false, true, false);
    assert_eq!(task.step, ResumeStep::HoldPaused);
    task.held(&mut service);
    assert_eq!((task.step, service.state()), (ResumeStep::Finished, TorrentState::Complete));
}

#[test]
fn a_resume_ends_where_there_is_nothing_to_take_up() {
    let mut service = TorrentService::new("/p");
    let mut task = service.ensure_seeding_if_complete("/docs".to_string()).unwrap();
    task.state_checked(None);
    assert_eq!(task.step, ResumeStep::Finished);
    let mut task = service.ensure_seeding_if_complete("/docs".to_string()).unwrap();
    task.state_checked(Some(&vec!["s".to_string()]));
    task.session_opened(&mut service, Err("io".to_string()));
    assert_eq!(
        service.snapshot().error.as_deref(),
        Some("could not restore the torrent session: io")
    );
    let mut task = service.ensure_seeding_if_complete("/docs".to_string()).unwrap();
    task.state_checked(Some(&vec!["s".to_string()]));
    task.session_opened(&mut service, Ok(SessionOrigin::Created));
    task.torrent_found(&mut service, false);
    assert_eq!(task.step, ResumeStep::Finished);
    // A stop ends a resume that waits.
    let mut service = TorrentService::new("/p");
    let mut task = service.ensure_seeding_if_complete("/docs".to_string()).unwrap();
    task.state_checked(Some(&vec!["s".to_string()]));
    task.session_opened(&mut service, Ok(SessionOrigin::Created));
    task.torrent_found(&mut service, true);
    service.stop();
    task.check_polled(&service, EngineState::Initializing);
    assert_eq!(task.step, ResumeStep::Finished);
}

use garlemald_client::app::patcher_window::{
    button_row, patch_share, patch_status, progress_share, progress_status,
    total_transferred_bytes, ButtonRow,
};
use garlemald_client::patcher::extract::{
    find_patch_payload, has_every_manifest_patch, join_names, plan_extraction, ExtractError,
    ExtractStep, Extraction, PatchPayload, Removal, StagedEntry,
};
use garlemald_client::patcher::manifest::{leaf_name, total_bytes, PatchEntry};
use garlemald_client::patcher::process::{
    check_game_version, summarize_names, write_version_files, PatchPlan, PlanError,
};
use garlemald_client::patcher::progress::TransferProgress;
use garlemald_client::patcher::run::{pair_manifest_with_paths, PatcherRun, RunStep};
use garlemald_client::patcher::search::PayloadSearch;
use garlemald_client::patcher::walk::{DirItem, EntryKind, PatchSourceWalk, StorageWalk};
use garlemald_client::patcher::worker::{PatchSource, PatcherShared, Phase};
use garlemald_client::version::FFXIV_GAME_VERSION;
use std::collections::BTreeMap;
use std::io::{Cursor, Read, Write};

/// Later patches stand first here, so that the order of the manifest is not that of the names.
fn manifest() -> Vec<PatchEntry> {
    [("boot/D2012.patch", "three"), ("boot/D2010.patch", "one"), ("game/x/D2011.patch", "tw")]
        .iter()
        .map(|(path, contents)| PatchEntry {
            path: path.to_string(),
            size: contents.len() as u64,
            crc32: crc32fast::hash(contents.as_bytes()),
        })
        .collect()
}

fn contents_of(path: &str) -> &'static [u8] {
    match leaf_name(path) {
        "D2012.patch" => b"three",
        "D2010.patch" => b"one",
        "D2011.patch" => b"tw",
        other => panic!("no patch {other}"),
    }
}

fn item(path: &str, kind: EntryKind) -> DirItem {
    DirItem { path: path.to_string(), kind }
}

fn files(paths: &[&str]) -> Vec<DirItem> {
    paths.iter().map(|p| item(p, EntryKind::File)).collect()
}

const LOOSE: [&str; 3] = ["/s/D2010.patch", "/s/a/D2011.patch", "/s/D2012.patch"];

type Tree = BTreeMap<&'static str, Vec<(&'static str, EntryKind)>>;

fn listing(tree: &Tree, dir: &str) -> Vec<DirItem> {
    match tree.get(dir) {
        Some(items) => items.iter().map(|(p, k)| item(p, *k)).collect(),
        None => Vec::new(),
    }
}

fn storage_files(tree: &Tree, root: &str) -> Vec<String> {
    let mut walk = StorageWalk::start(root);
    while let Some(dir) = walk.wanted() {
        walk.supply(listing(tree, &dir));
    }
    walk.into_files().into_iter().map(|i| i.path).collect()
}

#[test]
fn the_storage_walk_goes_in_order_and_not_too_deep() {
    let dir = EntryKind::Directory;
    let file = EntryKind::File;
    let tree: Tree = BTreeMap::from([
        ("/s", vec![("/s/1", dir), ("/s/f", file), ("/s/.hid", dir), ("/s/gone", dir)]),
        ("/s/.hid", vec![("/s/.hid/x", file)]),
        ("/s/1", vec![("/s/1/a", file), ("/s/1/2", dir), ("/s/1/z", EntryKind::Other)]),
        ("/s/1/2", vec![("/s/1/2/3", dir)]),
        ("/s/1/2/3", vec![("/s/1/2/3/4", dir)]),
        ("/s/1/2/3/4", vec![("/s/1/2/3/4/deep", file), ("/s/1/2/3/4/5", dir)]),
        ("/s/1/2/3/4/5", vec![("/s/1/2/3/4/5/deeper", file)]),
    ]);
    assert_eq!(
        storage_files(&tree, "/s"),
        ["/s/1/a", "/s/1/2/3/4/deep", "/s/1/z", "/s/f"]
    );
    assert!(storage_files(&BTreeMap::new(), "/none").is_empty());
}

#[test]
fn a_listing_leads_to_the_next_directory() {
    let mut walk = StorageWalk::start("/s");
    walk.supply(vec![
        item("/s/f", EntryKind::File),
        item("/s/.hid", EntryKind::Directory),
        item("/s/1", EntryKind::Directory),
        item("/s/2", EntryKind::Directory),
    ]);
    assert_eq!(walk.wanted().as_deref(), Some("/s/1"));
    walk.supply(vec![item("/s/1/a", EntryKind::File), item("/s/1/3", EntryKind::Directory)]);
    assert_eq!(walk.wanted().as_deref(), Some("/s/1/3"));
    walk.supply(Vec::new());
    assert_eq!(walk.wanted().as_deref(), Some("/s/2"));
    walk.supply(vec![item("/s/2/b", EntryKind::Other)]);
    assert_eq!(walk.wanted(), None);
    let found: Vec<String> = walk.into_files().into_iter().map(|i| i.path).collect();
    assert_eq!(found, ["/s/f", "/s/1/a", "/s/2/b"]);
}

#[test]
fn the_source_walk_reads_every_directory() {
    let dir = EntryKind::Directory;
    let file = EntryKind::File;
    let tree: Tree = BTreeMap::from([
        ("/s", vec![("/s/f", file), ("/s/1", dir), ("/s/.2", dir), ("/s/l", EntryKind::Other)]),
        ("/s/1", vec![("/s/1/a", file)]),
        ("/s/.2", vec![("/s/.2/b", file), ("/s/.2/3", dir)]),
        ("/s/.2/3", vec![("/s/.2/3/c", file)]),
    ]);
    let mut walk = PatchSourceWalk::start("/s");
    let mut order = Vec::new();
    while let Some(dir) = walk.wanted() {
        walk.supply(listing(&tree, &dir));
        order.push(dir);
    }
    assert_eq!(order, ["/s", "/s/.2", "/s/.2/3", "/s/1"]);
    let found: Vec<String> = walk.into_files().into_iter().map(|i| i.path).collect();
    assert_eq!(found, ["/s/f", "/s/.2/b", "/s/.2/3/c", "/s/1/a"]);
}

#[test]
fn find_patch_payload_prefers_a_dir_with_every_loose_patch() {
    let mut all = files(&LOOSE);
    all.push(item("/s/ffxiv_patches.zip", EntryKind::File));
    assert_eq!(
        find_patch_payload(&manifest(), "/s", true, &all),
        Some(PatchPayload::PatchDir("/s".to_string()))
    );
    assert!(has_every_manifest_patch(&manifest(), &all));
    // The extension is taken as it is written.
    let other_case = files(&["/s/D2010.PATCH", "/s/D2011.patch", "/s/D2012.patch"]);
    assert!(!has_every_manifest_patch(&manifest(), &other_case));
}

#[test]
fn find_patch_payload_finds_the_named_archive() {
    let all = files(&["/s/other.zip", "/s/d/FFXIV_Patches.ZIP", "/s/ffxiv_patches.zip"]);
    assert_eq!(
        find_patch_payload(&manifest(), "/s", true, &all),
        Some(PatchPayload::Zip("/s/d/FFXIV_Patches.ZIP".to_string()))
    );
}

#[test]
fn find_patch_payload_falls_back_to_a_lone_differently_named_zip() {
    let all = files(&["/s/readme.txt", "/s/patches-mirror.zip"]);
    assert_eq!(
        find_patch_payload(&manifest(), "/s", true, &all),
        Some(PatchPayload::Zip("/s/patches-mirror.zip".to_string()))
    );
    let two = files(&["/s/a.zip", "/s/b.zip"]);
    assert_eq!(find_patch_payload(&manifest(), "/s", true, &two), None);
}

#[test]
fn find_patch_payload_is_none_for_an_empty_dir() {
    assert_eq!(find_patch_payload(&manifest(), "/s", true, &Vec::new()), None);
    assert_eq!(find_patch_payload(&manifest(), "/s", false, &files(&LOOSE)), None);
}

#[test]
fn a_directory_with_every_patch_gives_a_plan() {
    let dir = EntryKind::Directory;
    let file = EntryKind::File;
    let tree: Tree = BTreeMap::from([
        ("/s", vec![("/s/a", dir), ("/s/D2010.patch", file), ("/s/.h", dir)]),
        ("/s/a", vec![("/s/a/D2011.patch", file), ("/s/a/b", dir)]),
        ("/s/a/b", vec![("/s/a/b/D2012.patch", file)]),
        ("/s/.h", vec![("/s/.h/x", file)]),
    ]);
    let mut search = StorageWalk::start("/s");
    while let Some(dir) = search.wanted() {
        search.supply(listing(&tree, &dir));
    }
    let payload = find_patch_payload(&manifest(), "/s", true, &search.into_files());
    assert_eq!(payload, Some(PatchPayload::PatchDir("/s".to_string())));
    let mut scan = PatchSourceWalk::start("/s");
    while let Some(dir) = scan.wanted() {
        scan.supply(listing(&tree, &dir));
    }
    assert!(PatchPlan::from_local_source(&manifest(), "/s", &scan.into_files()).is_ok());
}

#[test]
fn plan_sorts_by_leaf_name() {
    let plan = PatchPlan::from_local_source(&manifest(), "/s", &files(&LOOSE)).unwrap();
    let leaves: Vec<_> = plan
        .patches_in_order
        .iter()
        .map(|p| leaf_name(p).to_string())
        .collect();
    let mut sorted = leaves.clone();
    sorted.sort();
    assert_eq!(leaves, sorted);
    assert_eq!(leaves.len(), manifest().len());
    assert_eq!(
        plan.patches_in_order,
        ["/s/D2010.patch", "/s/a/D2011.patch", "/s/D2012.patch"]
    );
}

#[test]
fn local_plan_finds_patches_in_nested_dirs() {
    let all = files(&[
        "/s/some/deeply/nested/dir/D2012.patch",
        "/s/some/deeply/nested/dir/D2010.patch",
        "/s/some/deeply/nested/dir/D2011.patch",
        "/s/later/D2010.patch",
    ]);
    let plan = PatchPlan::from_local_source(&manifest(), "/s", &all).unwrap();
    assert_eq!(plan.patches_in_order.len(), manifest().len());
    // Of two files with the same name the first is taken.
    assert_eq!(plan.patches_in_order[0], "/s/some/deeply/nested/dir/D2010.patch");
}

#[test]
fn local_plan_errors_when_patches_missing() {
    let err = match PatchPlan::from_local_source(&manifest(), "/s", &Vec::new()) {
        Ok(_) => panic!("expected error for empty directory"),
        Err(e) => e,
    };
    let msg = err.message();
    assert!(msg.contains("missing"), "got {msg}");
    assert_eq!(
        msg,
        "3 patch file(s) missing from /s: D2012.patch, D2010.patch, D2011.patch"
    );
    assert_eq!(
        PlanError::NotADirectory("/f".to_string()).message(),
        "local patch source is not a directory: /f"
    );
    assert_eq!(PlanError::Reading("/d".to_string()).message(), "reading /d");
    assert_eq!(PlanError::Iterating("/d".to_string()).message(), "iterating /d");
    assert_eq!(PlanError::Stat("/d/x".to_string()).message(), "stat /d/x");
}

#[test]
fn many_names_are_cut_short() {
    let names: Vec<String> = ["a", "b", "c", "d", "e", "f"].iter().map(|s| s.to_string()).collect();
    assert_eq!(summarize_names(&names), "a, b, c, d, … (2 more)");
    assert_eq!(join_names(&names), "a, b, c, d, … (2 more)");
    let four = names[..4].to_vec();
    assert_eq!(summarize_names(&four), "a, b, c, d");
    assert_eq!(join_names(&four), "a, b, c, d");
}

#[test]
fn missing_ver_file_is_out_of_date() {
    assert!(!check_game_version(None));
}

#[test]
fn matching_ver_file_is_up_to_date() {
    assert!(check_game_version(Some(FFXIV_GAME_VERSION)));
    assert!(check_game_version(Some(" 2012.09.19.0001\r\n")));
    assert!(!check_game_version(Some("2012.09.19.0000")));
}

#[test]
fn write_version_files_creates_both() {
    let written = write_version_files("/game");
    let seen: Vec<(&str, &str)> =
        written.iter().map(|f| (f.path.as_str(), f.contents.as_str())).collect();
    assert_eq!(
        seen,
        [("/game/boot.ver", "2010.09.18.0000"), ("/game/game.ver", "2012.09.19.0001")]
    );
    assert!(check_game_version(Some(&written[1].contents)));
}

#[test]
fn cancel_before_download_is_sticky() {
    let mut d = TransferProgress::new();
    d.cancel();
    assert!(d.cancel_flag);
    assert!(d.is_cancelled());
    assert_eq!(d.bytes(), 0);
    assert_eq!(TransferProgress::default().bytes(), 0);
}

#[test]
fn phase_survives_a_u8_round_trip() {
    for phase in [
        Phase::Starting,
        Phase::Patching,
        Phase::Done,
        Phase::Error,
        Phase::Cancelled,
        Phase::Validating,
        Phase::Extracting,
    ] {
        assert_eq!(Phase::from_u8(phase.as_u8()), phase);
    }
    assert_eq!(Phase::from_u8(1), Phase::Starting);
}

#[test]
fn fresh_shared_is_in_starting_phase() {
    let shared = PatcherShared::new(&manifest());
    assert_eq!(shared.phase(), Phase::Starting);
    assert!(!shared.is_terminal());
    assert!(shared.error().is_none());
    assert_eq!(shared.total_source_bytes, 10);
    assert_eq!(total_bytes(&manifest()), 10);
    assert_eq!(shared.total_patches, 3);
}

#[test]
fn cancel_request_reaches_the_progress_flag() {
    let mut shared = PatcherShared::new(&manifest());
    assert!(!shared.is_cancel_requested());
    shared.request_cancel();
    assert!(shared.is_cancel_requested());
}

#[test]
fn a_cancel_request_is_never_taken_back() {
    let mut d = TransferProgress::new();
    d.cancel();
    d.cancel();
    assert!(d.is_cancelled());
    let mut shared = PatcherShared::new(&manifest());
    shared.request_cancel();
    shared.begin_file(1);
    shared.count_bytes(3);
    shared.complete_file(3);
    shared.set_phase(Phase::Patching);
    shared.push_warning("odd");
    shared.request_cancel();
    shared.set_error("boom");
    assert!(shared.is_cancel_requested());
    assert_eq!(shared.file_idx, 1);
    assert_eq!(shared.transfer.bytes(), 3);
    assert_eq!(shared.previous_completed_bytes, 3);
    assert_eq!(shared.warnings(), ["odd"]);
    let mut fresh = PatcherShared::new(&manifest());
    fresh.request_cancel();
    let source = PatchSource::Local { source_dir: "/s".to_string() };
    PatcherRun::start(source, &mut fresh);
    assert_eq!(fresh.phase(), Phase::Validating);
    assert!(fresh.is_cancel_requested());
}

#[test]
fn the_first_directory_with_patches_is_taken() {
    let names = || ["/a", "/b", "/c"].map(String::from).to_vec();
    let mut search = PayloadSearch::begin(names());
    assert_eq!(search.wanted().as_deref(), Some("/a"));
    search.supply(None);
    assert_eq!(search.wanted().as_deref(), Some("/b"));
    search.supply(Some(PatchPayload::PatchDir("/b/patches".to_string())));
    assert_eq!(search.wanted(), None);
    assert_eq!(search.found, Some(PatchPayload::PatchDir("/b/patches".to_string())));
    assert_eq!(search.candidates, names());

    let mut barren = PayloadSearch::begin(names());
    let mut scanned = Vec::new();
    while let Some(dir) = barren.wanted() {
        scanned.push(dir);
        barren.supply(None);
    }
    assert_eq!(scanned, names());
    assert_eq!(barren.found, None);
    assert_eq!(PayloadSearch::begin(Vec::new()).wanted(), None);
}

#[test]
fn set_error_records_message_and_is_terminal() {
    let mut shared = PatcherShared::new(&manifest());
    shared.set_error("boom");
    assert_eq!(shared.phase(), Phase::Error);
    assert_eq!(shared.error().as_deref(), Some("boom"));
    assert!(shared.is_terminal());
}

#[test]
fn warnings_keep_their_order() {
    let mut shared = PatcherShared::new(&manifest());
    shared.push_warning("first");
    shared.push_warning("second");
    assert_eq!(shared.warnings(), vec!["first", "second"]);
}

/// An archive with every manifest entry at its path, except those in `skip`, and another file.
fn fixture_zip(skip: &[usize]) -> Vec<u8> {
    let mut zip = zip::ZipWriter::new(Cursor::new(Vec::new()));
    let options = zip::write::SimpleFileOptions::default();
    for (i, entry) in manifest().iter().enumerate() {
        if skip.contains(&i) {
            continue;
        }
        zip.start_file(entry.path.as_str(), options).unwrap();
        zip.write_all(contents_of(&entry.path)).unwrap();
    }
    zip.start_file("readme.txt", options).unwrap();
    zip.write_all(b"not a patch").unwrap();
    zip.finish().unwrap().into_inner()
}

/// Runs an extraction from an archive in memory; the staged files by path.
fn extract(
    bytes: Vec<u8>,
    shared: &mut PatcherShared,
) -> (Option<ExtractError>, BTreeMap<String, Vec<u8>>) {
    let mut archive = zip::ZipArchive::new(Cursor::new(bytes)).unwrap();
    let names: Vec<String> = archive.file_names().map(String::from).collect();
    let mut staged: BTreeMap<String, Vec<u8>> = BTreeMap::new();
    let mut pending: Vec<u8> = Vec::new();
    let mut run = Extraction::begin("/dl/ffxiv_patches.zip", true, "/staging");
    loop {
        match run.step {
            ExtractStep::ClearStaging => run.cleared(Removal::NotFound),
            ExtractStep::CreateStaging => run.created(Ok(())),
            ExtractStep::OpenArchive => run.opened(Ok(())),
            ExtractStep::ReadArchive => run.members_read(&manifest(), Ok(names.clone())),
            ExtractStep::NextFile => run.next_file(shared),
            ExtractStep::OpenEntry => {
                pending.clear();
                let mut entry = archive.by_index(run.zip_index()).unwrap();
                entry.read_to_end(&mut pending).unwrap();
                run.entry_opened(Ok(()));
            }
            ExtractStep::CreateFile => {
                staged.insert(run.target(), Vec::new());
                run.file_created(Ok(()));
            }
            ExtractStep::NextChunk => run.next_chunk(shared),
            ExtractStep::ReadChunk => {
                let length = pending.len().min(2) as u64;
                run.chunk_read(shared, Ok(length));
            }
            ExtractStep::WriteChunk => {
                let length = pending.len().min(2);
                let chunk: Vec<u8> = pending.drain(..length).collect();
                staged.get_mut(&run.target()).unwrap().extend(chunk);
                run.chunk_written(shared, length as u64, Ok(()));
            }
            ExtractStep::Discard => {
                staged.remove(&run.target());
                run.discarded();
            }
            ExtractStep::Finished => return (run.failure, staged),
        }
    }
}

#[test]
fn full_extraction_stages_every_manifest_leaf() {
    let mut shared = PatcherShared::new(&manifest());
    let (failure, staged) = extract(fixture_zip(&[]), &mut shared);
    assert_eq!(failure, None);
    for entry in manifest() {
        let path = format!("/staging/{}", leaf_name(&entry.path));
        assert_eq!(
            staged.get(&path).map(|v| v.as_slice()),
            Some(contents_of(&entry.path)),
            "missing {path} after extraction"
        );
    }
    assert_eq!(staged.len(), 3);
    assert_eq!(shared.previous_completed_bytes, 10);
    assert_eq!(shared.file_idx, 2);
    assert_eq!(shared.transfer.bytes(), 2);
}

#[test]
fn a_zip_missing_leaves_reports_the_count() {
    let mut shared = PatcherShared::new(&manifest());
    let (failure, staged) = extract(fixture_zip(&[0, 1, 2]), &mut shared);
    match failure.unwrap() {
        ExtractError::MissingPatches { missing_count, summary } => {
            assert_eq!(missing_count, 3);
            assert_eq!(summary, "D2012.patch, D2010.patch, D2011.patch");
        }
        other => panic!("expected MissingPatches, got {other:?}"),
    }
    assert!(staged.is_empty());
}

#[test]
fn a_preset_cancel_flag_stops_extraction() {
    let mut shared = PatcherShared::new(&manifest());
    shared.request_cancel();
    let (failure, staged) = extract(fixture_zip(&[]), &mut shared);
    assert_eq!(failure, Some(ExtractError::Cancelled));
    assert!(staged.is_empty());
}

#[test]
fn a_cancel_within_a_file_discards_it() {
    let mut shared = PatcherShared::new(&manifest());
    let mut run = Extraction::begin("z", true, "/st");
    run.cleared(Removal::Removed);
    run.created(Ok(()));
    run.opened(Ok(()));
    let names: Vec<String> = manifest().into_iter().map(|e| e.path).collect();
    run.members_read(&manifest(), Ok(names));
    run.next_file(&mut shared);
    run.entry_opened(Ok(()));
    run.file_created(Ok(()));
    shared.request_cancel();
    run.next_chunk(&shared);
    assert_eq!((run.step, run.target()), (ExtractStep::Discard, "/st/D2012.patch".to_string()));
    run.discarded();
    assert_eq!(run.failure, Some(ExtractError::Cancelled));
    assert_eq!(ExtractError::Cancelled.message(), "extraction was cancelled");
}

#[test]
fn failures_of_an_extraction_are_told() {
    let e = || "io".to_string();
    let begun = || Extraction::begin("z", true, "/st");
    let mut shared = PatcherShared::new(&manifest());
    let names: Vec<String> = manifest().into_iter().map(|e| e.path).collect();
    let mut told = Vec::new();
    told.push(Extraction::begin("/z", false, "/st"));
    let mut run = begun();
    run.cleared(Removal::Failed(e()));
    told.push(run);
    let mut run = begun();
    run.cleared(Removal::NotFound);
    run.created(Err(e()));
    told.push(run);
    let mut run = begun();
    run.cleared(Removal::NotFound);
    run.created(Ok(()));
    run.opened(Err(e()));
    told.push(run);
    let opened = || {
        let mut run = begun();
        run.cleared(Removal::NotFound);
        run.created(Ok(()));
        run.opened(Ok(()));
        run
    };
    let mut run = opened();
    run.members_read(&manifest(), Err("bad magic".to_string()));
    told.push(run);
    let mut run = opened();
    run.members_read(&manifest(), Ok(names.clone()));
    run.next_file(&mut shared);
    run.entry_opened(Err("gone".to_string()));
    told.push(run);
    let mut run = opened();
    run.members_read(&manifest(), Ok(names.clone()));
    run.next_file(&mut shared);
    run.entry_opened(Ok(()));
    run.file_created(Err(e()));
    told.push(run);
    let reading = |shared: &mut PatcherShared| {
        let mut run = opened();
        run.members_read(&manifest(), Ok(names.clone()));
        run.next_file(shared);
        run.entry_opened(Ok(()));
        run.file_created(Ok(()));
        run.next_chunk(shared);
        run
    };
    let mut run = reading(&mut shared);
    run.chunk_read(&mut shared, Err(e()));
    told.push(run);
    let mut run = reading(&mut shared);
    run.chunk_read(&mut shared, Ok(4));
    run.chunk_written(&mut shared, 4, Err(e()));
    told.push(run);
    let messages: Vec<String> = told.iter().map(|r| r.failure.as_ref().unwrap().message()).collect();
    assert_eq!(
        messages,
        [
            "patch archive is not a file: /z",
            "i/o error while clearing the staging directory: io",
            "i/o error while creating the staging directory: io",
            "i/o error while opening the patch archive: io",
            "could not read the patch archive: bad magic",
            "could not read the patch archive: gone",
            "i/o error while creating a staged patch file: io",
            "i/o error while reading a patch entry from the archive: io",
            "i/o error while writing a staged patch file: io",
        ]
    );
}

#[test]
fn archive_members_are_found_by_their_file_names() {
    let names: Vec<String> = ["x/D2010.patch", "D2012.patch", "y/D2010.patch", "a/D2011.patch"]
        .iter()
        .map(|s| s.to_string())
        .collect();
    let staged = plan_extraction(&manifest(), &names).unwrap();
    let entry = |zip_index: usize, leaf: &str, size: u64| StagedEntry {
        zip_index,
        leaf: leaf.to_string(),
        size,
    };
    assert_eq!(
        staged,
        [entry(1, "D2012.patch", 5), entry(0, "D2010.patch", 3), entry(3, "D2011.patch", 2)]
    );
    let err = plan_extraction(&manifest(), &names[1..3].to_vec()).unwrap_err();
    assert_eq!(err.message(), "1 patch file(s) not found in the archive: D2011.patch");
}

#[test]
fn each_entry_is_checked_against_its_file() {
    let paths = vec!["/s/D2010.patch".to_string(), "/s/D2012.patch".to_string()];
    let checks = pair_manifest_with_paths(&manifest(), &paths);
    let seen: Vec<(&str, u64)> = checks.iter().map(|c| (c.path.as_str(), c.size)).collect();
    assert_eq!(seen, [("/s/D2012.patch", 5), ("/s/D2010.patch", 3)]);
    assert_eq!(checks[0].crc32, crc32fast::hash(b"three"));
}

/// Drives a run over files with the given contents, and applies every patch with one message.
fn drive(
    run: &mut PatcherRun,
    shared: &mut PatcherShared,
    contents: fn(&str) -> Vec<u8>,
) -> Vec<String> {
    let mut applied = Vec::new();
    let mut offset = 0usize;
    loop {
        match run.step {
            RunStep::ResolveStaging => run.staging_resolved(shared, Ok("/st".to_string())),
            RunStep::Extract => run.extracted(shared, None),
            RunStep::ScanSource => run.scanned(shared, &manifest(), Ok(files(&LOOSE))),
            RunStep::NextCheck => run.next_check(shared),
            RunStep::OpenPatch => {
                offset = 0;
                let size = contents(&run.check_path()).len() as u64;
                run.patch_opened(shared, Ok(size));
            }
            RunStep::NextChunk => run.next_chunk(shared),
            RunStep::ReadChunk => {
                let all = contents(&run.check_path());
                let end = (offset + 2).min(all.len());
                let chunk = all[offset..end].to_vec();
                offset = end;
                run.chunk_read(shared, Ok(chunk));
            }
            RunStep::NextPatch => run.next_patch(shared),
            RunStep::ApplyPatch => {
                let path = run.patch_path();
                run.patch_applied(shared, Ok(vec![format!("note {path}")]));
                applied.push(path);
            }
            RunStep::WriteVersions => run.versions_written(shared, Ok(())),
            RunStep::RemoveStaging => run.staging_removed(shared, Removal::Removed),
            RunStep::Finished => return applied,
        }
    }
}

fn local() -> PatchSource {
    PatchSource::Local { source_dir: "/s".to_string() }
}

#[test]
fn a_run_checks_every_file_and_applies_the_oldest_first() {
    let mut shared = PatcherShared::new(&manifest());
    let mut run = PatcherRun::start(local(), &mut shared);
    assert_eq!(shared.phase(), Phase::Validating);
    let applied = drive(&mut run, &mut shared, |p| contents_of(p).to_vec());
    assert_eq!(applied, ["/s/D2010.patch", "/s/a/D2011.patch", "/s/D2012.patch"]);
    assert_eq!(shared.phase(), Phase::Done);
    assert_eq!(shared.previous_completed_bytes, 10);
    assert_eq!(shared.patch_idx, 2);
    assert_eq!(shared.warnings()[0], "note /s/D2010.patch");
    assert_eq!(shared.warnings().len(), 3);
}

#[test]
fn an_archive_is_unpacked_first_and_its_staging_removed() {
    let mut shared = PatcherShared::new(&manifest());
    let source = PatchSource::LocalZip { zip_path: "/z".to_string() };
    let mut run = PatcherRun::start(source, &mut shared);
    assert_eq!((shared.phase(), run.step), (Phase::Extracting, RunStep::ResolveStaging));
    run.staging_resolved(&mut shared, Ok("/st".to_string()));
    assert_eq!((run.zip_path.as_deref(), run.step), (Some("/z"), RunStep::Extract));
    shared.previous_completed_bytes = 10;
    run.extracted(&mut shared, None);
    assert_eq!((run.source_dir.as_str(), shared.previous_completed_bytes), ("/st", 0));
    drive(&mut run, &mut shared, |p| contents_of(p).to_vec());
    assert_eq!(shared.phase(), Phase::Done);

    for (failure, phase, error) in [
        (ExtractError::Cancelled, Phase::Cancelled, None),
        (
            ExtractError::NotAZip("/z".to_string()),
            Phase::Error,
            Some("Could not unpack the patch archive: patch archive is not a file: /z"),
        ),
    ] {
        let mut shared = PatcherShared::new(&manifest());
        let source = PatchSource::LocalZip { zip_path: "/z".to_string() };
        let mut run = PatcherRun::start(source, &mut shared);
        run.staging_resolved(&mut shared, Ok("/st".to_string()));
        run.extracted(&mut shared, Some(failure));
        assert_eq!(run.step, RunStep::RemoveStaging);
        run.staging_removed(&mut shared, Removal::Failed("busy".to_string()));
        assert_eq!((run.step, shared.phase()), (RunStep::Finished, phase));
        assert_eq!(shared.error().as_deref(), error);
        assert_eq!(
            shared.warnings(),
            ["Could not remove the patch staging directory: busy"]
        );
    }

    let mut shared = PatcherShared::new(&manifest());
    let source = PatchSource::LocalZip { zip_path: "/z".to_string() };
    let mut run = PatcherRun::start(source, &mut shared);
    run.staging_resolved(&mut shared, Err("no home".to_string()));
    assert_eq!(run.step, RunStep::Finished);
    assert_eq!(
        shared.error().as_deref(),
        Some("Could not resolve the patch staging directory: no home")
    );
}

#[test]
fn damaged_files_are_not_applied() {
    let mut shared = PatcherShared::new(&manifest());
    let mut run = PatcherRun::start(local(), &mut shared);
    let applied = drive(&mut run, &mut shared, |p| {
        if p.ends_with("D2010.patch") { b"0ne".to_vec() } else { contents_of(p).to_vec() }
    });
    assert!(applied.is_empty());
    assert_eq!(
        shared.error().as_deref(),
        Some("Local patch /s/D2010.patch failed CRC32 check")
    );

    let mut shared = PatcherShared::new(&manifest());
    let mut run = PatcherRun::start(local(), &mut shared);
    let applied = drive(&mut run, &mut shared, |p| {
        if p.ends_with("D2012.patch") { b"threE!".to_vec() } else { contents_of(p).to_vec() }
    });
    assert!(applied.is_empty());
    assert_eq!(
        shared.error().as_deref(),
        Some("Local patch /s/D2012.patch has wrong size (6 bytes, expected 5)")
    );
}

#[test]
fn a_run_stops_where_it_is_asked_to() {
    let mut shared = PatcherShared::new(&manifest());
    let mut run = PatcherRun::start(local(), &mut shared);
    shared.request_cancel();
    let applied = drive(&mut run, &mut shared, |p| contents_of(p).to_vec());
    assert!(applied.is_empty());
    assert_eq!(shared.phase(), Phase::Cancelled);

    let mut shared = PatcherShared::new(&manifest());
    let mut run = PatcherRun::start(local(), &mut shared);
    run.scanned(&mut shared, &manifest(), Ok(files(&LOOSE)));
    run.next_check(&mut shared);
    run.patch_opened(&mut shared, Ok(5));
    shared.request_cancel();
    run.next_chunk(&mut shared);
    assert_eq!((run.step, shared.phase()), (RunStep::Finished, Phase::Cancelled));
}

#[test]
fn failures_of_a_run_are_told() {
    let begun = |shared: &mut PatcherShared| {
        let mut run = PatcherRun::start(local(), shared);
        run.scanned(shared, &manifest(), Ok(files(&LOOSE)));
        run.next_check(shared);
        run
    };
    let mut shared = PatcherShared::new(&manifest());
    let mut run = PatcherRun::start(local(), &mut shared);
    run.scanned(&mut shared, &manifest(), Err(PlanError::Reading("/s".to_string())));
    assert_eq!(shared.error().as_deref(), Some("Local patch scan failed: reading /s"));

    let mut shared = PatcherShared::new(&manifest());
    let mut run = PatcherRun::start(local(), &mut shared);
    run.scanned(&mut shared, &manifest(), Ok(files(&LOOSE[..2])));
    assert_eq!(
        shared.error().as_deref(),
        Some("Local patch scan failed: 1 patch file(s) missing from /s: D2012.patch")
    );

    let mut shared = PatcherShared::new(&manifest());
    let mut run = begun(&mut shared);
    run.patch_opened(&mut shared, Err("denied".to_string()));
    assert_eq!(
        shared.error().as_deref(),
        Some("Reading local patch /s/D2012.patch failed: denied")
    );

    let mut shared = PatcherShared::new(&manifest());
    let mut run = begun(&mut shared);
    run.patch_opened(&mut shared, Ok(5));
    run.next_chunk(&mut shared);
    run.chunk_read(&mut shared, Err("eio".to_string()));
    assert_eq!(
        shared.error().as_deref(),
        Some("Reading local patch /s/D2012.patch failed: eio")
    );

    let none: Vec<PatchEntry> = Vec::new();
    let mut shared = PatcherShared::new(&none);
    let mut run = PatcherRun::start(local(), &mut shared);
    run.scanned(&mut shared, &none, Ok(Vec::new()));
    run.next_check(&mut shared);
    run.next_patch(&mut shared);
    run.versions_written(&mut shared, Err("writing /g/boot.ver".to_string()));
    assert_eq!(shared.phase(), Phase::Done);
    assert_eq!(
        shared.warnings(),
        ["Failed to write version files: writing /g/boot.ver"]
    );
}

#[test]
fn a_patch_that_cannot_be_applied_ends_the_run() {
    let mut shared = PatcherShared::new(&manifest());
    let mut run = PatcherRun::start(local(), &mut shared);
    while run.step != RunStep::ApplyPatch {
        match run.step {
            RunStep::ScanSource => run.scanned(&mut shared, &manifest(), Ok(files(&LOOSE))),
            RunStep::NextCheck => run.next_check(&mut shared),
            RunStep::OpenPatch => {
                let size = contents_of(&run.check_path()).len() as u64;
                run.patch_opened(&mut shared, Ok(size));
            }
            RunStep::NextChunk => run.next_chunk(&mut shared),
            RunStep::ReadChunk => {
                let all = contents_of(&run.check_path());
                let chunk = if shared.transfer.bytes() == 0 { all.to_vec() } else { Vec::new() };
                run.chunk_read(&mut shared, Ok(chunk));
            }
            RunStep::NextPatch => run.next_patch(&mut shared),
            other => panic!("unexpected {other:?}"),
        }
    }
    assert_eq!(shared.phase(), Phase::Patching);
    run.patch_applied(&mut shared, Err("truncated".to_string()));
    assert_eq!((run.step, shared.phase()), (RunStep::Finished, Phase::Error));
    assert_eq!(
        shared.error().as_deref(),
        Some("Applying patch D2010.patch failed: truncated")
    );
}

#[test]
fn the_patcher_screen_says_what_goes_on() {
    let mut shared = PatcherShared::new(&manifest());
    let all = manifest();
    assert_eq!(progress_status(&shared, &all, 0), "Starting…");
    assert_eq!(patch_status(&shared, &all), "Patcher waiting for patches to be prepared…");
    assert_eq!(button_row(&shared, false), ButtonRow::Cancel);
    assert_eq!(button_row(&shared, true), ButtonRow::Cancelling);
    shared.set_phase(Phase::Validating);
    shared.begin_file(1);
    shared.count_bytes(2048);
    assert_eq!(
        progress_status(&shared, &all, 1_572_864),
        "Validating D2010.patch (2 KB/0 KB) @ 1.50 MB/s"
    );
    assert_eq!(patch_status(&shared, &all), "Patcher waiting for local patches to be validated…");
    shared.set_phase(Phase::Extracting);
    shared.begin_file(3);
    assert_eq!(progress_status(&shared, &all, 0), "Extracting…");
    shared.complete_file(6);
    shared.count_bytes(1);
    assert_eq!(total_transferred_bytes(&shared), 7);
    assert_eq!((progress_share(&shared).part, progress_share(&shared).whole), (7, 10));
    assert_eq!(patch_share(&shared).part, 0);
    shared.set_phase(Phase::Patching);
    shared.patch_idx = 2;
    assert_eq!(patch_status(&shared, &all), "Applying D2011.patch…");
    assert_eq!((patch_share(&shared).part, patch_share(&shared).whole), (2, 3));
    shared.patch_idx = 3;
    assert_eq!(patch_status(&shared, &all), "Applying patch…");
    shared.set_phase(Phase::Done);
    assert_eq!(patch_status(&shared, &all), "Complete!");
    assert_eq!(progress_status(&shared, &all, 0), "Patches ready.");
    assert_eq!(patch_share(&shared).part, patch_share(&shared).whole);
    assert_eq!(button_row(&shared, true), ButtonRow::Close);
    shared.set_phase(Phase::Cancelled);
    assert_eq!(progress_status(&shared, &all, 0), "Cancelled.");
    assert_eq!(patch_status(&shared, &all), "Patch cancelled.");
    shared.set_error("x");
    assert_eq!(progress_status(&shared, &all, 0), "Interrupted by error.");
    assert_eq!(patch_status(&shared, &all), "Patch interrupted by error.");
}

//! One run of the patcher: unpack where needed, check every patch file, then apply them in order.
//!
//! A run names the next action, and is told how the action went.

use vstd::prelude::*;
use vstd::seq_lib::to_multiset_contains;
use crate::path_text::{file_name, name_of};
use crate::text::{decimal, decimal_text, same, text_of, texts};
use super::crc::{bytes_fed, crc32};
use super::extract::{ExtractError, Removal};
use super::manifest::{leaf, leaf_name, PatchEntry};
use super::process::{
    first_patch, lemma_first_patch, missing_names, resolved, sorted_by_name, summary_of, PatchPlan,
    PlanError,
};
use super::walk::DirItem;
use super::worker::{PatchSource, PatcherShared, Phase};

verus! {

/// A patch file and what it must be.
#[derive(Debug, PartialEq, Eq)]
pub struct PatchCheck {
    pub path: String,
    pub size: u64,
    pub crc32: u32,
}

/// The first path with the given name.
pub open spec fn first_with_name(paths: Seq<Seq<char>>, name: Seq<char>) -> Option<Seq<char>>
    decreases paths.len(),
{
    if paths.len() == 0 {
        None
    } else if name_of(paths.first()) == Some(name) {
        Some(paths.first())
    } else {
        first_with_name(paths.drop_first(), name)
    }
}

/// The manifest entries that have a path, in their order, each with that path.
pub open spec fn pairs(
    manifest: Seq<PatchEntry>,
    paths: Seq<Seq<char>>,
) -> Seq<(Seq<char>, u64, u32)>
    decreases manifest.len(),
{
    if manifest.len() == 0 {
        Seq::empty()
    } else {
        let before = pairs(manifest.drop_last(), paths);
        let entry = manifest.last();
        match first_with_name(paths, leaf(entry.path@)) {
            Some(path) => before.push((path, entry.size, entry.crc32)),
            None => before,
        }
    }
}

/// What the checks are about.
pub open spec fn checks_view(checks: Seq<PatchCheck>) -> Seq<(Seq<char>, u64, u32)> {
    checks.map_values(|c: PatchCheck| (c.path@, c.size, c.crc32))
}

/// The first of the paths with the given name; see [`first_with_name`].
fn find_named(paths: &Vec<String>, name: &str) -> (r: Option<String>)
    ensures
        text_of(r) == first_with_name(texts(paths@), name@),
{
    let ghost all: Seq<Seq<char>> = texts(paths@);
    let mut i: usize = 0;
    assert(all.skip(0) =~= all);
    while i < paths.len()
        invariant
            i <= paths.len(),
            all == texts(paths@),
            first_with_name(all, name@) == first_with_name(all.skip(i as int), name@),
        decreases paths.len() - i,
    {
        assert(all.skip(i as int).first() == paths@[i as int]@);
        let hit: bool = match file_name(paths[i].as_str()) {
            Some(found) => same(found.as_str(), name),
            None => false,
        };
        if hit {
            return Some(paths[i].clone());
        }
        assert(all.skip(i as int).drop_first() =~= all.skip(i + 1));
        i = i + 1;
    }
    None
}

/// Each manifest entry with the path of its name; see [`pairs`].
pub fn pair_manifest_with_paths(manifest: &Vec<PatchEntry>, paths: &Vec<String>) -> (r: Vec<
    PatchCheck,
>)
    ensures
        checks_view(r@) == pairs(manifest@, texts(paths@)),
{
    let mut out: Vec<PatchCheck> = Vec::new();
    let mut i: usize = 0;
    while i < manifest.len()
        invariant
            i <= manifest.len(),
            checks_view(out@) =~= pairs(manifest@.take(i as int), texts(paths@)),
        decreases manifest.len() - i,
    {
        let ghost before = checks_view(out@);
        assert(manifest@.take(i + 1).drop_last() == manifest@.take(i as int));
        let name: &str = leaf_name(manifest[i].path.as_str());
        if let Some(path) = find_named(paths, name) {
            let ghost text = path@;
            out.push(PatchCheck { path, size: manifest[i].size, crc32: manifest[i].crc32 });
            assert(checks_view(out@) =~= before.push(
                (text, manifest@[i as int].size, manifest@[i as int].crc32),
            ));
        }
        i = i + 1;
    }
    assert(manifest@.take(manifest@.len() as int) == manifest@);
    out
}

proof fn lemma_named_is_found(paths: Seq<Seq<char>>, k: int, name: Seq<char>)
    requires
        0 <= k < paths.len(),
        name_of(paths[k]) == Some(name),
    ensures
        first_with_name(paths, name) is Some,
        name_of(first_with_name(paths, name)->0) == Some(name),
    decreases paths.len(),
{
    if name_of(paths.first()) != Some(name) {
        assert(paths.drop_first()[k - 1] == paths[k]);
        lemma_named_is_found(paths.drop_first(), k - 1, name);
    }
}

proof fn lemma_none_missing(manifest: Seq<PatchEntry>, files: Seq<DirItem>, i: int)
    requires
        missing_names(manifest, files).len() == 0,
        0 <= i < manifest.len(),
    ensures
        first_patch(files, leaf(manifest[i].path@)) is Some,
    decreases manifest.len(),
{
    if i < manifest.len() - 1 {
        assert(manifest.drop_last()[i] == manifest[i]);
        lemma_none_missing(manifest.drop_last(), files, i);
    }
}

proof fn lemma_every_entry_is_paired(
    manifest: Seq<PatchEntry>,
    files: Seq<DirItem>,
    paths: Seq<Seq<char>>,
    n: int,
)
    requires
        missing_names(manifest, files).len() == 0,
        paths.to_multiset() == resolved(manifest, files).to_multiset(),
        0 <= n <= manifest.len(),
    ensures
        pairs(manifest.take(n), paths).len() == n,
        forall|i: int|
            #![trigger pairs(manifest.take(n), paths)[i]]
            0 <= i < n ==> {
                let p = pairs(manifest.take(n), paths)[i];
                &&& name_of(p.0) == Some(leaf(manifest[i].path@))
                &&& p.1 == manifest[i].size
                &&& p.2 == manifest[i].crc32
            },
    decreases n,
{
    if n > 0 {
        let front = manifest.take(n).drop_last();
        assert(front == manifest.take(n - 1));
        lemma_every_entry_is_paired(manifest, files, paths, n - 1);
        let name = leaf(manifest[n - 1].path@);
        lemma_none_missing(manifest, files, n - 1);
        lemma_first_patch(files, name);
        let all = resolved(manifest, files);
        assert(all[n - 1] == first_patch(files, name)->0);
        to_multiset_contains(all, all[n - 1]);
        to_multiset_contains(paths, all[n - 1]);
        assert(all.contains(all[n - 1]));
        assert(paths.contains(all[n - 1]));
        let k = choose|k: int| 0 <= k < paths.len() && paths[k] == all[n - 1];
        lemma_named_is_found(paths, k, name);
        let before = pairs(front, paths);
        let now = pairs(manifest.take(n), paths);
        assert forall|i: int| #![trigger now[i]] 0 <= i < n implies {
            let p = now[i];
            &&& name_of(p.0) == Some(leaf(manifest[i].path@))
            &&& p.1 == manifest[i].size
            &&& p.2 == manifest[i].crc32
        } by {
            if i < n - 1 {
                assert(now[i] == before[i]);
            }
        }
    }
}

/// Every manifest entry is checked: a plan that was made of the files pairs each entry with a
/// patch file of its name.
pub proof fn law_every_entry_is_checked(
    manifest: Seq<PatchEntry>,
    files: Seq<DirItem>,
    paths: Seq<Seq<char>>,
    i: int,
)
    requires
        missing_names(manifest, files).len() == 0,
        paths.to_multiset() == resolved(manifest, files).to_multiset(),
        0 <= i < manifest.len(),
    ensures
        pairs(manifest, paths).len() == manifest.len(),
        name_of(pairs(manifest, paths)[i].0) == Some(leaf(manifest[i].path@)),
        pairs(manifest, paths)[i].1 == manifest[i].size,
        pairs(manifest, paths)[i].2 == manifest[i].crc32,
{
    lemma_every_entry_is_paired(manifest, files, paths, manifest.len() as int);
    assert(manifest.take(manifest.len() as int) == manifest);
}

/// What a run does next.
#[derive(Debug, Clone, Copy, PartialEq, Eq, Structural)]
pub enum RunStep {
    /// Tell the staging directory.
    ResolveStaging,
    /// Unpack the archive into the staging directory.
    Extract,
    /// List the files under the source directory.
    ScanSource,
    /// Go on to the next patch file to check.
    NextCheck,
    /// Open the patch file that is checked, and tell its size.
    OpenPatch,
    /// Go on to the next chunk of it.
    NextChunk,
    /// Read a chunk of it.
    ReadChunk,
    /// Go on to the next patch to apply.
    NextPatch,
    /// Apply the patch.
    ApplyPatch,
    /// Write the version files.
    WriteVersions,
    /// Remove the staging directory.
    RemoveStaging,
    /// Nothing more.
    Finished,
}

/// A run of the patcher.
pub struct PatcherRun {
    pub step: RunStep,
    /// The directory with the patch files.
    pub source_dir: String,
    /// The archive, where there is one.
    pub zip_path: Option<String>,
    /// The staging directory, once it is known.
    pub staging_dir: Option<String>,
    /// The patch files in the order in which they are applied.
    pub plan: Vec<String>,
    /// The patch files that are checked.
    pub checks: Vec<PatchCheck>,
    /// How many of them are checked.
    pub checked: usize,
    /// How many patches are applied.
    pub applied: usize,
    /// The number of bytes read of the file that is checked.
    pub fed: u64,
    pub hasher: crc32fast::Hasher,
    /// The size and the bytes of each file that was checked.
    pub seen: Ghost<Seq<(u64, Seq<u8>)>>,
}

impl PatcherRun {
    /// The phase that the step belongs to, where it is not over.
    pub open spec fn phase_at(step: RunStep) -> Option<Phase> {
        match step {
            RunStep::ResolveStaging | RunStep::Extract => Some(Phase::Extracting),
            RunStep::ScanSource | RunStep::NextCheck | RunStep::OpenPatch | RunStep::NextChunk
            | RunStep::ReadChunk => Some(Phase::Validating),
            RunStep::NextPatch | RunStep::ApplyPatch | RunStep::WriteVersions => Some(
                Phase::Patching,
            ),
            RunStep::RemoveStaging | RunStep::Finished => None,
        }
    }

    /// Whether every file that was checked has the size and the CRC-32 that it must have.
    pub open spec fn all_match(self) -> bool {
        &&& self.seen@.len() == self.checked
        &&& self.checked <= self.checks@.len()
        &&& forall|i: int|
            #![trigger self.seen@[i]]
            0 <= i < self.checked ==> self.seen@[i].0 == self.checks@[i].size && crc32(
                self.seen@[i].1,
            ) == self.checks@[i].crc32
    }

    /// What holds of a run and its report between any two actions. In particular no patch is
    /// applied before every file was checked, and a run that is done has applied all of them.
    pub open spec fn wf(self, shared: PatcherShared) -> bool {
        &&& self.all_match()
        &&& self.applied <= self.plan@.len()
        &&& match Self::phase_at(self.step) {
            Some(phase) => shared.phase == phase.code(),
            None => super::worker::phase_of(shared.phase).ends_run(),
        }
        &&& self.step == RunStep::RemoveStaging || self.step == RunStep::Extract
            ==> self.staging_dir is Some
        &&& self.step == RunStep::ResolveStaging || self.step == RunStep::Extract
            ==> self.zip_path is Some
        &&& self.step == RunStep::ResolveStaging || self.step == RunStep::Extract || self.step
            == RunStep::ScanSource ==> self.checks@.len() == 0
        &&& Self::phase_at(self.step) == Some(Phase::Extracting) || Self::phase_at(self.step)
            == Some(Phase::Validating) ==> self.applied == 0
        &&& self.step == RunStep::OpenPatch || self.step == RunStep::NextChunk || self.step
            == RunStep::ReadChunk ==> self.checked < self.checks@.len()
        &&& self.step == RunStep::NextChunk || self.step == RunStep::ReadChunk ==> self.fed
            == bytes_fed(self.hasher).len()
        &&& self.applied > 0 || Self::phase_at(self.step) == Some(Phase::Patching) || shared.phase
            == Phase::Done.code() ==> self.checked == self.checks@.len()
        &&& self.step == RunStep::ApplyPatch ==> self.applied < self.plan@.len()
        &&& self.step == RunStep::WriteVersions || shared.phase == Phase::Done.code()
            ==> self.applied == self.plan@.len()
    }

    /// Whether the run is over but for the removal of the staging directory.
    pub open spec fn over(self) -> bool {
        self.step == if self.staging_dir is Some {
            RunStep::RemoveStaging
        } else {
            RunStep::Finished
        }
    }

    /// Whether the files and directories are those of `other`.
    pub open spec fn same_files(self, other: PatcherRun) -> bool {
        &&& self.source_dir == other.source_dir
        &&& self.zip_path == other.zip_path
        &&& self.staging_dir == other.staging_dir
        &&& self.plan == other.plan
        &&& self.checks == other.checks
    }

    /// Whether the counts are those of `other`.
    pub open spec fn same_counts(self, other: PatcherRun) -> bool {
        &&& self.checked == other.checked
        &&& self.applied == other.applied
        &&& self.seen == other.seen
    }

    /// Begins a run.
    pub fn start(source: PatchSource, shared: &mut PatcherShared) -> (r: PatcherRun)
        ensures
            r.wf(*final(shared)),
            final(shared).keeps_request(*old(shared)),
            r.plan@.len() == 0,
            r.checks@.len() == 0,
            r.staging_dir is None,
            match source {
                PatchSource::Local { source_dir } => {
                    &&& r.step == RunStep::ScanSource
                    &&& r.source_dir@ == source_dir@
                    &&& r.zip_path is None
                    &&& final(shared).phased(*old(shared), Phase::Validating)
                },
                PatchSource::LocalZip { zip_path } => {
                    &&& r.step == RunStep::ResolveStaging
                    &&& r.zip_path is Some
                    &&& r.zip_path->0@ == zip_path@
                    &&& final(shared).phased(*old(shared), Phase::Extracting)
                },
            },
    {
        let (step, source_dir, zip_path): (RunStep, String, Option<String>) = match source {
            PatchSource::Local { source_dir } => {
                shared.set_phase(Phase::Validating);
                (RunStep::ScanSource, source_dir, None)
            },
            PatchSource::LocalZip { zip_path } => {
                shared.set_phase(Phase::Extracting);
                (RunStep::ResolveStaging, String::new(), Some(zip_path))
            },
        };
        PatcherRun {
            step,
            source_dir,
            zip_path,
            staging_dir: None,
            plan: Vec::new(),
            checks: Vec::new(),
            checked: 0,
            applied: 0,
            fed: 0,
            hasher: crc32fast::Hasher::new(),
            seen: Ghost(Seq::empty()),
        }
    }

    fn end(&mut self)
        ensures
            final(self).over(),
            final(self).same_files(*old(self)),
            final(self).same_counts(*old(self)),
    {
        self.step = if self.staging_dir.is_some() {
            RunStep::RemoveStaging
        } else {
            RunStep::Finished
        };
    }

    /// Ends the run with an error.
    fn fail(&mut self, shared: &mut PatcherShared, message: &str)
        requires
            old(self).wf(*old(shared)),
        ensures
            final(self).wf(*final(shared)),
            final(shared).keeps_request(*old(shared)),
            final(self).over(),
            final(self).same_files(*old(self)),
            final(self).same_counts(*old(self)),
            final(shared).errored(*old(shared), message@),
    {
        shared.set_error(message);
        self.end();
    }

    /// Ends the run as one that was asked to stop.
    fn stop(&mut self, shared: &mut PatcherShared)
        requires
            old(self).wf(*old(shared)),
        ensures
            final(self).wf(*final(shared)),
            final(shared).keeps_request(*old(shared)),
            final(self).over(),
            final(self).same_files(*old(self)),
            final(self).same_counts(*old(self)),
            final(shared).phased(*old(shared), Phase::Cancelled),
    {
        shared.set_phase(Phase::Cancelled);
        self.end();
    }

    /// The staging directory was told, or why it cannot be.
    pub fn staging_resolved(&mut self, shared: &mut PatcherShared, outcome: Result<String, String>)
        requires
            old(self).wf(*old(shared)),
            old(self).step == RunStep::ResolveStaging,
        ensures
            final(self).wf(*final(shared)),
            final(shared).keeps_request(*old(shared)),
            match outcome {
                Ok(dir) => {
                    &&& final(self).step == RunStep::Extract
                    &&& final(self).staging_dir == Some(dir)
                    &&& final(self).zip_path == old(self).zip_path
                    &&& *final(shared) == *old(shared)
                },
                Err(e) => {
                    &&& final(self).over()
                    &&& final(self).same_files(*old(self))
                    &&& final(shared).errored(
                        *old(shared),
                        "Could not resolve the patch staging directory: "@ + e@,
                    )
                },
            },
    {
        match outcome {
            Ok(dir) => {
                self.staging_dir = Some(dir);
                self.step = RunStep::Extract;
            },
            Err(e) => {
                let mut message: String =
                    "Could not resolve the patch staging directory: ".to_owned();
                message.append(e.as_str());
                self.fail(shared, message.as_str());
            },
        }
    }

    /// The extraction ended.
    pub fn extracted(&mut self, shared: &mut PatcherShared, failure: Option<ExtractError>)
        requires
            old(self).wf(*old(shared)),
            old(self).step == RunStep::Extract,
        ensures
            final(self).wf(*final(shared)),
            final(shared).keeps_request(*old(shared)),
            final(self).staging_dir == old(self).staging_dir,
            match failure {
                None => {
                    &&& final(self).step == RunStep::ScanSource
                    &&& final(self).source_dir == old(self).staging_dir->0
                    &&& final(shared).phase == Phase::Validating.code()
                    &&& final(shared).previous_completed_bytes == 0
                    &&& final(shared).transfer.bytes_transferred == 0
                    &&& final(shared).transfer.cancel_flag == old(shared).transfer.cancel_flag
                    &&& final(shared).file_idx == old(shared).file_idx
                    &&& final(shared).patch_idx == old(shared).patch_idx
                    &&& final(shared).total_source_bytes == old(shared).total_source_bytes
                    &&& final(shared).total_patches == old(shared).total_patches
                    &&& final(shared).error_message == old(shared).error_message
                    &&& final(shared).warnings == old(shared).warnings
                },
                Some(ExtractError::Cancelled) => {
                    &&& final(self).over()
                    &&& final(self).same_files(*old(self))
                    &&& final(shared).phased(*old(shared), Phase::Cancelled)
                },
                Some(e) => {
                    &&& final(self).over()
                    &&& final(self).same_files(*old(self))
                    &&& final(shared).errored(
                        *old(shared),
                        "Could not unpack the patch archive: "@ + e.text(),
                    )
                },
            },
    {
        match failure {
            None => {
                shared.previous_completed_bytes = 0;
                shared.transfer.bytes_transferred = 0;
                shared.set_phase(Phase::Validating);
                if let Some(dir) = &self.staging_dir {
                    self.source_dir = dir.clone();
                }
                self.step = RunStep::ScanSource;
            },
            Some(ExtractError::Cancelled) => {
                self.stop(shared);
            },
            Some(e) => {
                let mut message: String = "Could not unpack the patch archive: ".to_owned();
                message.append(e.message().as_str());
                self.fail(shared, message.as_str());
            },
        }
    }

    /// The regular files under the source directory were listed, or why they could not be.
    pub fn scanned(
        &mut self,
        shared: &mut PatcherShared,
        manifest: &Vec<PatchEntry>,
        files: Result<Vec<DirItem>, PlanError>,
    )
        requires
            old(self).wf(*old(shared)),
            old(self).step == RunStep::ScanSource,
        ensures
            final(self).wf(*final(shared)),
            final(shared).keeps_request(*old(shared)),
            final(self).source_dir == old(self).source_dir,
            final(self).staging_dir == old(self).staging_dir,
            match files {
                Ok(files) => if missing_names(manifest@, files@).len() == 0 {
                    &&& final(self).step == RunStep::NextCheck
                    &&& sorted_by_name(texts(final(self).plan@))
                    &&& texts(final(self).plan@).to_multiset() == resolved(
                        manifest@,
                        files@,
                    ).to_multiset()
                    &&& checks_view(final(self).checks@) == pairs(
                        manifest@,
                        texts(final(self).plan@),
                    )
                    &&& final(self).checks@.len() == manifest@.len()
                    &&& final(self).checked == 0
                    &&& final(self).applied == 0
                    &&& *final(shared) == *old(shared)
                } else {
                    &&& final(self).over()
                    &&& final(shared).errored(
                        *old(shared),
                        "Local patch scan failed: "@ + (decimal(
                            missing_names(manifest@, files@).len(),
                        ) + " patch file(s) missing from "@ + old(self).source_dir@ + ": "@
                            + summary_of(missing_names(manifest@, files@))),
                    )
                },
                Err(e) => {
                    &&& final(self).over()
                    &&& final(shared).errored(
                        *old(shared),
                        "Local patch scan failed: "@ + e.text(),
                    )
                },
            },
    {
        let made: Result<PatchPlan, PlanError> = match &files {
            Ok(files) => PatchPlan::from_local_source(manifest, self.source_dir.as_str(), files),
            Err(_) => Err(PlanError::NotADirectory(String::new())),
        };
        match files {
            Ok(files) => match made {
                Ok(plan) => {
                    self.checks = pair_manifest_with_paths(manifest, &plan.patches_in_order);
                    self.plan = plan.patches_in_order;
                    proof {
                        let paths = texts(self.plan@);
                        lemma_every_entry_is_paired(
                            manifest@,
                            files@,
                            paths,
                            manifest@.len() as int,
                        );
                        assert(manifest@.take(manifest@.len() as int) == manifest@);
                        assert(checks_view(self.checks@).len() == self.checks@.len());
                    }
                    self.step = RunStep::NextCheck;
                },
                Err(e) => {
                    let mut message: String = "Local patch scan failed: ".to_owned();
                    message.append(e.message().as_str());
                    self.fail(shared, message.as_str());
                },
            },
            Err(e) => {
                let mut message: String = "Local patch scan failed: ".to_owned();
                message.append(e.message().as_str());
                self.fail(shared, message.as_str());
            },
        }
    }

    /// Goes on to the next file to check: to the first patch when all are checked, unless the run
    /// was asked to stop.
    pub fn next_check(&mut self, shared: &mut PatcherShared)
        requires
            old(self).wf(*old(shared)),
            old(self).step == RunStep::NextCheck,
        ensures
            final(self).wf(*final(shared)),
            final(shared).keeps_request(*old(shared)),
            final(self).same_files(*old(self)),
            final(self).same_counts(*old(self)),
            if old(self).checked == old(self).checks@.len() {
                &&& final(self).step == RunStep::NextPatch
                &&& final(shared).phased(*old(shared), Phase::Patching)
            } else if old(shared).transfer.cancel_flag {
                &&& final(self).over()
                &&& final(shared).phased(*old(shared), Phase::Cancelled)
            } else {
                &&& final(self).step == RunStep::OpenPatch
                &&& final(shared).file_idx == old(self).checked
                &&& final(shared).begun(*old(shared))
            },
    {
        if self.checked == self.checks.len() {
            shared.set_phase(Phase::Patching);
            self.step = RunStep::NextPatch;
        } else if shared.is_cancel_requested() {
            self.stop(shared);
        } else {
            shared.begin_file(self.checked);
            self.step = RunStep::OpenPatch;
        }
    }

    /// The path of the file that is checked.
    pub fn check_path(&self) -> (r: String)
        requires
            self.checked < self.checks@.len(),
        ensures
            r == self.checks@[self.checked as int].path,
    {
        self.checks[self.checked].path.clone()
    }

    fn fail_reading(&mut self, shared: &mut PatcherShared, e: &str)
        requires
            old(self).wf(*old(shared)),
            old(self).checked < old(self).checks@.len(),
        ensures
            final(self).wf(*final(shared)),
            final(shared).keeps_request(*old(shared)),
            final(self).over(),
            final(self).same_files(*old(self)),
            final(self).same_counts(*old(self)),
            final(shared).errored(
                *old(shared),
                "Reading local patch "@ + old(self).checks@[old(self).checked as int].path@
                    + " failed: "@ + e@,
            ),
    {
        let mut message: String = "Reading local patch ".to_owned();
        message.append(self.checks[self.checked].path.as_str());
        message.append(" failed: ");
        message.append(e);
        self.fail(shared, message.as_str());
    }

    /// The file was opened and has the given size.
    pub fn patch_opened(&mut self, shared: &mut PatcherShared, outcome: Result<u64, String>)
        requires
            old(self).wf(*old(shared)),
            old(self).step == RunStep::OpenPatch,
        ensures
            final(self).wf(*final(shared)),
            final(shared).keeps_request(*old(shared)),
            final(self).same_files(*old(self)),
            final(self).same_counts(*old(self)),
            ({
                let check = old(self).checks@[old(self).checked as int];
                match outcome {
                    Ok(actual) => if actual == check.size {
                        &&& final(self).step == RunStep::NextChunk
                        &&& bytes_fed(final(self).hasher) == Seq::<u8>::empty()
                        &&& *final(shared) == *old(shared)
                    } else {
                        &&& final(self).over()
                        &&& final(shared).errored(
                            *old(shared),
                            "Local patch "@ + check.path@ + " has wrong size ("@ + decimal(
                                actual as nat,
                            ) + " bytes, expected "@ + decimal(check.size as nat) + ")"@,
                        )
                    },
                    Err(e) => {
                        &&& final(self).over()
                        &&& final(shared).errored(
                            *old(shared),
                            "Reading local patch "@ + check.path@ + " failed: "@ + e@,
                        )
                    },
                }
            }),
    {
        match outcome {
            Ok(actual) => {
                let expected: u64 = self.checks[self.checked].size;
                if actual == expected {
                    self.hasher = crc32fast::Hasher::new();
                    self.fed = 0;
                    self.step = RunStep::NextChunk;
                } else {
                    let mut message: String = "Local patch ".to_owned();
                    message.append(self.checks[self.checked].path.as_str());
                    message.append(" has wrong size (");
                    message.append(decimal_text(actual).as_str());
                    message.append(" bytes, expected ");
                    message.append(decimal_text(expected).as_str());
                    message.append(")");
                    self.fail(shared, message.as_str());
                }
            },
            Err(e) => {
                self.fail_reading(shared, e.as_str());
            },
        }
    }

    /// Goes on to the next chunk of the file, unless the run was asked to stop.
    pub fn next_chunk(&mut self, shared: &mut PatcherShared)
        requires
            old(self).wf(*old(shared)),
            old(self).step == RunStep::NextChunk,
        ensures
            final(self).wf(*final(shared)),
            final(shared).keeps_request(*old(shared)),
            final(self).same_files(*old(self)),
            final(self).same_counts(*old(self)),
            if old(shared).transfer.cancel_flag {
                &&& final(self).over()
                &&& final(shared).phased(*old(shared), Phase::Cancelled)
            } else {
                &&& final(self).step == RunStep::ReadChunk
                &&& final(self).hasher == old(self).hasher
                &&& *final(shared) == *old(shared)
            },
    {
        if shared.is_cancel_requested() {
            self.stop(shared);
        } else {
            self.step = RunStep::ReadChunk;
        }
    }

    /// A chunk of the file was read; the file ends with an empty one, and must have the CRC-32
    /// that its entry gives.
    pub fn chunk_read(&mut self, shared: &mut PatcherShared, outcome: Result<Vec<u8>, String>)
        requires
            old(self).wf(*old(shared)),
            old(self).step == RunStep::ReadChunk,
            outcome is Ok ==> old(self).fed + outcome->Ok_0@.len() <= u64::MAX,
        ensures
            final(self).wf(*final(shared)),
            final(shared).keeps_request(*old(shared)),
            final(self).same_files(*old(self)),
            ({
                let check = old(self).checks@[old(self).checked as int];
                match outcome {
                    Ok(chunk) => if chunk@.len() > 0 {
                        &&& final(self).step == RunStep::NextChunk
                        &&& final(self).same_counts(*old(self))
                        &&& bytes_fed(final(self).hasher) == bytes_fed(old(self).hasher) + chunk@
                        &&& final(shared).counted(*old(shared), chunk@.len() as u64)
                    } else if crc32(bytes_fed(old(self).hasher)) == check.crc32 {
                        &&& final(self).step == RunStep::NextCheck
                        &&& final(self).checked == old(self).checked + 1
                        &&& final(self).applied == old(self).applied
                        &&& final(self).seen@ == old(self).seen@.push(
                            (check.size, bytes_fed(old(self).hasher)),
                        )
                        &&& final(shared).completed(*old(shared), check.size)
                    } else {
                        &&& final(self).over()
                        &&& final(self).same_counts(*old(self))
                        &&& final(shared).errored(
                            *old(shared),
                            "Local patch "@ + check.path@ + " failed CRC32 check"@,
                        )
                    },
                    Err(e) => {
                        &&& final(self).over()
                        &&& final(self).same_counts(*old(self))
                        &&& final(shared).errored(
                            *old(shared),
                            "Reading local patch "@ + check.path@ + " failed: "@ + e@,
                        )
                    },
                }
            }),
    {
        match outcome {
            Ok(chunk) => {
                if chunk.len() > 0 {
                    self.hasher.update(chunk.as_slice());
                    self.fed = self.fed + chunk.len() as u64;
                    shared.count_bytes(chunk.len() as u64);
                    self.step = RunStep::NextChunk;
                    return ;
                }
                let ghost bytes: Seq<u8> = bytes_fed(self.hasher);
                let mut hasher: crc32fast::Hasher = crc32fast::Hasher::new();
                std::mem::swap(&mut hasher, &mut self.hasher);
                self.fed = 0;
                if hasher.finalize() == self.checks[self.checked].crc32 {
                    let size: u64 = self.checks[self.checked].size;
                    assert(self.checked < self.checks.len());
                    shared.complete_file(size);
                    self.seen = Ghost(self.seen@.push((size, bytes)));
                    self.checked = self.checked + 1;
                    self.step = RunStep::NextCheck;
                } else {
                    let mut message: String = "Local patch ".to_owned();
                    message.append(self.checks[self.checked].path.as_str());
                    message.append(" failed CRC32 check");
                    self.fail(shared, message.as_str());
                }
            },
            Err(e) => {
                self.fail_reading(shared, e.as_str());
            },
        }
    }

    /// Goes on to the next patch to apply, unless the run was asked to stop.
    pub fn next_patch(&mut self, shared: &mut PatcherShared)
        requires
            old(self).wf(*old(shared)),
            old(self).step == RunStep::NextPatch,
        ensures
            final(self).wf(*final(shared)),
            final(shared).keeps_request(*old(shared)),
            final(self).same_files(*old(self)),
            final(self).same_counts(*old(self)),
            if old(self).applied == old(self).plan@.len() {
                &&& final(self).step == RunStep::WriteVersions
                &&& *final(shared) == *old(shared)
            } else if old(shared).transfer.cancel_flag {
                &&& final(self).over()
                &&& final(shared).phased(*old(shared), Phase::Cancelled)
            } else {
                &&& final(self).step == RunStep::ApplyPatch
                &&& final(shared).patch_idx == old(self).applied
                &&& final(shared).transfer == old(shared).transfer
                &&& final(shared).file_idx == old(shared).file_idx
                &&& final(shared).previous_completed_bytes == old(shared).previous_completed_bytes
                &&& final(shared).total_source_bytes == old(shared).total_source_bytes
                &&& final(shared).total_patches == old(shared).total_patches
                &&& final(shared).same_report(*old(shared))
            },
    {
        if self.applied == self.plan.len() {
            self.step = RunStep::WriteVersions;
        } else if shared.is_cancel_requested() {
            self.stop(shared);
        } else {
            shared.patch_idx = self.applied;
            self.step = RunStep::ApplyPatch;
        }
    }

    /// The path of the patch that is applied.
    pub fn patch_path(&self) -> (r: String)
        requires
            self.applied < self.plan@.len(),
        ensures
            r == self.plan@[self.applied as int],
    {
        self.plan[self.applied].clone()
    }

    /// The patch was applied, with the messages that it gave.
    pub fn patch_applied(
        &mut self,
        shared: &mut PatcherShared,
        outcome: Result<Vec<String>, String>,
    )
        requires
            old(self).wf(*old(shared)),
            old(self).step == RunStep::ApplyPatch,
        ensures
            final(self).wf(*final(shared)),
            final(shared).keeps_request(*old(shared)),
            final(self).same_files(*old(self)),
            final(self).checked == old(self).checked,
            final(self).seen == old(self).seen,
            match outcome {
                Ok(messages) => {
                    &&& final(self).step == RunStep::NextPatch
                    &&& final(self).applied == old(self).applied + 1
                    &&& texts(final(shared).warnings@) == texts(old(shared).warnings@) + texts(
                        messages@,
                    )
                    &&& final(shared).same_progress(*old(shared))
                    &&& final(shared).phase == old(shared).phase
                    &&& final(shared).error_message == old(shared).error_message
                },
                Err(e) => {
                    let path = old(self).plan@[old(self).applied as int]@;
                    let name = match name_of(path) {
                        Some(name) => name,
                        None => path,
                    };
                    &&& final(self).over()
                    &&& final(self).applied == old(self).applied
                    &&& final(shared).errored(
                        *old(shared),
                        "Applying patch "@ + name + " failed: "@ + e@,
                    )
                },
            },
    {
        match outcome {
            Ok(messages) => {
                let ghost before: PatcherShared = *shared;
                let mut i: usize = 0;
                assert(texts(messages@).take(0) =~= Seq::<Seq<char>>::empty());
                while i < messages.len()
                    invariant
                        i <= messages.len(),
                        texts(shared.warnings@) =~= texts(before.warnings@) + texts(
                            messages@,
                        ).take(i as int),
                        shared.same_progress(before),
                        shared.phase == before.phase,
                        shared.error_message == before.error_message,
                    decreases messages.len() - i,
                {
                    let ghost all: Seq<Seq<char>> = texts(messages@);
                    shared.push_warning(messages[i].as_str());
                    assert(all.take(i + 1) =~= all.take(i as int).push(messages@[i as int]@));
                    i = i + 1;
                }
                assert(texts(messages@).take(messages@.len() as int) =~= texts(messages@));
                assert(self.applied < self.plan.len());
                self.applied = self.applied + 1;
                self.step = RunStep::NextPatch;
            },
            Err(e) => {
                let name: String = match file_name(self.plan[self.applied].as_str()) {
                    Some(name) => name,
                    None => self.plan[self.applied].clone(),
                };
                let mut message: String = "Applying patch ".to_owned();
                message.append(name.as_str());
                message.append(" failed: ");
                message.append(e.as_str());
                self.fail(shared, message.as_str());
            },
        }
    }

    /// The version files were written. That they could not be is only a warning.
    pub fn versions_written(&mut self, shared: &mut PatcherShared, outcome: Result<(), String>)
        requires
            old(self).wf(*old(shared)),
            old(self).step == RunStep::WriteVersions,
        ensures
            final(self).wf(*final(shared)),
            final(shared).keeps_request(*old(shared)),
            final(self).over(),
            final(self).same_files(*old(self)),
            final(self).same_counts(*old(self)),
            final(shared).phase == Phase::Done.code(),
            final(shared).same_progress(*old(shared)),
            final(shared).error_message == old(shared).error_message,
            texts(final(shared).warnings@) == match outcome {
                Ok(_) => texts(old(shared).warnings@),
                Err(e) => texts(old(shared).warnings@).push(
                    "Failed to write version files: "@ + e@,
                ),
            },
    {
        if let Err(e) = outcome {
            let mut message: String = "Failed to write version files: ".to_owned();
            message.append(e.as_str());
            shared.push_warning(message.as_str());
        }
        shared.set_phase(Phase::Done);
        self.end();
    }

    /// The staging directory was removed. That it could not be is only a warning.
    pub fn staging_removed(&mut self, shared: &mut PatcherShared, outcome: Removal)
        requires
            old(self).wf(*old(shared)),
            old(self).step == RunStep::RemoveStaging,
        ensures
            final(self).wf(*final(shared)),
            final(shared).keeps_request(*old(shared)),
            final(self).step == RunStep::Finished,
            final(self).same_files(*old(self)),
            final(self).same_counts(*old(self)),
            final(shared).phase == old(shared).phase,
            final(shared).same_progress(*old(shared)),
            final(shared).error_message == old(shared).error_message,
            texts(final(shared).warnings@) == match outcome {
                Removal::Failed(e) => texts(old(shared).warnings@).push(
                    "Could not remove the patch staging directory: "@ + e@,
                ),
                _ => texts(old(shared).warnings@),
            },
    {
        if let Removal::Failed(e) = outcome {
            let mut message: String = "Could not remove the patch staging directory: ".to_owned();
            message.append(e.as_str());
            shared.push_warning(message.as_str());
        }
        self.step = RunStep::Finished;
    }
}

/// No patch is applied before every file was checked: while patches are applied, and once the run
/// is done, each file that is checked has shown the size and the CRC-32 of its manifest entry.
pub proof fn law_patches_are_checked_before_they_are_applied(
    run: PatcherRun,
    shared: PatcherShared,
    i: int,
)
    requires
        run.wf(shared),
        run.step == RunStep::ApplyPatch || run.applied > 0 || shared.phase == Phase::Done.code(),
        0 <= i < run.checks@.len(),
    ensures
        run.seen@.len() == run.checks@.len(),
        run.seen@[i].0 == run.checks@[i].size,
        crc32(run.seen@[i].1) == run.checks@[i].crc32,
{
}

/// A run that is done has applied every patch of its plan.
pub proof fn law_a_done_run_has_applied_every_patch(run: PatcherRun, shared: PatcherShared)
    requires
        run.wf(shared),
        shared.phase == Phase::Done.code(),
    ensures
        run.applied == run.plan@.len(),
{
}

/// A run that is over reports a phase that nothing follows.
pub proof fn law_a_finished_run_is_terminal(run: PatcherRun, shared: PatcherShared)
    requires
        run.wf(shared),
        run.step == RunStep::Finished,
    ensures
        super::worker::phase_of(shared.phase).ends_run(),
{
}

/// The file for a name is the first that has it.
pub proof fn law_the_first_file_of_a_name_is_taken(
    paths: Seq<Seq<char>>,
    name: Seq<char>,
    k: int,
)
    requires
        0 <= k <= paths.len(),
        forall|i: int| 0 <= i < k ==> name_of(#[trigger] paths[i]) != Some(name),
        k < paths.len() ==> name_of(paths[k]) == Some(name),
    ensures
        first_with_name(paths, name) == if k < paths.len() {
            Some(paths[k])
        } else {
            None
        },
    decreases paths.len(),
{
    if k > 0 {
        assert(name_of(paths[0]) != Some(name));
        let rest = paths.drop_first();
        assert forall|i: int| 0 <= i < k - 1 implies name_of(#[trigger] rest[i]) != Some(name) by {
            assert(rest[i] == paths[i + 1]);
        }
        law_the_first_file_of_a_name_is_taken(rest, name, k - 1);
    }
}

/// The checks, entry by entry: a file of the entry's name is checked for the entry's size and
/// CRC-32.
pub proof fn law_checks_entry_by_entry(
    a: Seq<PatchEntry>,
    b: Seq<PatchEntry>,
    entry: PatchEntry,
    paths: Seq<Seq<char>>,
    k: int,
)
    requires
        0 <= k <= paths.len(),
        forall|i: int| 0 <= i < k ==> name_of(#[trigger] paths[i]) != Some(leaf(entry.path@)),
        k < paths.len() ==> name_of(paths[k]) == Some(leaf(entry.path@)),
    ensures
        pairs(a + b, paths) == pairs(a, paths) + pairs(b, paths),
        pairs(Seq::empty(), paths).len() == 0,
        k < paths.len() ==> pairs(seq![entry], paths) == seq![
            (paths[k], entry.size, entry.crc32),
        ],
        k == paths.len() ==> pairs(seq![entry], paths).len() == 0,
    decreases b.len(),
{
    if b.len() == 0 {
        assert(a + b =~= a);
        assert(pairs(a + b, paths) =~= pairs(a, paths) + pairs(b, paths));
    } else {
        assert((a + b).drop_last() =~= a + b.drop_last());
        law_checks_entry_by_entry(a, b.drop_last(), entry, paths, k);
        assert(pairs(a + b, paths) =~= pairs(a, paths) + pairs(b, paths));
    }
    law_the_first_file_of_a_name_is_taken(paths, leaf(entry.path@), k);
    assert(seq![entry].drop_last() =~= Seq::<PatchEntry>::empty());
    let none = pairs(Seq::empty(), paths);
    assert(none.len() == 0);
    if k < paths.len() {
        assert(pairs(seq![entry], paths) =~= seq![(paths[k], entry.size, entry.crc32)]);
    }
}

/// The checks are those of the files, one by one.
pub proof fn law_what_checks_show(checks: Seq<PatchCheck>, i: int)
    ensures
        checks_view(checks).len() == checks.len(),
        0 <= i < checks.len() ==> checks_view(checks)[i] == (
            checks[i].path@,
            checks[i].size,
            checks[i].crc32,
        ),
{
}

/// A run that is over removes its staging directory where it has one, and else has finished.
pub proof fn law_what_comes_at_the_end(run: PatcherRun)
    requires
        run.over(),
    ensures
        run.staging_dir is Some ==> run.step == RunStep::RemoveStaging,
        run.staging_dir is None ==> run.step == RunStep::Finished,
{
}

/// The phase of each step, and none where the run is over.
pub proof fn law_the_phase_of_a_step(step: RunStep)
    ensures
        PatcherRun::phase_at(step) == Some(Phase::Extracting) <==> step == RunStep::ResolveStaging
            || step == RunStep::Extract,
        PatcherRun::phase_at(step) == Some(Phase::Validating) <==> step == RunStep::ScanSource
            || step == RunStep::NextCheck || step == RunStep::OpenPatch || step == RunStep::NextChunk
            || step == RunStep::ReadChunk,
        PatcherRun::phase_at(step) == Some(Phase::Patching) <==> step == RunStep::NextPatch || step
            == RunStep::ApplyPatch || step == RunStep::WriteVersions,
        PatcherRun::phase_at(step) is None <==> step == RunStep::RemoveStaging || step
            == RunStep::Finished,
{
}

/// What stays the same of a run stays so each.
pub proof fn law_what_a_step_of_a_run_keeps(run: PatcherRun, other: PatcherRun)
    ensures
        run.same_files(other) ==> run.plan == other.plan && run.checks == other.checks
            && run.source_dir == other.source_dir && run.zip_path == other.zip_path
            && run.staging_dir == other.staging_dir,
        run.same_counts(other) ==> run.checked == other.checked && run.applied == other.applied
            && run.seen == other.seen,
{
}

} // verus!

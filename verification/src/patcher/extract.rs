//! Finding the patch files under a storage directory, and unpacking them from their archive.

use vstd::prelude::*;
use crate::path_text::{below, extension, extension_of, file_name, join_path, name_of};
use crate::text::{
    decimal, decimal_text, eq_ignore_ascii_case, same, same_ignoring_case, text_of, texts,
};
use super::manifest::{leaf, leaf_name, PatchEntry};
use super::process::{
    find_patch, first_patch, is_patch_named, missing_names, summarize_names, summary_of,
};
use super::walk::{
    files_read, files_within, law_source_walk_finds_what_a_storage_walk_finds, DirItem, PatchSourceWalk,
    Tree,
};
use super::worker::PatcherShared;

verus! {

/// The size of the buffer for reading and writing.
pub const IO_CHUNK: usize = 0x10000;

/// The name of the archive, in any case.
pub const ARCHIVE_NAME: &'static str = "ffxiv_patches.zip";

/// Where the patch files were found.
#[derive(Debug, PartialEq, Eq)]
pub enum PatchPayload {
    /// An archive, to be unpacked.
    Zip(String),
    /// A directory that holds every patch file.
    PatchDir(String),
}

/// Whether there is a patch file with the given name.
pub open spec fn holds_patch(files: Seq<DirItem>, name: Seq<char>) -> bool {
    exists|j: int| 0 <= j < files.len() && is_patch_named((#[trigger] files[j]).path@, name)
}

/// Whether there is a patch file for every manifest entry.
pub open spec fn holds_every_patch(manifest: Seq<PatchEntry>, files: Seq<DirItem>) -> bool {
    forall|i: int|
        0 <= i < manifest.len() ==> holds_patch(files, leaf((#[trigger] manifest[i]).path@))
}

/// Whether the path has the extension `zip`, in any case.
pub open spec fn is_zip(path: Seq<char>) -> bool {
    extension_of(path) is Some && same_ignoring_case(extension_of(path)->0, "zip"@)
}

/// Whether the path has the archive's name, in any case.
pub open spec fn is_archive(path: Seq<char>) -> bool {
    name_of(path) is Some && same_ignoring_case(name_of(path)->0, ARCHIVE_NAME@)
}

/// The paths with the extension `zip`, in their order.
pub open spec fn zip_paths(files: Seq<DirItem>) -> Seq<Seq<char>>
    decreases files.len(),
{
    if files.len() == 0 {
        Seq::empty()
    } else if is_zip(files.last().path@) {
        zip_paths(files.drop_last()).push(files.last().path@)
    } else {
        zip_paths(files.drop_last())
    }
}

/// The first path with the archive's name.
pub open spec fn first_archive(paths: Seq<Seq<char>>) -> Option<Seq<char>>
    decreases paths.len(),
{
    if paths.len() == 0 {
        None
    } else if is_archive(paths.first()) {
        Some(paths.first())
    } else {
        first_archive(paths.drop_first())
    }
}

/// The archive among the given `zip` files: the first with its name, or else the only one.
pub open spec fn archive_among(zips: Seq<Seq<char>>) -> Option<Seq<char>> {
    if first_archive(zips) is Some {
        first_archive(zips)
    } else if zips.len() == 1 {
        Some(zips[0])
    } else {
        None
    }
}

proof fn lemma_first_patch_exists(files: Seq<DirItem>, name: Seq<char>)
    ensures
        first_patch(files, name) is Some <==> holds_patch(files, name),
    decreases files.len(),
{
    if files.len() > 0 {
        let rest = files.drop_first();
        lemma_first_patch_exists(rest, name);
        if is_patch_named(files.first().path@, name) {
            assert(is_patch_named(files[0].path@, name));
        } else {
            if holds_patch(files, name) {
                let j = choose|j: int|
                    0 <= j < files.len() && is_patch_named((#[trigger] files[j]).path@, name);
                assert(rest[j - 1] == files[j]);
            }
            if first_patch(rest, name) is Some {
                let j = choose|j: int|
                    0 <= j < rest.len() && is_patch_named((#[trigger] rest[j]).path@, name);
                assert(files[j + 1] == rest[j]);
            }
        }
    }
}

/// Whether the files hold every patch; see [`holds_every_patch`].
pub fn has_every_manifest_patch(manifest: &Vec<PatchEntry>, files: &Vec<DirItem>) -> (r: bool)
    ensures
        r == holds_every_patch(manifest@, files@),
{
    let mut i: usize = 0;
    while i < manifest.len()
        invariant
            i <= manifest.len(),
            forall|k: int|
                0 <= k < i ==> holds_patch(files@, leaf((#[trigger] manifest@[k]).path@)),
        decreases manifest.len() - i,
    {
        let name: &str = leaf_name(manifest[i].path.as_str());
        proof {
            lemma_first_patch_exists(files@, name@);
        }
        if find_patch(files, name).is_none() {
            assert(leaf(manifest@[i as int].path@) == name@);
            return false;
        }
        i = i + 1;
    }
    true
}

/// See [`is_zip`].
pub fn has_zip_extension(path: &str) -> (r: bool)
    ensures
        r == is_zip(path@),
{
    match extension(path) {
        Some(ext) => eq_ignore_ascii_case(ext.as_str(), "zip"),
        None => false,
    }
}

/// See [`is_archive`].
pub fn is_named_ffxiv_patches_zip(path: &str) -> (r: bool)
    ensures
        r == is_archive(path@),
{
    match file_name(path) {
        Some(name) => eq_ignore_ascii_case(name.as_str(), ARCHIVE_NAME),
        None => false,
    }
}

/// The files with the extension `zip`; see [`zip_paths`].
pub fn collect_zip_files(files: &Vec<DirItem>) -> (r: Vec<String>)
    ensures
        texts(r@) == zip_paths(files@),
{
    let mut out: Vec<String> = Vec::new();
    let mut i: usize = 0;
    while i < files.len()
        invariant
            i <= files.len(),
            texts(out@) =~= zip_paths(files@.take(i as int)),
        decreases files.len() - i,
    {
        let ghost before: Seq<Seq<char>> = texts(out@);
        assert(files@.take(i + 1).drop_last() == files@.take(i as int));
        if has_zip_extension(files[i].path.as_str()) {
            out.push(files[i].path.clone());
            assert(texts(out@) =~= before.push(files@[i as int].path@));
        }
        i = i + 1;
    }
    assert(files@.take(files@.len() as int) == files@);
    out
}

/// The archive among the files; see [`archive_among`].
pub fn find_patch_zip(files: &Vec<DirItem>) -> (r: Option<String>)
    ensures
        text_of(r) == archive_among(zip_paths(files@)),
{
    let zips: Vec<String> = collect_zip_files(files);
    let ghost all: Seq<Seq<char>> = texts(zips@);
    let mut i: usize = 0;
    assert(all.skip(0) =~= all);
    while i < zips.len()
        invariant
            i <= zips.len(),
            all == texts(zips@),
            all == zip_paths(files@),
            first_archive(all) == first_archive(all.skip(i as int)),
        decreases zips.len() - i,
    {
        assert(all.skip(i as int).first() == zips@[i as int]@);
        if is_named_ffxiv_patches_zip(zips[i].as_str()) {
            return Some(zips[i].clone());
        }
        assert(all.skip(i as int).drop_first() =~= all.skip(i + 1));
        i = i + 1;
    }
    if zips.len() == 1 {
        assert(all[0] == zips@[0]@);
        Some(zips[0].clone())
    } else {
        None
    }
}

/// Where the patch files lie under `storage_dir`. `files` are those that a
/// [`StorageWalk`](super::walk::StorageWalk) of the directory found; `is_dir` says whether
/// `storage_dir` is a directory at all.
pub fn find_patch_payload(
    manifest: &Vec<PatchEntry>,
    storage_dir: &str,
    is_dir: bool,
    files: &Vec<DirItem>,
) -> (r: Option<PatchPayload>)
    ensures
        !is_dir ==> r is None,
        is_dir && holds_every_patch(manifest@, files@) ==> {
            &&& r is Some
            &&& r->0 is PatchDir
            &&& r->0->PatchDir_0@ == storage_dir@
        },
        is_dir && !holds_every_patch(manifest@, files@) ==> {
            match archive_among(zip_paths(files@)) {
                Some(path) => r is Some && r->0 is Zip && r->0->Zip_0@ == path,
                None => r is None,
            }
        },
{
    if !is_dir {
        return None;
    }
    if has_every_manifest_patch(manifest, files) {
        return Some(PatchPayload::PatchDir(storage_dir.to_owned()));
    }
    match find_patch_zip(files) {
        Some(path) => Some(PatchPayload::Zip(path)),
        None => None,
    }
}

/// Why the archive could not be unpacked.
#[derive(Debug, PartialEq, Eq)]
pub enum ExtractError {
    /// There is no file at this path.
    NotAZip(String),
    /// Reading or writing failed.
    Io { context: String, source: String },
    /// The archive could not be read.
    Zip(String),
    /// Some patch files are not in the archive.
    MissingPatches { missing_count: usize, summary: String },
    /// The run was asked to stop.
    Cancelled,
}

impl ExtractError {
    /// The text of the error.
    pub open spec fn text(self) -> Seq<char> {
        match self {
            ExtractError::NotAZip(path) => "patch archive is not a file: "@ + path@,
            ExtractError::Io { context, source } => "i/o error while "@ + context@ + ": "@
                + source@,
            ExtractError::Zip(e) => "could not read the patch archive: "@ + e@,
            ExtractError::MissingPatches { missing_count, summary } => decimal(
                missing_count as nat,
            ) + " patch file(s) not found in the archive: "@ + summary@,
            ExtractError::Cancelled => "extraction was cancelled"@,
        }
    }

    /// The text of the error.
    pub fn message(&self) -> (r: String)
        ensures
            r@ == self.text(),
    {
        match self {
            ExtractError::NotAZip(path) => {
                let mut out: String = "patch archive is not a file: ".to_owned();
                out.append(path.as_str());
                out
            },
            ExtractError::Io { context, source } => {
                let mut out: String = "i/o error while ".to_owned();
                out.append(context.as_str());
                out.append(": ");
                out.append(source.as_str());
                out
            },
            ExtractError::Zip(e) => {
                let mut out: String = "could not read the patch archive: ".to_owned();
                out.append(e.as_str());
                out
            },
            ExtractError::MissingPatches { missing_count, summary } => {
                let mut out: String = decimal_text(*missing_count as u64);
                out.append(" patch file(s) not found in the archive: ");
                out.append(summary.as_str());
                out
            },
            ExtractError::Cancelled => "extraction was cancelled".to_owned(),
        }
    }

    /// Whether this is a failure of the given action for the given reason.
    pub open spec fn is_io(self, context: Seq<char>, source: Seq<char>) -> bool {
        self is Io && self->context@ == context && self->Io_source@ == source
    }

    fn io(context: &str, source: &str) -> (r: ExtractError)
        ensures
            r.is_io(context@, source@),
    {
        ExtractError::Io { context: context.to_owned(), source: source.to_owned() }
    }
}

/// The names for an error's text, cut short as those of a missing local patch are.
pub fn join_names(names: &Vec<String>) -> (r: String)
    ensures
        r@ == summary_of(texts(names@)),
{
    summarize_names(names)
}

/// The index of the first archive member with the given file name, or the number of members.
pub open spec fn member_index(members: Seq<Seq<char>>, name: Seq<char>) -> int
    decreases members.len(),
{
    if members.len() == 0 || name_of(members.first()) == Some(name) {
        0
    } else {
        1 + member_index(members.drop_first(), name)
    }
}

/// The names of the manifest that no archive member has, in the manifest's order.
pub open spec fn absent_names(
    manifest: Seq<PatchEntry>,
    members: Seq<Seq<char>>,
) -> Seq<Seq<char>>
    decreases manifest.len(),
{
    if manifest.len() == 0 {
        Seq::empty()
    } else {
        let before = absent_names(manifest.drop_last(), members);
        let name = leaf(manifest.last().path@);
        if member_index(members, name) == members.len() {
            before.push(name)
        } else {
            before
        }
    }
}

/// A patch file that is to be unpacked.
#[derive(Debug, PartialEq, Eq)]
pub struct StagedEntry {
    /// The member's place in the archive.
    pub zip_index: usize,
    /// The file name to unpack to.
    pub leaf: String,
    /// The size that the manifest gives.
    pub size: u64,
}

/// Whether `staged` are the manifest's entries, each with its member of the archive.
pub open spec fn stages(
    staged: Seq<StagedEntry>,
    manifest: Seq<PatchEntry>,
    members: Seq<Seq<char>>,
) -> bool {
    &&& staged.len() == manifest.len()
    &&& forall|i: int|
        #![trigger staged[i]]
        0 <= i < staged.len() ==> {
            &&& staged[i].leaf@ == leaf(manifest[i].path@)
            &&& staged[i].size == manifest[i].size
            &&& staged[i].zip_index == member_index(members, leaf(manifest[i].path@))
            &&& staged[i].zip_index < members.len()
        }
}

/// The first member with the given file name; see [`member_index`].
fn find_member(members: &Vec<String>, name: &str) -> (r: usize)
    ensures
        r == member_index(texts(members@), name@),
        r <= members.len(),
{
    let ghost all: Seq<Seq<char>> = texts(members@);
    let mut i: usize = 0;
    assert(all.skip(0) =~= all);
    while i < members.len()
        invariant
            i <= members.len(),
            all == texts(members@),
            member_index(all, name@) == i + member_index(all.skip(i as int), name@),
        decreases members.len() - i,
    {
        assert(all.skip(i as int).first() == members@[i as int]@);
        let hit: bool = match file_name(members[i].as_str()) {
            Some(found) => same(found.as_str(), name),
            None => false,
        };
        if hit {
            return i;
        }
        assert(all.skip(i as int).drop_first() =~= all.skip(i + 1));
        i = i + 1;
    }
    i
}

/// What is to be unpacked from an archive with the given members.
pub fn plan_extraction(manifest: &Vec<PatchEntry>, members: &Vec<String>) -> (r: Result<
    Vec<StagedEntry>,
    ExtractError,
>)
    ensures
        r is Ok <==> absent_names(manifest@, texts(members@)).len() == 0,
        match r {
            Ok(staged) => stages(staged@, manifest@, texts(members@)),
            Err(e) => {
                let absent = absent_names(manifest@, texts(members@));
                &&& e is MissingPatches
                &&& e->missing_count == absent.len()
                &&& e->MissingPatches_summary@ == summary_of(absent)
            },
        },
{
    let mut staged: Vec<StagedEntry> = Vec::new();
    let mut missing: Vec<String> = Vec::new();
    let mut i: usize = 0;
    while i < manifest.len()
        invariant
            i <= manifest.len(),
            texts(missing@) == absent_names(manifest@.take(i as int), texts(members@)),
            missing@.len() == 0 ==> stages(staged@, manifest@.take(i as int), texts(members@)),
        decreases manifest.len() - i,
    {
        let ghost gone: Seq<Seq<char>> = texts(missing@);
        let name: &str = leaf_name(manifest[i].path.as_str());
        let at: usize = find_member(members, name);
        assert(manifest@.take(i + 1).drop_last() == manifest@.take(i as int));
        if at == members.len() {
            missing.push(name.to_owned());
            assert(texts(missing@) =~= gone.push(name@));
        } else {
            staged.push(
                StagedEntry { zip_index: at, leaf: name.to_owned(), size: manifest[i].size },
            );
        }
        i = i + 1;
    }
    assert(manifest@.take(manifest@.len() as int) == manifest@);
    if missing.len() > 0 {
        return Err(
            ExtractError::MissingPatches {
                missing_count: missing.len(),
                summary: join_names(&missing),
            },
        );
    }
    Ok(staged)
}

/// How the removal of a file or directory went.
#[derive(Debug, PartialEq, Eq)]
pub enum Removal {
    Removed,
    /// There was nothing to remove.
    NotFound,
    Failed(String),
}

/// What an extraction does next.
#[derive(Debug, Clone, Copy, PartialEq, Eq, Structural)]
pub enum ExtractStep {
    /// Remove the staging directory with all that is in it.
    ClearStaging,
    /// Create the staging directory.
    CreateStaging,
    /// Open the archive's file.
    OpenArchive,
    /// Read the archive's list of members.
    ReadArchive,
    /// Go on to the next patch file.
    NextFile,
    /// Open the archive member.
    OpenEntry,
    /// Create the file to unpack to.
    CreateFile,
    /// Go on to the next chunk.
    NextChunk,
    /// Read a chunk of the member.
    ReadChunk,
    /// Write the chunk that was read.
    WriteChunk,
    /// Remove the file that was begun.
    Discard,
    /// Nothing more.
    Finished,
}

/// The unpacking of the patch files into a staging directory.
#[derive(Debug)]
pub struct Extraction {
    pub step: ExtractStep,
    pub staging_dir: String,
    /// The patch files, once the archive was read.
    pub staged: Vec<StagedEntry>,
    /// How many of them are complete.
    pub at: usize,
    /// Why the extraction ended early.
    pub failure: Option<ExtractError>,
}

impl Extraction {
    /// Whether the step works on one patch file.
    pub open spec fn within_file(step: ExtractStep) -> bool {
        step == ExtractStep::OpenEntry || step == ExtractStep::CreateFile || step
            == ExtractStep::NextChunk || step == ExtractStep::ReadChunk || step
            == ExtractStep::WriteChunk || step == ExtractStep::Discard
    }

    /// An extraction that ends without a failure has staged every patch file.
    pub open spec fn wf(self) -> bool {
        &&& self.at <= self.staged@.len()
        &&& self.step == ExtractStep::ClearStaging || self.step == ExtractStep::CreateStaging
            || self.step == ExtractStep::OpenArchive || self.step == ExtractStep::ReadArchive
            ==> self.staged@.len() == 0
        &&& Self::within_file(self.step) ==> self.at < self.staged@.len()
        &&& self.failure is Some ==> self.step == ExtractStep::Finished
        &&& self.step == ExtractStep::Finished && self.failure is None ==> self.at
            == self.staged@.len()
    }

    /// Whether only the step differs.
    pub open spec fn moved(self, from: Extraction, step: ExtractStep) -> bool {
        &&& self.step == step
        &&& self.staging_dir == from.staging_dir
        &&& self.staged == from.staged
        &&& self.at == from.at
        &&& self.failure == from.failure
    }

    /// Whether the extraction has ended here with a failure.
    pub open spec fn failed(self, from: Extraction) -> bool {
        &&& self.step == ExtractStep::Finished
        &&& self.staging_dir == from.staging_dir
        &&& self.staged == from.staged
        &&& self.at == from.at
        &&& self.failure is Some
    }

    /// Begins to unpack the archive at `zip_path`; `is_file` says whether there is a file.
    pub fn begin(zip_path: &str, is_file: bool, staging_dir: &str) -> (r: Extraction)
        ensures
            r.wf(),
            r.staging_dir@ == staging_dir@,
            r.staged@.len() == 0,
            r.at == 0,
            is_file ==> r.step == ExtractStep::ClearStaging && r.failure is None,
            !is_file ==> {
                &&& r.step == ExtractStep::Finished
                &&& r.failure is Some
                &&& r.failure->0 is NotAZip
                &&& r.failure->0->NotAZip_0@ == zip_path@
            },
    {
        Extraction {
            step: if is_file {
                ExtractStep::ClearStaging
            } else {
                ExtractStep::Finished
            },
            staging_dir: staging_dir.to_owned(),
            staged: Vec::new(),
            at: 0,
            failure: if is_file {
                None
            } else {
                Some(ExtractError::NotAZip(zip_path.to_owned()))
            },
        }
    }

    fn fail(&mut self, e: ExtractError)
        requires
            old(self).wf(),
        ensures
            final(self).wf(),
            final(self).failed(*old(self)),
            final(self).failure->0 == e,
    {
        self.step = ExtractStep::Finished;
        self.failure = Some(e);
    }

    /// The outcome of an action, with the text of the error where it failed.
    fn follow(&mut self, outcome: Result<(), String>, context: &str, next: ExtractStep)
        requires
            old(self).wf(),
            old(self).failure is None,
            next != ExtractStep::Finished,
            !Self::within_file(next) ==> old(self).staged@.len() == 0,
            Self::within_file(next) ==> old(self).at < old(self).staged@.len(),
        ensures
            final(self).wf(),
            match outcome {
                Ok(_) => final(self).moved(*old(self), next),
                Err(e) => final(self).failed(*old(self)) && final(self).failure->0.is_io(
                    context@,
                    e@,
                ),
            },
    {
        match outcome {
            Ok(_) => {
                self.step = next;
            },
            Err(e) => {
                self.fail(ExtractError::io(context, e.as_str()));
            },
        }
    }

    /// The staging directory was removed, or was not there.
    pub fn cleared(&mut self, outcome: Removal)
        requires
            old(self).wf(),
            old(self).step == ExtractStep::ClearStaging,
        ensures
            final(self).wf(),
            match outcome {
                Removal::Failed(e) => final(self).failed(*old(self))
                    && final(self).failure->0.is_io("clearing the staging directory"@, e@),
                _ => final(self).moved(*old(self), ExtractStep::CreateStaging),
            },
    {
        let outcome: Result<(), String> = match outcome {
            Removal::Failed(e) => Err(e),
            _ => Ok(()),
        };
        self.follow(outcome, "clearing the staging directory", ExtractStep::CreateStaging);
    }

    /// The staging directory was created.
    pub fn created(&mut self, outcome: Result<(), String>)
        requires
            old(self).wf(),
            old(self).step == ExtractStep::CreateStaging,
        ensures
            final(self).wf(),
            match outcome {
                Ok(_) => final(self).moved(*old(self), ExtractStep::OpenArchive),
                Err(e) => final(self).failed(*old(self)) && final(self).failure->0.is_io(
                    "creating the staging directory"@,
                    e@,
                ),
            },
    {
        self.follow(outcome, "creating the staging directory", ExtractStep::OpenArchive);
    }

    /// The archive's file was opened.
    pub fn opened(&mut self, outcome: Result<(), String>)
        requires
            old(self).wf(),
            old(self).step == ExtractStep::OpenArchive,
        ensures
            final(self).wf(),
            match outcome {
                Ok(_) => final(self).moved(*old(self), ExtractStep::ReadArchive),
                Err(e) => final(self).failed(*old(self)) && final(self).failure->0.is_io(
                    "opening the patch archive"@,
                    e@,
                ),
            },
    {
        self.follow(outcome, "opening the patch archive", ExtractStep::ReadArchive);
    }

    /// The archive's members were listed.
    pub fn members_read(
        &mut self,
        manifest: &Vec<PatchEntry>,
        members: Result<Vec<String>, String>,
    )
        requires
            old(self).wf(),
            old(self).step == ExtractStep::ReadArchive,
        ensures
            final(self).wf(),
            match members {
                Ok(names) => {
                    let absent = absent_names(manifest@, texts(names@));
                    if absent.len() == 0 {
                        &&& final(self).step == ExtractStep::NextFile
                        &&& final(self).staging_dir == old(self).staging_dir
                        &&& stages(final(self).staged@, manifest@, texts(names@))
                        &&& final(self).at == 0
                        &&& final(self).failure is None
                    } else {
                        &&& final(self).failed(*old(self))
                        &&& final(self).failure->0 is MissingPatches
                        &&& final(self).failure->0->missing_count == absent.len()
                        &&& final(self).failure->0->MissingPatches_summary@ == summary_of(absent)
                    }
                },
                Err(e) => {
                    &&& final(self).failed(*old(self))
                    &&& final(self).failure->0 is Zip
                    &&& final(self).failure->0->Zip_0@ == e@
                },
            },
    {
        match members {
            Ok(names) => match plan_extraction(manifest, &names) {
                Ok(staged) => {
                    self.staged = staged;
                    self.step = ExtractStep::NextFile;
                },
                Err(e) => {
                    self.fail(e);
                },
            },
            Err(e) => {
                self.fail(ExtractError::Zip(e));
            },
        }
    }

    /// Goes on to the next patch file, unless all are staged or the run was asked to stop.
    pub fn next_file(&mut self, shared: &mut PatcherShared)
        requires
            old(self).wf(),
            old(self).step == ExtractStep::NextFile,
        ensures
            final(self).wf(),
            final(shared).keeps_request(*old(shared)),
            if old(self).at == old(self).staged@.len() {
                &&& final(self).moved(*old(self), ExtractStep::Finished)
                &&& *final(shared) == *old(shared)
            } else if old(shared).transfer.cancel_flag {
                &&& final(self).failed(*old(self))
                &&& final(self).failure->0 is Cancelled
                &&& *final(shared) == *old(shared)
            } else {
                &&& final(self).moved(*old(self), ExtractStep::OpenEntry)
                &&& final(shared).file_idx == old(self).at
                &&& final(shared).begun(*old(shared))
            },
    {
        if self.at == self.staged.len() {
            self.step = ExtractStep::Finished;
        } else if shared.is_cancel_requested() {
            self.fail(ExtractError::Cancelled);
        } else {
            shared.begin_file(self.at);
            self.step = ExtractStep::OpenEntry;
        }
    }

    /// The place in the archive of the member that is being unpacked.
    pub fn zip_index(&self) -> (r: usize)
        requires
            self.at < self.staged@.len(),
        ensures
            r == self.staged@[self.at as int].zip_index,
    {
        self.staged[self.at].zip_index
    }

    /// The path of the file that is being unpacked to.
    pub fn target(&self) -> (r: String)
        requires
            self.at < self.staged@.len(),
        ensures
            r@ == below(self.staging_dir@, self.staged@[self.at as int].leaf@),
    {
        join_path(self.staging_dir.as_str(), self.staged[self.at].leaf.as_str())
    }

    /// The archive member was opened.
    pub fn entry_opened(&mut self, outcome: Result<(), String>)
        requires
            old(self).wf(),
            old(self).step == ExtractStep::OpenEntry,
        ensures
            final(self).wf(),
            match outcome {
                Ok(_) => final(self).moved(*old(self), ExtractStep::CreateFile),
                Err(e) => {
                    &&& final(self).failed(*old(self))
                    &&& final(self).failure->0 is Zip
                    &&& final(self).failure->0->Zip_0@ == e@
                },
            },
    {
        match outcome {
            Ok(_) => {
                self.step = ExtractStep::CreateFile;
            },
            Err(e) => {
                self.fail(ExtractError::Zip(e));
            },
        }
    }

    /// The file to unpack to was created.
    pub fn file_created(&mut self, outcome: Result<(), String>)
        requires
            old(self).wf(),
            old(self).step == ExtractStep::CreateFile,
        ensures
            final(self).wf(),
            match outcome {
                Ok(_) => final(self).moved(*old(self), ExtractStep::NextChunk),
                Err(e) => final(self).failed(*old(self)) && final(self).failure->0.is_io(
                    "creating a staged patch file"@,
                    e@,
                ),
            },
    {
        self.follow(outcome, "creating a staged patch file", ExtractStep::NextChunk);
    }

    /// Goes on to the next chunk, unless the run was asked to stop.
    pub fn next_chunk(&mut self, shared: &PatcherShared)
        requires
            old(self).wf(),
            old(self).step == ExtractStep::NextChunk,
        ensures
            final(self).wf(),
            final(self).moved(
                *old(self),
                if shared.transfer.cancel_flag {
                    ExtractStep::Discard
                } else {
                    ExtractStep::ReadChunk
                },
            ),
    {
        self.step = if shared.is_cancel_requested() {
            ExtractStep::Discard
        } else {
            ExtractStep::ReadChunk
        };
    }

    /// The file that was begun was removed, as far as that could be done.
    pub fn discarded(&mut self)
        requires
            old(self).wf(),
            old(self).step == ExtractStep::Discard,
        ensures
            final(self).wf(),
            final(self).failed(*old(self)),
            final(self).failure->0 is Cancelled,
    {
        self.fail(ExtractError::Cancelled);
    }

    /// A chunk of the given length was read; the member ends with one of length zero.
    pub fn chunk_read(&mut self, shared: &mut PatcherShared, outcome: Result<u64, String>)
        requires
            old(self).wf(),
            old(self).step == ExtractStep::ReadChunk,
        ensures
            final(self).wf(),
            final(shared).keeps_request(*old(shared)),
            match outcome {
                Ok(length) => if length == 0 {
                    &&& final(self).step == ExtractStep::NextFile
                    &&& final(self).staging_dir == old(self).staging_dir
                    &&& final(self).staged == old(self).staged
                    &&& final(self).at == old(self).at + 1
                    &&& final(self).failure is None
                    &&& final(shared).completed(
                        *old(shared),
                        old(self).staged@[old(self).at as int].size,
                    )
                } else {
                    &&& final(self).moved(*old(self), ExtractStep::WriteChunk)
                    &&& *final(shared) == *old(shared)
                },
                Err(e) => {
                    &&& final(self).failed(*old(self))
                    &&& final(self).failure->0.is_io("reading a patch entry from the archive"@, e@)
                    &&& *final(shared) == *old(shared)
                },
            },
    {
        match outcome {
            Ok(length) => {
                if length == 0 {
                    assert(self.at < self.staged.len());
                    shared.complete_file(self.staged[self.at].size);
                    self.at = self.at + 1;
                    self.step = ExtractStep::NextFile;
                } else {
                    self.step = ExtractStep::WriteChunk;
                }
            },
            Err(e) => {
                self.fail(ExtractError::io("reading a patch entry from the archive", e.as_str()));
            },
        }
    }

    /// The chunk of the given length was written.
    pub fn chunk_written(
        &mut self,
        shared: &mut PatcherShared,
        length: u64,
        outcome: Result<(), String>,
    )
        requires
            old(self).wf(),
            old(self).step == ExtractStep::WriteChunk,
        ensures
            final(self).wf(),
            final(shared).keeps_request(*old(shared)),
            match outcome {
                Ok(_) => {
                    &&& final(self).moved(*old(self), ExtractStep::NextChunk)
                    &&& final(shared).counted(*old(shared), length)
                },
                Err(e) => {
                    &&& final(self).failed(*old(self))
                    &&& final(self).failure->0.is_io("writing a staged patch file"@, e@)
                    &&& *final(shared) == *old(shared)
                },
            },
    {
        if outcome.is_ok() {
            shared.count_bytes(length);
        }
        self.follow(outcome, "writing a staged patch file", ExtractStep::NextChunk);
    }
}

/// An extraction that ends without a failure has staged a file for each manifest entry.
pub proof fn law_finished_extraction_is_complete(
    extraction: Extraction,
    manifest: Seq<PatchEntry>,
    members: Seq<Seq<char>>,
)
    requires
        extraction.wf(),
        stages(extraction.staged@, manifest, members),
        extraction.step == ExtractStep::Finished,
        extraction.failure is None,
    ensures
        extraction.at == manifest.len(),
{
}

/// The files hold every patch exactly where a plan can be made of them.
pub proof fn law_complete_files_give_a_plan(manifest: Seq<PatchEntry>, files: Seq<DirItem>)
    ensures
        holds_every_patch(manifest, files) <==> missing_names(manifest, files).len() == 0,
    decreases manifest.len(),
{
    if manifest.len() > 0 {
        let front = manifest.drop_last();
        law_complete_files_give_a_plan(front, files);
        lemma_first_patch_exists(files, leaf(manifest.last().path@));
        if holds_every_patch(manifest, files) {
            assert forall|i: int| 0 <= i < front.len() implies holds_patch(
                files,
                leaf((#[trigger] front[i]).path@),
            ) by {
                assert(front[i] == manifest[i]);
            }
            assert(manifest[manifest.len() - 1] == manifest.last());
        }
        if missing_names(manifest, files).len() == 0 {
            assert forall|i: int| 0 <= i < manifest.len() implies holds_patch(
                files,
                leaf((#[trigger] manifest[i]).path@),
            ) by {
                if i < front.len() {
                    assert(front[i] == manifest[i]);
                }
            }
        }
    }
}

/// A directory in which a search has found every patch gives a plan: what the search found, the
/// scan of the same tree of directories and regular files finds too.
pub proof fn law_a_patch_dir_gives_a_plan(
    manifest: Seq<PatchEntry>,
    tree: Tree,
    dir: Seq<char>,
    scan: PatchSourceWalk,
)
    requires
        scan.wf(),
        scan.waiting().len() == 0,
        scan.on_tree(tree, dir),
        scan.holds_only_files_and_directories(),
        holds_every_patch(manifest, files_within(tree, tree(dir), 0)),
    ensures
        missing_names(manifest, files_read(scan.listings())).len() == 0,
{
    let found = files_within(tree, tree(dir), 0);
    let files = files_read(scan.listings());
    assert forall|i: int| 0 <= i < manifest.len() implies holds_patch(
        files,
        leaf((#[trigger] manifest[i]).path@),
    ) by {
        let name = leaf(manifest[i].path@);
        assert(holds_patch(found, name));
        let j = choose|j: int|
            0 <= j < found.len() && is_patch_named((#[trigger] found[j]).path@, name);
        law_source_walk_finds_what_a_storage_walk_finds(tree, dir, scan, found[j]);
        let m = choose|m: int| 0 <= m < files.len() && files[m] == found[j];
        assert(is_patch_named(files[m].path@, name));
    }
    law_complete_files_give_a_plan(manifest, files);
}

/// An archive is told by its extension in any case, and the archive by its whole name in any case.
pub proof fn law_archives_are_told_by_their_names(
    dir: Seq<char>,
    stem: Seq<char>,
    ext: Seq<char>,
    name: Seq<char>,
)
    requires
        crate::path_text::is_plain(stem),
        !ext.contains('/'),
        !ext.contains('.'),
        ext.len() > 0,
        crate::path_text::is_plain(name),
        name != seq!['.'],
        name != seq!['.', '.'],
    ensures
        is_zip(below(dir, stem + seq!['.'] + ext)) <==> same_ignoring_case(ext, "zip"@),
        is_archive(below(dir, name)) <==> same_ignoring_case(name, "ffxiv_patches.zip"@),
{
    let whole = stem + seq!['.'] + ext;
    assert(whole.len() > 2);
    crate::path_text::law_extension_stands_behind_the_last_dot(dir, stem, ext);
    crate::path_text::law_joined_name(dir, name);
}

/// The archives among the files, lot by lot: their paths, in their order, and no others.
pub proof fn law_zip_files_lot_by_lot(a: Seq<DirItem>, b: Seq<DirItem>, item: DirItem)
    ensures
        zip_paths(a + b) == zip_paths(a) + zip_paths(b),
        zip_paths(seq![item]) == if is_zip(item.path@) {
            seq![item.path@]
        } else {
            Seq::empty()
        },
        zip_paths(Seq::empty()) == Seq::<Seq<char>>::empty(),
    decreases b.len(),
{
    if b.len() == 0 {
        assert(a + b =~= a);
        assert(zip_paths(a + b) =~= zip_paths(a) + zip_paths(b));
    } else {
        assert((a + b).drop_last() =~= a + b.drop_last());
        law_zip_files_lot_by_lot(a, b.drop_last(), item);
        assert(zip_paths(a + b) =~= zip_paths(a) + zip_paths(b));
    }
    assert(seq![item].drop_last() =~= Seq::<DirItem>::empty());
    assert(zip_paths(Seq::empty()) =~= Seq::<Seq<char>>::empty());
    assert(zip_paths(seq![item]) =~= if is_zip(item.path@) {
        seq![item.path@]
    } else {
        Seq::empty()
    });
}

/// Of the archives the first with the right name is taken; where none has it, the only one, and of
/// several none.
pub proof fn law_which_archive_is_taken(zips: Seq<Seq<char>>, k: int)
    requires
        0 <= k <= zips.len(),
        forall|i: int| 0 <= i < k ==> !is_archive(#[trigger] zips[i]),
        k < zips.len() ==> is_archive(zips[k]),
    ensures
        k < zips.len() ==> archive_among(zips) == Some(zips[k]),
        k == zips.len() && zips.len() == 1 ==> archive_among(zips) == Some(zips[0]),
        k == zips.len() && zips.len() != 1 ==> archive_among(zips) is None,
{
    lemma_first_archive(zips, k);
}

proof fn lemma_first_archive(zips: Seq<Seq<char>>, k: int)
    requires
        0 <= k <= zips.len(),
        forall|i: int| 0 <= i < k ==> !is_archive(#[trigger] zips[i]),
        k < zips.len() ==> is_archive(zips[k]),
    ensures
        first_archive(zips) == if k < zips.len() {
            Some(zips[k])
        } else {
            None
        },
    decreases zips.len(),
{
    if k > 0 {
        assert(!is_archive(zips[0]));
        let rest = zips.drop_first();
        assert forall|i: int| 0 <= i < k - 1 implies !is_archive(#[trigger] rest[i]) by {
            assert(rest[i] == zips[i + 1]);
        }
        lemma_first_archive(rest, k - 1);
    }
}

/// Every patch is there exactly where each entry of the manifest has a file of its name, whatever
/// other files there are.
pub proof fn law_when_every_patch_is_there(manifest: Seq<PatchEntry>, files: Seq<DirItem>, more: Seq<DirItem>)
    ensures
        holds_every_patch(manifest, files) <==> forall|i: int|
            0 <= i < manifest.len() ==> exists|j: int|
                0 <= j < files.len() && is_patch_named(
                    (#[trigger] files[j]).path@,
                    leaf((#[trigger] manifest[i]).path@),
                ),
        holds_every_patch(manifest, files) ==> holds_every_patch(manifest, files + more)
            && holds_every_patch(manifest, more + files),
        holds_every_patch(manifest, files) <==> missing_names(manifest, files).len() == 0,
{
    if holds_every_patch(manifest, files) {
        assert forall|i: int| 0 <= i < manifest.len() implies holds_patch(
            files + more,
            leaf((#[trigger] manifest[i]).path@),
        ) && holds_patch(more + files, leaf(manifest[i].path@)) by {
            let name = leaf(manifest[i].path@);
            assert(holds_patch(files, name));
            let j = choose|j: int|
                0 <= j < files.len() && is_patch_named((#[trigger] files[j]).path@, name);
            assert((files + more)[j] == files[j]);
            assert((more + files)[more.len() + j] == files[j]);
        }
    }
    if forall|i: int|
        0 <= i < manifest.len() ==> exists|j: int|
            0 <= j < files.len() && is_patch_named(
                (#[trigger] files[j]).path@,
                leaf((#[trigger] manifest[i]).path@),
            ) {
        assert forall|i: int| 0 <= i < manifest.len() implies holds_patch(
            files,
            leaf((#[trigger] manifest[i]).path@),
        ) by {}
    }
    if holds_every_patch(manifest, files) {
        assert forall|i: int| 0 <= i < manifest.len() implies exists|j: int|
            0 <= j < files.len() && is_patch_named(
                (#[trigger] files[j]).path@,
                leaf((#[trigger] manifest[i]).path@),
            ) by {
            assert(holds_patch(files, leaf(manifest[i].path@)));
        }
    }
    lemma_none_missing_when_held(manifest, files);
}

proof fn lemma_none_missing_when_held(manifest: Seq<PatchEntry>, files: Seq<DirItem>)
    ensures
        holds_every_patch(manifest, files) <==> missing_names(manifest, files).len() == 0,
    decreases manifest.len(),
{
    if manifest.len() > 0 {
        let front = manifest.drop_last();
        lemma_none_missing_when_held(front, files);
        let name = leaf(manifest.last().path@);
        lemma_first_patch_exists(files, name);
        if holds_every_patch(manifest, files) {
            assert forall|i: int| 0 <= i < front.len() implies holds_patch(
                files,
                leaf((#[trigger] front[i]).path@),
            ) by {
                assert(front[i] == manifest[i]);
            }
            assert(holds_patch(files, leaf(manifest[manifest.len() - 1].path@)));
        }
        if holds_every_patch(front, files) && holds_patch(files, name) {
            assert forall|i: int| 0 <= i < manifest.len() implies holds_patch(
                files,
                leaf((#[trigger] manifest[i]).path@),
            ) by {
                if i < front.len() {
                    assert(front[i] == manifest[i]);
                }
            }
        }
    }
}

/// The member of an archive for a name is the first with that file name.
pub proof fn law_the_first_member_is_taken(members: Seq<Seq<char>>, name: Seq<char>, k: int)
    requires
        0 <= k <= members.len(),
        forall|i: int| 0 <= i < k ==> name_of(#[trigger] members[i]) != Some(name),
        k < members.len() ==> name_of(members[k]) == Some(name),
    ensures
        member_index(members, name) == k,
    decreases members.len(),
{
    if k > 0 {
        assert(name_of(members[0]) != Some(name));
        let rest = members.drop_first();
        assert forall|i: int| 0 <= i < k - 1 implies name_of(#[trigger] rest[i]) != Some(name) by {
            assert(rest[i] == members[i + 1]);
        }
        if k < members.len() {
            assert(rest[k - 1] == members[k]);
        }
        law_the_first_member_is_taken(rest, name, k - 1);
    }
}

/// The names that an archive lacks, entry by entry: the name of an entry that no member has.
pub proof fn law_absent_names_entry_by_entry(
    a: Seq<PatchEntry>,
    b: Seq<PatchEntry>,
    entry: PatchEntry,
    members: Seq<Seq<char>>,
)
    ensures
        absent_names(a + b, members) == absent_names(a, members) + absent_names(b, members),
        absent_names(Seq::empty(), members) == Seq::<Seq<char>>::empty(),
        (exists|j: int|
            0 <= j < members.len() && name_of(#[trigger] members[j]) == Some(leaf(entry.path@)))
            ==> absent_names(seq![entry], members) == Seq::<Seq<char>>::empty(),
        (forall|j: int|
            0 <= j < members.len() ==> name_of(#[trigger] members[j]) != Some(leaf(entry.path@)))
            ==> absent_names(seq![entry], members) == seq![leaf(entry.path@)],
    decreases b.len(),
{
    if b.len() == 0 {
        assert(a + b =~= a);
        assert(absent_names(a + b, members) =~= absent_names(a, members) + absent_names(
            b,
            members,
        ));
    } else {
        assert((a + b).drop_last() =~= a + b.drop_last());
        law_absent_names_entry_by_entry(a, b.drop_last(), entry, members);
        assert(absent_names(a + b, members) =~= absent_names(a, members) + absent_names(
            b,
            members,
        ));
    }
    let one = seq![entry];
    let name = leaf(entry.path@);
    assert(one.drop_last() =~= Seq::<PatchEntry>::empty());
    assert(absent_names(one.drop_last(), members) =~= Seq::<Seq<char>>::empty());
    assert(Seq::<Seq<char>>::empty().push(name) =~= seq![name]);
    if exists|j: int| 0 <= j < members.len() && name_of(#[trigger] members[j]) == Some(name) {
        let j = choose|j: int| 0 <= j < members.len() && name_of(#[trigger] members[j]) == Some(name);
        lemma_member_is_found(members, name, j);
    } else {
        law_the_first_member_is_taken(members, name, members.len() as int);
    }
}

proof fn lemma_member_is_found(members: Seq<Seq<char>>, name: Seq<char>, j: int)
    requires
        0 <= j < members.len(),
        name_of(members[j]) == Some(name),
    ensures
        0 <= member_index(members, name) <= j,
    decreases members.len(),
{
    if name_of(members[0]) != Some(name) {
        assert(members.drop_first()[j - 1] == members[j]);
        lemma_member_is_found(members.drop_first(), name, j - 1);
    }
}

/// What is staged: for each entry of the manifest, in its order, the first member of its name, to
/// be unpacked under that name.
pub proof fn law_what_is_staged(
    staged: Seq<StagedEntry>,
    manifest: Seq<PatchEntry>,
    members: Seq<Seq<char>>,
    i: int,
    k: int,
)
    requires
        stages(staged, manifest, members),
        0 <= i < manifest.len(),
        0 <= k < members.len(),
        name_of(members[k]) == Some(leaf(manifest[i].path@)),
        forall|j: int| 0 <= j < k ==> name_of(#[trigger] members[j]) != Some(leaf(manifest[i].path@)),
    ensures
        staged.len() == manifest.len(),
        staged[i].zip_index == k,
        staged[i].leaf@ == leaf(manifest[i].path@),
        staged[i].size == manifest[i].size,
{
    law_the_first_member_is_taken(members, leaf(manifest[i].path@), k);
    assert(staged[i].leaf@ == leaf(manifest[i].path@));
}

/// What is said of a failed extraction.
pub proof fn law_extract_errors_are_told(a: String, b: String, count: usize)
    ensures
        ExtractError::NotAZip(a).text() == "patch archive is not a file: "@ + a@,
        (ExtractError::Io { context: a, source: b }).text() == "i/o error while "@ + a@ + ": "@ + b@,
        ExtractError::Zip(a).text() == "could not read the patch archive: "@ + a@,
        (ExtractError::MissingPatches { missing_count: count, summary: a }).text() == decimal(
            count as nat,
        ) + " patch file(s) not found in the archive: "@ + a@,
        ExtractError::Cancelled.text() == "extraction was cancelled"@,
        forall|e: ExtractError, doing: Seq<char>, cause: Seq<char>| #[trigger]
            e.is_io(doing, cause) ==> e.text() == "i/o error while "@ + doing + ": "@ + cause,
{
}

/// A step of an extraction, or its failure, leaves alone what was staged.
pub proof fn law_steps_keep_what_was_staged(
    moved: Extraction,
    failed: Extraction,
    from: Extraction,
    step: ExtractStep,
)
    requires
        moved.moved(from, step),
        failed.failed(from),
    ensures
        moved.step == step && moved.failure == from.failure,
        failed.step == ExtractStep::Finished && failed.failure is Some,
        moved.staged == from.staged && failed.staged == from.staged,
        moved.at == from.at && failed.at == from.at,
        moved.staging_dir == from.staging_dir && failed.staging_dir == from.staging_dir,
{
}

/// Each staged member is in the archive, and has the name that it is unpacked under.
pub proof fn law_staged_members_have_the_names(
    staged: Seq<StagedEntry>,
    manifest: Seq<PatchEntry>,
    members: Seq<Seq<char>>,
    i: int,
)
    requires
        stages(staged, manifest, members),
        0 <= i < manifest.len(),
    ensures
        staged[i].zip_index < members.len(),
        name_of(members[staged[i].zip_index as int]) == Some(staged[i].leaf@),
{
    assert(staged[i].zip_index < members.len());
    lemma_member_at_index(members, leaf(manifest[i].path@));
}

proof fn lemma_member_at_index(members: Seq<Seq<char>>, name: Seq<char>)
    ensures
        0 <= member_index(members, name) <= members.len(),
        member_index(members, name) < members.len() ==> name_of(
            members[member_index(members, name)],
        ) == Some(name),
    decreases members.len(),
{
    if members.len() > 0 && name_of(members.first()) != Some(name) {
        lemma_member_at_index(members.drop_first(), name);
    }
}

/// However a path is written, it is an archive or not by its name.
pub proof fn law_an_archive_however_written(a: Seq<char>, b: Seq<char>)
    ensures
        crate::path_text::same_path(a, b) ==> is_zip(a) == is_zip(b) && is_archive(a) == is_archive(
            b,
        ),
        is_zip(a) <==> extension_of(a) is Some && same_ignoring_case(extension_of(a)->0, "zip"@),
        is_archive(a) <==> name_of(a) is Some && same_ignoring_case(
            name_of(a)->0,
            "ffxiv_patches.zip"@,
        ),
{
}

} // verus!

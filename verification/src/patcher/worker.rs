//! The run that checks the patch files and applies them, and what it reports.

use vstd::prelude::*;
use crate::text::texts;
use super::manifest::{size_sum, total_bytes, PatchEntry};
use super::progress::TransferProgress;

verus! {

/// Where the patch files come from.
#[derive(Debug, PartialEq, Eq)]
pub enum PatchSource {
    /// A directory with the patch files in it.
    Local { source_dir: String },
    /// An archive from which the patch files are unpacked first.
    LocalZip { zip_path: String },
}

/// What a run is doing.
#[derive(Debug, Clone, Copy, PartialEq, Eq, Structural)]
pub enum Phase {
    Starting,
    Patching,
    Done,
    Error,
    Cancelled,
    Validating,
    Extracting,
}

impl Phase {
    /// The number that a phase is kept as.
    pub open spec fn code(self) -> u8 {
        match self {
            Phase::Starting => 0,
            Phase::Patching => 2,
            Phase::Done => 3,
            Phase::Error => 4,
            Phase::Cancelled => 5,
            Phase::Validating => 6,
            Phase::Extracting => 7,
        }
    }

    /// Whether nothing follows this phase.
    pub open spec fn ends_run(self) -> bool {
        self == Phase::Done || self == Phase::Error || self == Phase::Cancelled
    }

    /// The number that the phase is kept as; see [`Phase::code`].
    pub fn as_u8(self) -> (r: u8)
        ensures
            r == self.code(),
    {
        match self {
            Phase::Starting => 0,
            Phase::Patching => 2,
            Phase::Done => 3,
            Phase::Error => 4,
            Phase::Cancelled => 5,
            Phase::Validating => 6,
            Phase::Extracting => 7,
        }
    }

    /// The phase with the given number, and `Starting` for a number that no phase has.
    pub fn from_u8(value: u8) -> (r: Phase)
        ensures
            r == phase_of(value),
    {
        match value {
            2 => Phase::Patching,
            3 => Phase::Done,
            4 => Phase::Error,
            5 => Phase::Cancelled,
            6 => Phase::Validating,
            7 => Phase::Extracting,
            _ => Phase::Starting,
        }
    }
}

/// The phase whose number is `value`, and `Starting` where there is none.
pub open spec fn phase_of(value: u8) -> Phase {
    match value {
        2 => Phase::Patching,
        3 => Phase::Done,
        4 => Phase::Error,
        5 => Phase::Cancelled,
        6 => Phase::Validating,
        7 => Phase::Extracting,
        _ => Phase::Starting,
    }
}

/// A phase is told by its number.
pub proof fn law_phase_round_trip(phase: Phase)
    ensures
        phase_of(phase.code()) == phase,
{
}

/// What a run reports while it goes on.
#[derive(Debug)]
pub struct PatcherShared {
    pub transfer: TransferProgress,
    pub file_idx: usize,
    pub previous_completed_bytes: u64,
    pub patch_idx: usize,
    pub phase: u8,
    pub error_message: Option<String>,
    pub warnings: Vec<String>,
    pub total_source_bytes: u64,
    pub total_patches: usize,
}

/// What can happen to the report of a run.
pub enum Change {
    CancelRequested,
    FileBegun(usize),
    BytesCounted(u64),
    FileCompleted(u64),
    PhaseSet(Phase),
    ErrorSet(Seq<char>),
    WarningPushed(Seq<char>),
    /// A step of the run, or of the extraction before it.
    RunStep,
}

impl PatcherShared {
    /// Whether the counters and the cancel flag are those of `other`.
    pub open spec fn same_progress(self, other: PatcherShared) -> bool {
        &&& self.transfer == other.transfer
        &&& self.file_idx == other.file_idx
        &&& self.previous_completed_bytes == other.previous_completed_bytes
        &&& self.patch_idx == other.patch_idx
        &&& self.total_source_bytes == other.total_source_bytes
        &&& self.total_patches == other.total_patches
    }

    /// Whether phase, error and warnings are those of `other`.
    pub open spec fn same_report(self, other: PatcherShared) -> bool {
        &&& self.phase == other.phase
        &&& self.error_message == other.error_message
        &&& self.warnings == other.warnings
    }

    /// The report of a run over the given manifest that has not begun.
    pub fn new(manifest: &Vec<PatchEntry>) -> (r: PatcherShared)
        requires
            size_sum(manifest@) <= u64::MAX,
        ensures
            r.transfer.bytes_transferred == 0,
            !r.transfer.cancel_flag,
            r.file_idx == 0,
            r.previous_completed_bytes == 0,
            r.patch_idx == 0,
            r.phase == Phase::Starting.code(),
            r.error_message is None,
            r.warnings@.len() == 0,
            r.total_source_bytes == size_sum(manifest@),
            r.total_patches == manifest@.len(),
    {
        PatcherShared {
            transfer: TransferProgress::new(),
            file_idx: 0,
            previous_completed_bytes: 0,
            patch_idx: 0,
            phase: Phase::Starting.as_u8(),
            error_message: None,
            warnings: Vec::new(),
            total_source_bytes: total_bytes(manifest),
            total_patches: manifest.len(),
        }
    }

    pub fn phase(&self) -> (r: Phase)
        ensures
            r == phase_of(self.phase),
    {
        Phase::from_u8(self.phase)
    }

    pub fn error(&self) -> (r: Option<String>)
        ensures
            r == self.error_message,
    {
        match &self.error_message {
            Some(message) => Some(message.clone()),
            None => None,
        }
    }

    pub fn warnings(&self) -> (r: Vec<String>)
        ensures
            texts(r@) == texts(self.warnings@),
    {
        let out: Vec<String> = crate::text::first_strings(&self.warnings, self.warnings.len());
        assert(texts(self.warnings@).take(self.warnings@.len() as int) =~= texts(self.warnings@));
        out
    }

    /// Whether the run was asked to stop, and nothing else differs from `old`.
    pub open spec fn cancelled(self, old: PatcherShared) -> bool {
        &&& self.transfer.cancelled(old.transfer)
        &&& self.file_idx == old.file_idx
        &&& self.previous_completed_bytes == old.previous_completed_bytes
        &&& self.patch_idx == old.patch_idx
        &&& self.total_source_bytes == old.total_source_bytes
        &&& self.total_patches == old.total_patches
        &&& self.same_report(old)
    }

    /// Whether a run that was asked to stop, by the report `old`, still is, and no other is.
    pub open spec fn keeps_request(self, old: PatcherShared) -> bool {
        self.transfer.cancel_flag == old.transfer.cancel_flag
    }

    /// Asks for the run to stop.
    pub fn request_cancel(&mut self)
        ensures
            final(self).cancelled(*old(self)),
    {
        self.transfer.cancel();
    }

    pub fn is_cancel_requested(&self) -> (r: bool)
        ensures
            r == self.transfer.cancel_flag,
    {
        self.transfer.is_cancelled()
    }

    /// Whether the run is over.
    pub fn is_terminal(&self) -> (r: bool)
        ensures
            r == phase_of(self.phase).ends_run(),
    {
        match self.phase() {
            Phase::Done | Phase::Error | Phase::Cancelled => true,
            _ => false,
        }
    }

    /// Whether only the byte counter differs from `old`, by `length` bytes more.
    pub open spec fn counted(self, old: PatcherShared, length: u64) -> bool {
        &&& self.transfer.bytes_transferred == (old.transfer.bytes_transferred + length)
            % 0x1_0000_0000_0000_0000
        &&& self.transfer.cancel_flag == old.transfer.cancel_flag
        &&& self.file_idx == old.file_idx
        &&& self.previous_completed_bytes == old.previous_completed_bytes
        &&& self.patch_idx == old.patch_idx
        &&& self.total_source_bytes == old.total_source_bytes
        &&& self.total_patches == old.total_patches
        &&& self.same_report(old)
    }

    /// Whether only the count of completed bytes differs from `old`, by `size` bytes more.
    pub open spec fn completed(self, old: PatcherShared, size: u64) -> bool {
        &&& self.previous_completed_bytes == (old.previous_completed_bytes + size)
            % 0x1_0000_0000_0000_0000
        &&& self.transfer == old.transfer
        &&& self.file_idx == old.file_idx
        &&& self.patch_idx == old.patch_idx
        &&& self.total_source_bytes == old.total_source_bytes
        &&& self.total_patches == old.total_patches
        &&& self.same_report(old)
    }

    /// Whether a file was begun: its number is set, its byte counter is zero, and the rest is
    /// that of `old`.
    pub open spec fn begun(self, old: PatcherShared) -> bool {
        &&& self.transfer.bytes_transferred == 0
        &&& self.transfer.cancel_flag == old.transfer.cancel_flag
        &&& self.previous_completed_bytes == old.previous_completed_bytes
        &&& self.patch_idx == old.patch_idx
        &&& self.total_source_bytes == old.total_source_bytes
        &&& self.total_patches == old.total_patches
        &&& self.same_report(old)
    }

    /// Whether only the phase differs from `old`.
    pub open spec fn phased(self, old: PatcherShared, phase: Phase) -> bool {
        &&& self.phase == phase.code()
        &&& self.error_message == old.error_message
        &&& self.warnings == old.warnings
        &&& self.same_progress(old)
    }

    /// Whether the run has ended with the given error, and the rest is that of `old`.
    pub open spec fn errored(self, old: PatcherShared, message: Seq<char>) -> bool {
        &&& self.phase == Phase::Error.code()
        &&& self.error_message is Some
        &&& self.error_message->0@ == message
        &&& self.warnings == old.warnings
        &&& self.same_progress(old)
    }

    /// Whether only one more warning tells this from `old`.
    pub open spec fn warned(self, old: PatcherShared, message: Seq<char>) -> bool {
        &&& texts(self.warnings@) == texts(old.warnings@).push(message)
        &&& self.phase == old.phase
        &&& self.error_message == old.error_message
        &&& self.same_progress(old)
    }

    /// Whether the given change makes this of `old`.
    pub open spec fn follows(self, old: PatcherShared, change: Change) -> bool {
        match change {
            Change::CancelRequested => self.cancelled(old),
            Change::FileBegun(index) => self.file_idx == index && self.begun(old),
            Change::BytesCounted(length) => self.counted(old, length),
            Change::FileCompleted(size) => self.completed(old, size),
            Change::PhaseSet(phase) => self.phased(old, phase),
            Change::ErrorSet(message) => self.errored(old, message),
            Change::WarningPushed(message) => self.warned(old, message),
            Change::RunStep => self.keeps_request(old),
        }
    }

    /// Begins to count the bytes of the file with the given number.
    pub fn begin_file(&mut self, index: usize)
        ensures
            final(self).file_idx == index,
            final(self).begun(*old(self)),
    {
        self.file_idx = index;
        self.transfer.bytes_transferred = 0;
    }

    /// Counts bytes of the current file.
    pub fn count_bytes(&mut self, length: u64)
        ensures
            final(self).counted(*old(self), length),
    {
        self.transfer.bytes_transferred = self.transfer.bytes_transferred.wrapping_add(length);
    }

    /// Adds a complete file to those before it.
    pub fn complete_file(&mut self, size: u64)
        ensures
            final(self).completed(*old(self), size),
    {
        self.previous_completed_bytes = self.previous_completed_bytes.wrapping_add(size);
    }

    pub fn set_phase(&mut self, phase: Phase)
        ensures
            final(self).phased(*old(self), phase),
    {
        self.phase = phase.as_u8();
    }

    /// Ends the run with an error.
    pub fn set_error(&mut self, message: &str)
        ensures
            final(self).errored(*old(self), message@),
    {
        self.error_message = Some(message.to_owned());
        self.set_phase(Phase::Error);
    }

    pub fn push_warning(&mut self, message: &str)
        ensures
            final(self).warned(*old(self), message@),
    {
        self.warnings.push(message.to_owned());
        assert(texts(self.warnings@) =~= texts(old(self).warnings@).push(message@));
    }
}

/// A request to stop is never taken back: whatever happens to a report of a run that was asked to
/// stop, the next report says so too.
pub proof fn law_a_cancel_survives_every_change(
    before: PatcherShared,
    after: PatcherShared,
    change: Change,
)
    requires
        before.transfer.cancel_flag,
        after.follows(before, change),
    ensures
        after.transfer.cancel_flag,
{
}

/// A run that was once asked to stop is so in every report from then on.
pub proof fn law_a_cancel_is_never_taken_back(
    reports: Seq<PatcherShared>,
    changes: Seq<Change>,
    asked: int,
    later: int,
)
    requires
        0 <= asked <= later < reports.len(),
        changes.len() == reports.len() - 1,
        forall|i: int|
            0 <= i < changes.len() ==> reports[i + 1].follows(reports[i], #[trigger] changes[i]),
        reports[asked].transfer.cancel_flag,
    ensures
        reports[later].transfer.cancel_flag,
    decreases later - asked,
{
    if asked < later {
        law_a_cancel_is_never_taken_back(reports, changes, asked, later - 1);
        law_a_cancel_survives_every_change(
            reports[later - 1],
            reports[later],
            changes[later - 1],
        );
    }
}

/// Each change of a report is the one that it is named for, and leaves everything else alone.
pub proof fn law_what_each_change_does(
    old: PatcherShared,
    new: PatcherShared,
    index: usize,
    bytes: u64,
    phase: Phase,
    message: Seq<char>,
)
    ensures
        new.follows(old, Change::CancelRequested) ==> new.transfer.cancel_flag
            && new.transfer.bytes_transferred == old.transfer.bytes_transferred && new.phase
            == old.phase && new.file_idx == old.file_idx && new.error_message == old.error_message
            && new.warnings == old.warnings && new.patch_idx == old.patch_idx
            && new.previous_completed_bytes == old.previous_completed_bytes,
        new.follows(old, Change::FileBegun(index)) ==> new.file_idx == index
            && new.transfer.bytes_transferred == 0 && new.previous_completed_bytes
            == old.previous_completed_bytes && new.patch_idx == old.patch_idx && new.phase
            == old.phase && new.error_message == old.error_message && new.warnings == old.warnings,
        new.follows(old, Change::BytesCounted(bytes)) && old.transfer.bytes_transferred + bytes
            <= u64::MAX ==> new.transfer.bytes_transferred == old.transfer.bytes_transferred + bytes,
        new.follows(old, Change::BytesCounted(bytes)) ==> new.file_idx == old.file_idx
            && new.previous_completed_bytes == old.previous_completed_bytes && new.patch_idx
            == old.patch_idx && new.phase == old.phase && new.error_message == old.error_message
            && new.warnings == old.warnings,
        new.follows(old, Change::FileCompleted(bytes)) && old.previous_completed_bytes + bytes
            <= u64::MAX ==> new.previous_completed_bytes == old.previous_completed_bytes + bytes,
        new.follows(old, Change::FileCompleted(bytes)) ==> new.transfer == old.transfer
            && new.file_idx == old.file_idx && new.patch_idx == old.patch_idx && new.phase
            == old.phase && new.error_message == old.error_message && new.warnings == old.warnings,
        new.follows(old, Change::PhaseSet(phase)) ==> phase_of(new.phase) == phase && new.transfer
            == old.transfer && new.file_idx == old.file_idx && new.patch_idx == old.patch_idx
            && new.previous_completed_bytes == old.previous_completed_bytes && new.error_message
            == old.error_message && new.warnings == old.warnings,
        new.follows(old, Change::ErrorSet(message)) ==> phase_of(new.phase) == Phase::Error
            && crate::text::text_of(new.error_message) == Some(message) && new.transfer
            == old.transfer && new.file_idx == old.file_idx && new.patch_idx == old.patch_idx
            && new.previous_completed_bytes == old.previous_completed_bytes && new.warnings
            == old.warnings,
        new.follows(old, Change::WarningPushed(message)) ==> texts(new.warnings@) == texts(
            old.warnings@,
        ).push(message) && new.transfer == old.transfer && new.file_idx == old.file_idx
            && new.patch_idx == old.patch_idx && new.phase == old.phase && new.error_message
            == old.error_message && new.previous_completed_bytes == old.previous_completed_bytes,
        (new.follows(old, Change::CancelRequested) || new.follows(old, Change::FileBegun(index))
            || new.follows(old, Change::BytesCounted(bytes)) || new.follows(
            old,
            Change::FileCompleted(bytes),
        ) || new.follows(old, Change::PhaseSet(phase)) || new.follows(
            old,
            Change::ErrorSet(message),
        ) || new.follows(old, Change::WarningPushed(message))) ==> new.total_source_bytes == old.total_source_bytes && new.total_patches
            == old.total_patches,
{
    law_phase_round_trip(phase);
}

/// A run is over exactly when it is done, has failed or was cancelled.
pub proof fn law_which_phases_end_a_run(phase: Phase)
    ensures
        phase.ends_run() <==> phase is Done || phase is Error || phase is Cancelled,
        phase.code() == match phase {
            Phase::Starting => 0u8,
            Phase::Patching => 2,
            Phase::Done => 3,
            Phase::Error => 4,
            Phase::Cancelled => 5,
            Phase::Validating => 6,
            Phase::Extracting => 7,
        },
        phase_of(0) == Phase::Starting,
        phase_of(1) == Phase::Starting,
{
}

} // verus!

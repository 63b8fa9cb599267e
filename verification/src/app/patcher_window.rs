//! The screen that shows a run of the patcher.

use vstd::prelude::*;
use crate::patcher::manifest::{leaf, leaf_name, PatchEntry};
use crate::patcher::worker::{phase_of, PatcherShared, Phase};
use super::sizes::{format_bytes, size_text};

verus! {

/// A number of bytes as text.
pub fn format_kb(bytes: u64) -> (r: String)
    ensures
        r@ == size_text(bytes as nat),
{
    format_bytes(bytes)
}

/// How many bytes the run has gone through.
pub fn total_transferred_bytes(shared: &PatcherShared) -> (r: u64)
    requires
        shared.previous_completed_bytes + shared.transfer.bytes_transferred <= u64::MAX,
    ensures
        r == shared.previous_completed_bytes + shared.transfer.bytes_transferred,
{
    shared.previous_completed_bytes + shared.transfer.bytes()
}

/// A share: so many parts of so many, the latter not zero.
#[derive(Debug, Clone, Copy, PartialEq, Eq, Structural)]
pub struct Share {
    pub part: u64,
    pub whole: u64,
}

/// How far the run has come with reading the patch files.
pub fn progress_share(shared: &PatcherShared) -> (r: Share)
    requires
        shared.previous_completed_bytes + shared.transfer.bytes_transferred <= u64::MAX,
    ensures
        r.part == shared.previous_completed_bytes + shared.transfer.bytes_transferred,
        r.whole == if shared.total_source_bytes == 0 {
            1
        } else {
            shared.total_source_bytes
        },
{
    Share {
        part: total_transferred_bytes(shared),
        whole: if shared.total_source_bytes == 0 {
            1
        } else {
            shared.total_source_bytes
        },
    }
}

/// How far the run has come with applying the patches.
pub fn patch_share(shared: &PatcherShared) -> (r: Share)
    ensures
        match phase_of(shared.phase) {
            Phase::Starting | Phase::Validating | Phase::Extracting => r.part == 0 && r.whole > 0,
            Phase::Done => r.part == r.whole && r.whole > 0,
            _ => r.part == shared.patch_idx && r.whole == if shared.total_patches == 0 {
                1
            } else {
                shared.total_patches
            },
        },
        r.whole == if shared.total_patches == 0 {
            1
        } else {
            shared.total_patches
        },
{
    let total: u64 = if shared.total_patches == 0 {
        1
    } else {
        shared.total_patches as u64
    };
    match shared.phase() {
        Phase::Starting | Phase::Validating | Phase::Extracting => Share { part: 0, whole: total },
        Phase::Done => Share { part: total, whole: total },
        _ => Share { part: shared.patch_idx as u64, whole: total },
    }
}

/// The verb for a phase that reads the patch files.
pub open spec fn verb(phase: Phase) -> Seq<char> {
    if phase == Phase::Validating {
        "Validating"@
    } else {
        "Extracting"@
    }
}

/// The line about reading the patch files.
pub open spec fn reading_text(
    shared: PatcherShared,
    manifest: Seq<PatchEntry>,
    rate: u64,
) -> Seq<char> {
    let phase = phase_of(shared.phase);
    match phase {
        Phase::Starting => "Starting…"@,
        Phase::Validating | Phase::Extracting => if shared.file_idx < manifest.len() {
            let entry = manifest[shared.file_idx as int];
            verb(phase) + " "@ + leaf(entry.path@) + " ("@ + size_text(
                shared.transfer.bytes_transferred as nat,
            ) + "/"@ + size_text(entry.size as nat) + ") @ "@ + size_text(rate as nat) + "/s"@
        } else {
            verb(phase) + "…"@
        },
        Phase::Patching | Phase::Done => "Patches ready."@,
        Phase::Error => "Interrupted by error."@,
        Phase::Cancelled => "Cancelled."@,
    }
}

/// See [`reading_text`]; `rate` is in bytes per second.
pub fn progress_status(shared: &PatcherShared, manifest: &Vec<PatchEntry>, rate: u64) -> (r: String)
    ensures
        r@ == reading_text(*shared, manifest@, rate),
{
    let phase: Phase = shared.phase();
    match phase {
        Phase::Starting => "Starting…".to_owned(),
        Phase::Validating | Phase::Extracting => {
            let mut out: String = if phase == Phase::Validating {
                "Validating".to_owned()
            } else {
                "Extracting".to_owned()
            };
            if shared.file_idx < manifest.len() {
                let entry: &PatchEntry = &manifest[shared.file_idx];
                out.append(" ");
                out.append(leaf_name(entry.path.as_str()));
                out.append(" (");
                out.append(format_kb(shared.transfer.bytes()).as_str());
                out.append("/");
                out.append(format_kb(entry.size).as_str());
                out.append(") @ ");
                out.append(format_kb(rate).as_str());
                out.append("/s");
            } else {
                out.append("…");
            }
            out
        },
        Phase::Patching | Phase::Done => "Patches ready.".to_owned(),
        Phase::Error => "Interrupted by error.".to_owned(),
        Phase::Cancelled => "Cancelled.".to_owned(),
    }
}

/// The line about applying the patches.
pub open spec fn applying_text(shared: PatcherShared, manifest: Seq<PatchEntry>) -> Seq<char> {
    match phase_of(shared.phase) {
        Phase::Starting => "Patcher waiting for patches to be prepared…"@,
        Phase::Validating => "Patcher waiting for local patches to be validated…"@,
        Phase::Extracting => "Patcher waiting for patches to be extracted…"@,
        Phase::Patching => if shared.patch_idx < manifest.len() {
            "Applying "@ + leaf(manifest[shared.patch_idx as int].path@) + "…"@
        } else {
            "Applying patch…"@
        },
        Phase::Done => "Complete!"@,
        Phase::Error => "Patch interrupted by error."@,
        Phase::Cancelled => "Patch cancelled."@,
    }
}

/// See [`applying_text`].
pub fn patch_status(shared: &PatcherShared, manifest: &Vec<PatchEntry>) -> (r: String)
    ensures
        r@ == applying_text(*shared, manifest@),
{
    match shared.phase() {
        Phase::Starting => "Patcher waiting for patches to be prepared…".to_owned(),
        Phase::Validating => "Patcher waiting for local patches to be validated…".to_owned(),
        Phase::Extracting => "Patcher waiting for patches to be extracted…".to_owned(),
        Phase::Patching => {
            if shared.patch_idx < manifest.len() {
                let mut out: String = "Applying ".to_owned();
                out.append(leaf_name(manifest[shared.patch_idx].path.as_str()));
                out.append("…");
                out
            } else {
                "Applying patch…".to_owned()
            }
        },
        Phase::Done => "Complete!".to_owned(),
        Phase::Error => "Patch interrupted by error.".to_owned(),
        Phase::Cancelled => "Patch cancelled.".to_owned(),
    }
}

/// What stands at the foot of the screen.
#[derive(Debug, Clone, Copy, PartialEq, Eq, Structural)]
pub enum ButtonRow {
    Close,
    /// A note that the run is being stopped.
    Cancelling,
    Cancel,
}

/// See [`ButtonRow`].
pub fn button_row(shared: &PatcherShared, cancel_pending: bool) -> (r: ButtonRow)
    ensures
        r == if phase_of(shared.phase).ends_run() {
            ButtonRow::Close
        } else if cancel_pending {
            ButtonRow::Cancelling
        } else {
            ButtonRow::Cancel
        },
{
    if shared.is_terminal() {
        ButtonRow::Close
    } else if cancel_pending {
        ButtonRow::Cancelling
    } else {
        ButtonRow::Cancel
    }
}

/// While files are read, the line tells what is done to which file, how much of it is read, and
/// how fast.
pub proof fn law_the_line_about_reading(
    shared: PatcherShared,
    manifest: Seq<PatchEntry>,
    rate: u64,
)
    ensures
        ({
            let phase = phase_of(shared.phase);
            let text = reading_text(shared, manifest, rate);
            let within = shared.file_idx < manifest.len();
            let entry = manifest[shared.file_idx as int];
            let detail = " "@ + leaf(entry.path@) + " ("@ + size_text(
                shared.transfer.bytes_transferred as nat,
            ) + "/"@ + size_text(entry.size as nat) + ") @ "@ + size_text(rate as nat) + "/s"@;
            &&& phase == Phase::Validating && within ==> text == "Validating"@ + detail
            &&& phase == Phase::Extracting && within ==> text == "Extracting"@ + detail
            &&& phase == Phase::Validating && !within ==> text == "Validating"@ + "…"@
            &&& phase == Phase::Extracting && !within ==> text == "Extracting"@ + "…"@
            &&& phase == Phase::Starting ==> text == "Starting…"@
            &&& phase == Phase::Patching || phase == Phase::Done ==> text == "Patches ready."@
            &&& phase == Phase::Error ==> text == "Interrupted by error."@
            &&& phase == Phase::Cancelled ==> text == "Cancelled."@
        }),
{
    let entry = manifest[shared.file_idx as int];
    let a = leaf(entry.path@);
    let b = size_text(shared.transfer.bytes_transferred as nat);
    let c = size_text(entry.size as nat);
    let d = size_text(rate as nat);
    assert forall|v: Seq<char>|
        #![trigger v + " "@]
        v + " "@ + a + " ("@ + b + "/"@ + c + ") @ "@ + d + "/s"@ == v + (" "@ + a + " ("@ + b + "/"@
            + c + ") @ "@ + d + "/s"@) by {
        assert(v + " "@ + a + " ("@ + b + "/"@ + c + ") @ "@ + d + "/s"@ =~= v + (" "@ + a + " ("@ + b
            + "/"@ + c + ") @ "@ + d + "/s"@));
    }
}

/// While patches are applied, the line names the patch; else it tells what is waited for, or how
/// the run ended.
pub proof fn law_the_line_about_applying(shared: PatcherShared, manifest: Seq<PatchEntry>)
    ensures
        ({
            let phase = phase_of(shared.phase);
            let text = applying_text(shared, manifest);
            &&& phase == Phase::Patching && shared.patch_idx < manifest.len() ==> text
                == "Applying "@ + leaf(manifest[shared.patch_idx as int].path@) + "…"@
            &&& phase == Phase::Patching && shared.patch_idx >= manifest.len() ==> text
                == "Applying patch…"@
            &&& phase == Phase::Starting ==> text
                == "Patcher waiting for patches to be prepared…"@
            &&& phase == Phase::Validating ==> text
                == "Patcher waiting for local patches to be validated…"@
            &&& phase == Phase::Extracting ==> text
                == "Patcher waiting for patches to be extracted…"@
            &&& phase == Phase::Done ==> text == "Complete!"@
            &&& phase == Phase::Error ==> text == "Patch interrupted by error."@
            &&& phase == Phase::Cancelled ==> text == "Patch cancelled."@
        }),
{
}

} // verus!

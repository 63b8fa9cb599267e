//! The byte counter and the cancel flag of a transfer.

use vstd::prelude::*;

verus! {

/// The progress of a single pass over the patch files. There is one for a transfer, and no copies
/// of it: whoever asks for the transfer to stop sets the flag that the transfer looks at.
#[derive(Debug, PartialEq, Eq, Structural)]
pub struct TransferProgress {
    pub bytes_transferred: u64,
    pub cancel_flag: bool,
}

impl TransferProgress {
    pub fn new() -> (r: TransferProgress)
        ensures
            r.bytes_transferred == 0,
            !r.cancel_flag,
    {
        TransferProgress { bytes_transferred: 0, cancel_flag: false }
    }

    /// Whether the transfer was asked to stop, and nothing else differs from `old`.
    pub open spec fn cancelled(self, old: TransferProgress) -> bool {
        &&& self.cancel_flag
        &&& self.bytes_transferred == old.bytes_transferred
    }

    /// Asks for the transfer to stop. Nothing takes the request back.
    pub fn cancel(&mut self)
        ensures
            final(self).cancelled(*old(self)),
    {
        self.cancel_flag = true;
    }

    /// The number of bytes transferred so far.
    pub fn bytes(&self) -> (r: u64)
        ensures
            r == self.bytes_transferred,
    {
        self.bytes_transferred
    }

    pub fn is_cancelled(&self) -> (r: bool)
        ensures
            r == self.cancel_flag,
    {
        self.cancel_flag
    }
}

/// A transfer that was asked to stop stays so: to ask again changes nothing.
pub proof fn law_a_cancelled_transfer_stays_cancelled(
    before: TransferProgress,
    after: TransferProgress,
)
    requires
        before.cancel_flag,
        after.cancelled(before),
    ensures
        after.cancel_flag,
        after == before,
{
}

impl Default for TransferProgress {
    fn default() -> (r: TransferProgress)
        ensures
            r.bytes_transferred == 0,
            !r.cancel_flag,
    {
        TransferProgress::new()
    }
}

} // verus!

use vstd::prelude::*;
use crate::sink::FlushCounts;

verus! {

/// Running per-record accounting for one transfer: how many records the sink
/// acknowledged and how many were lost, either to the sink's own accounting or
/// to a whole-batch transport failure.
#[derive(Clone, Copy, Debug, PartialEq, Eq, Structural)]
pub struct MigrationStats {
    pub processed: u64,
    pub failed: u64,
}

impl MigrationStats {
    pub fn new() -> (r: Self)
        ensures
            r.processed == 0,
            r.failed == 0,
    {
        MigrationStats { processed: 0, failed: 0 }
    }

    /// Merge the counts of a flush the sink acknowledged.
    pub fn merge_acknowledged(&mut self, counts: FlushCounts)
        requires
            old(self).processed + counts.successful <= u64::MAX,
            old(self).failed + counts.failed <= u64::MAX,
        ensures
            final(self).processed == old(self).processed + counts.successful,
            final(self).failed == old(self).failed + counts.failed,
    {
        self.processed = self.processed + counts.successful;
        self.failed = self.failed + counts.failed;
    }

    /// Count a whole page as failed after a sink transport failure.
    pub fn merge_transport_failure(&mut self, page_len: u64)
        requires
            old(self).failed + page_len <= u64::MAX,
        ensures
            final(self).processed == old(self).processed,
            final(self).failed == old(self).failed + page_len,
    {
        self.failed = self.failed + page_len;
    }
}

} // verus!

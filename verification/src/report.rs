//! The final report of a run: every post the pages carried, how many were
//! completed or failed, and the bytes written. Skipped posts count toward
//! the total seen but toward neither the completed nor the failed counter.

use vstd::prelude::*;
use crate::stats::BatchStatistics;

verus! {

/// Aggregate over the whole run.
#[derive(Clone, Copy, Debug, PartialEq, Eq, Structural)]
pub struct PipelineReport {
    pub total: usize,
    pub completed: u64,
    pub failed: u64,
    pub bytes: u64,
}

impl PipelineReport {
    /// The zero-valued report of a run that found no posts.
    pub fn empty() -> (r: PipelineReport)
        ensures
            r.total == 0,
            r.completed == 0,
            r.failed == 0,
            r.bytes == 0,
    {
        PipelineReport { total: 0, completed: 0, failed: 0, bytes: 0 }
    }

    /// The report of a run that saw `total` posts and merged the given
    /// statistics over all its batches.
    pub fn from_stats(total: usize, stats: BatchStatistics) -> (r: PipelineReport)
        ensures
            r.total == total,
            r.completed == stats.succeeded,
            r.failed == stats.failed,
            r.bytes == stats.bytes,
    {
        PipelineReport {
            total: total,
            completed: stats.succeeded,
            failed: stats.failed,
            bytes: stats.bytes,
        }
    }
}

} // verus!

//! Per-post outcomes and per-batch statistics, with the merge laws that let
//! parallel batches report their results in any order.
//!
//! Counters saturate at `u64::MAX` instead of wrapping; saturating addition
//! keeps the merge total, commutative and associative.

use vstd::prelude::*;

verus! {

/// Why a post could not be downloaded.
#[derive(Clone, Copy, Debug, PartialEq, Eq, Structural)]
pub enum FailureReason {
    /// The resolver found no usable URL at the requested quality tier.
    MissingUrl,
    /// The request could not be sent or completed (connect, timeout, DNS).
    Network,
    /// The server answered with a non-success HTTP status.
    HttpStatus,
    /// The response body could not be read.
    BodyRead,
    /// The fetched bytes could not be written to disk.
    FileWrite,
}

/// The terminal outcome of one post within a batch.
#[derive(Clone, Copy, Debug, PartialEq, Eq, Structural)]
pub enum DownloadOutcome {
    /// The file was fetched and written; carries the bytes written.
    Succeeded(u64),
    /// The destination path already existed, so the post was left alone.
    Skipped,
    /// The post failed for the given reason; sibling posts are unaffected.
    Failed(FailureReason),
}

/// Aggregate over one batch: how many posts succeeded, how many failed, and
/// the total bytes written. Skipped posts count toward neither counter.
#[derive(Clone, Copy, Debug, PartialEq, Eq, Structural)]
pub struct BatchStatistics {
    pub succeeded: u64,
    pub failed: u64,
    pub bytes: u64,
}

/// Addition on `u64` that stops at the largest representable value.
pub open spec fn sat_add(a: u64, b: u64) -> u64 {
    if a + b > u64::MAX {
        u64::MAX
    } else {
        (a + b) as u64
    }
}

/// The statistics of a batch that did nothing.
pub open spec fn empty_stats() -> BatchStatistics {
    BatchStatistics { succeeded: 0, failed: 0, bytes: 0 }
}

/// How one outcome changes a batch's statistics.
pub open spec fn stats_after(s: BatchStatistics, o: DownloadOutcome) -> BatchStatistics {
    match o {
        DownloadOutcome::Succeeded(b) => BatchStatistics {
            succeeded: sat_add(s.succeeded, 1),
            failed: s.failed,
            bytes: sat_add(s.bytes, b),
        },
        DownloadOutcome::Skipped => s,
        DownloadOutcome::Failed(_) => BatchStatistics {
            succeeded: s.succeeded,
            failed: sat_add(s.failed, 1),
            bytes: s.bytes,
        },
    }
}

/// The statistics of a whole sequence of outcomes, accumulated in order.
pub open spec fn stats_of(outcomes: Seq<DownloadOutcome>) -> BatchStatistics
    decreases outcomes.len(),
{
    if outcomes.len() == 0 {
        empty_stats()
    } else {
        stats_after(stats_of(outcomes.drop_last()), outcomes.last())
    }
}

/// The fieldwise saturating sum of two batches' statistics.
pub open spec fn merge_spec(a: BatchStatistics, b: BatchStatistics) -> BatchStatistics {
    BatchStatistics {
        succeeded: sat_add(a.succeeded, b.succeeded),
        failed: sat_add(a.failed, b.failed),
        bytes: sat_add(a.bytes, b.bytes),
    }
}

/// The merged statistics of a sequence of batch results, in order.
pub open spec fn merged_stats(parts: Seq<BatchStatistics>) -> BatchStatistics
    decreases parts.len(),
{
    if parts.len() == 0 {
        empty_stats()
    } else {
        merge_spec(merged_stats(parts.drop_last()), parts.last())
    }
}

fn sat_add_exec(a: u64, b: u64) -> (r: u64)
    ensures
        r == sat_add(a, b),
{
    if a > u64::MAX - b {
        u64::MAX
    } else {
        a + b
    }
}

impl BatchStatistics {
    /// Statistics before any outcome was recorded.
    pub fn new() -> (r: BatchStatistics)
        ensures
            r == empty_stats(),
    {
        BatchStatistics { succeeded: 0, failed: 0, bytes: 0 }
    }

    /// Accumulates one post's outcome into this batch's statistics.
    pub fn record(&mut self, outcome: DownloadOutcome)
        ensures
            *final(self) == stats_after(*old(self), outcome),
    {
        match outcome {
            DownloadOutcome::Succeeded(b) => {
                self.succeeded = sat_add_exec(self.succeeded, 1);
                self.bytes = sat_add_exec(self.bytes, b);
            },
            DownloadOutcome::Skipped => {},
            DownloadOutcome::Failed(_) => {
                self.failed = sat_add_exec(self.failed, 1);
            },
        }
    }

    /// Combines the statistics of two batches.
    pub fn merge(self, other: BatchStatistics) -> (r: BatchStatistics)
        ensures
            r == merge_spec(self, other),
    {
        BatchStatistics {
            succeeded: sat_add_exec(self.succeeded, other.succeeded),
            failed: sat_add_exec(self.failed, other.failed),
            bytes: sat_add_exec(self.bytes, other.bytes),
        }
    }
}

/// Merging batch statistics does not depend on the order of the arguments,
/// so parallel batches may report their results in any order.
pub proof fn lemma_merge_commutative(a: BatchStatistics, b: BatchStatistics)
    ensures
        merge_spec(a, b) == merge_spec(b, a),
{
}

/// Merging batch statistics is associative, so results may be combined in
/// any grouping.
pub proof fn lemma_merge_associative(a: BatchStatistics, b: BatchStatistics, c: BatchStatistics)
    ensures
        merge_spec(a, merge_spec(b, c)) == merge_spec(merge_spec(a, b), c),
{
}

/// The statistics of an empty batch are the identity of the merge.
pub proof fn lemma_merge_empty(a: BatchStatistics)
    ensures
        merge_spec(a, empty_stats()) == a,
        merge_spec(empty_stats(), a) == a,
{
}

proof fn lemma_stats_after_merge(x: BatchStatistics, y: BatchStatistics, o: DownloadOutcome)
    ensures
        stats_after(merge_spec(x, y), o) == merge_spec(x, stats_after(y, o)),
{
}

/// Splitting a run of outcomes anywhere and merging the two halves'
/// statistics gives the statistics of the whole run.
pub proof fn lemma_stats_of_concat(a: Seq<DownloadOutcome>, b: Seq<DownloadOutcome>)
    ensures
        stats_of(a + b) == merge_spec(stats_of(a), stats_of(b)),
    decreases b.len(),
{
    if b.len() == 0 {
        assert(a + b =~= a);
        lemma_merge_empty(stats_of(a));
    } else {
        lemma_stats_of_concat(a, b.drop_last());
        assert((a + b).drop_last() =~= a + b.drop_last());
        lemma_stats_after_merge(stats_of(a), stats_of(b.drop_last()), b.last());
    }
}

/// For any partition of a page's outcomes into consecutive batches, merging
/// the per-batch statistics equals the statistics of the whole page run as
/// one batch.
pub proof fn lemma_stats_partition(batches: Seq<Seq<DownloadOutcome>>)
    ensures
        merged_stats(batches.map_values(|b: Seq<DownloadOutcome>| stats_of(b)))
            == stats_of(batches.flatten()),
    decreases batches.len(),
{
    let f = |b: Seq<DownloadOutcome>| stats_of(b);
    if batches.len() == 0 {
        assert(batches.flatten() =~= Seq::<DownloadOutcome>::empty());
        assert(batches.map_values(f) =~= Seq::<BatchStatistics>::empty());
    } else {
        lemma_stats_partition(batches.drop_last());
        assert(batches =~= batches.drop_last().push(batches.last()));
        batches.drop_last().lemma_flatten_push(batches.last());
        lemma_stats_of_concat(batches.drop_last().flatten(), batches.last());
        assert(batches.map_values(f).drop_last() =~= batches.drop_last().map_values(f));
        assert(batches.map_values(f).last() == f(batches.last()));
    }
}

} // verus!

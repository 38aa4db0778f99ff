//! The per-post decision of the batch download worker: skip a post whose
//! file is already on disk, fail a post with no usable URL, and otherwise
//! name the URL to fetch. The surrounding binary answers the existence
//! check, performs the fetch, and feeds the result back in.

use vstd::prelude::*;
use crate::api_defs::Post;
use crate::resolver::{resolve, resolve_spec};
use crate::stats::{DownloadOutcome, FailureReason};

verus! {

/// What the worker does with one post.
#[derive(Debug)]
pub enum PostPlan {
    /// The destination path already exists: leave the post alone and make
    /// no network call.
    Skip,
    /// The resolver found no usable URL: record a failure and continue.
    NoUsableUrl,
    /// Fetch this URL and write it to the destination path.
    Fetch(String),
}

/// Decides what to do with one post, given whether its destination path
/// already exists on disk. A post whose file is already present is always
/// skipped, whatever its metadata, so re-running the worker over the same
/// posts issues no network call for them.
pub fn plan_post(post: &Post, want_lower_quality: bool, dest_exists: bool) -> (p: PostPlan)
    ensures
        dest_exists ==> p is Skip,
        !dest_exists ==> match resolve_spec(*post, want_lower_quality) {
            Some(u) => p matches PostPlan::Fetch(s) && s@ == u,
            None => p is NoUsableUrl,
        },
{
    if dest_exists {
        PostPlan::Skip
    } else {
        match resolve(post, want_lower_quality) {
            Some(url) => PostPlan::Fetch(url),
            None => PostPlan::NoUsableUrl,
        }
    }
}

/// The outcome a plan settles without any fetch: a skip for `Skip`, a
/// missing-URL failure for `NoUsableUrl`, and nothing for `Fetch`, whose
/// outcome is known only once the transfer finishes.
pub fn immediate_outcome(plan: &PostPlan) -> (o: Option<DownloadOutcome>)
    ensures
        match plan {
            PostPlan::Skip => o == Some(DownloadOutcome::Skipped),
            PostPlan::NoUsableUrl => o == Some(DownloadOutcome::Failed(FailureReason::MissingUrl)),
            PostPlan::Fetch(_) => o is None,
        },
{
    match plan {
        PostPlan::Skip => Some(DownloadOutcome::Skipped),
        PostPlan::NoUsableUrl => Some(DownloadOutcome::Failed(FailureReason::MissingUrl)),
        PostPlan::Fetch(_) => None,
    }
}

/// The outcome of a finished transfer: the bytes written on success, the
/// failure reason otherwise.
pub fn fetch_outcome(result: Result<u64, FailureReason>) -> (o: DownloadOutcome)
    ensures
        o == match result {
            Ok(b) => DownloadOutcome::Succeeded(b),
            Err(k) => DownloadOutcome::Failed(k),
        },
{
    match result {
        Ok(b) => DownloadOutcome::Succeeded(b),
        Err(k) => DownloadOutcome::Failed(k),
    }
}

} // verus!

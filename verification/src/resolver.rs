//! The quality resolver: given a post's file and optional sample or
//! alternate metadata, decides which URL to fetch for the requested quality
//! tier.
//!
//! Policy, evaluated in order:
//! - when lower quality is not requested, the primary file URL is used if
//!   present, and nothing else (no fallback upward);
//! - when lower quality is requested but the post declares no
//!   reduced-quality variant, the primary file URL is used if present;
//! - otherwise a lower-quality alternate whose media type is "video" wins
//!   (its first candidate URL), then the sample URL, then the primary file
//!   URL, and failing all three the post has no usable URL.
//!
//! An alternate with an empty candidate list is treated as absent, so the
//! resolver is total. A `None` result is not fatal: the caller records the
//! post as failed for want of a usable URL and continues.

use vstd::prelude::*;
use crate::api_defs::Post;

verus! {

/// The primary file URL of a post, when the API did not withhold it.
pub open spec fn primary_url(post: Post) -> Option<Seq<char>> {
    match post.file.url {
        Some(u) => Some(u@),
        None => None,
    }
}

/// The fallback chain once no video alternate applies: the sample URL if
/// present, else the primary file URL if present, else nothing.
pub open spec fn sample_or_primary_url(post: Post) -> Option<Seq<char>> {
    match post.sample.url {
        Some(u) => Some(u@),
        None => primary_url(post),
    }
}

/// Which URL the resolver picks for a post at the requested quality tier.
pub open spec fn resolve_spec(post: Post, want_lower_quality: bool) -> Option<Seq<char>> {
    if !want_lower_quality || !post.sample.has {
        primary_url(post)
    } else {
        match post.sample.alternates.lower_quality {
            Some(lq) => if lq.media_type@ == "video"@ && lq.urls@.len() > 0 {
                Some(lq.urls@[0]@)
            } else {
                sample_or_primary_url(post)
            },
            None => sample_or_primary_url(post),
        }
    }
}

/// Decides which URL to fetch for a post, or `None` when the post offers no
/// usable URL at the requested tier.
pub fn resolve(post: &Post, want_lower_quality: bool) -> (r: Option<String>)
    ensures
        match resolve_spec(*post, want_lower_quality) {
            Some(u) => r matches Some(s) && s@ == u,
            None => r is None,
        },
{
    if !want_lower_quality || !post.sample.has {
        return match &post.file.url {
            Some(u) => Some(u.clone()),
            None => None,
        };
    }
    if let Some(lq) = &post.sample.alternates.lower_quality {
        let video = "video".to_owned();
        if lq.media_type == video && lq.urls.len() > 0 {
            return Some(lq.urls[0].clone());
        }
    }
    match &post.sample.url {
        Some(u) => Some(u.clone()),
        None => match &post.file.url {
            Some(u) => Some(u.clone()),
            None => None,
        },
    }
}

} // verus!

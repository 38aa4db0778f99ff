//! The shape of the records the search endpoint returns, and the derivation
//! of the artist label that feeds each post's destination filename.

use vstd::prelude::*;
use vstd::string::StringExecFns;

verus! {

/// One page of posts as returned by the search endpoint.
pub struct Posts {
    pub posts: Vec<Post>,
}

/// One media item record returned by the remote API. Posts are immutable
/// once received; nothing here is mutated locally.
pub struct Post {
    pub id: u64,
    pub file: File,
    pub tags: Tags,
    pub sample: Sample,
}

/// The primary file descriptor of a post. The URL is absent when the API
/// withholds the original, e.g. for deleted or restricted content.
pub struct File {
    pub ext: String,
    pub url: Option<String>,
}

/// The tag collection of a post; only the artist names feed the logic here.
pub struct Tags {
    pub artist: Vec<String>,
}

/// Reduced-quality metadata of a post: whether a reduced-quality variant
/// exists, an optional sample URL, and the alternate renditions.
pub struct Sample {
    pub has: bool,
    pub url: Option<String>,
    pub alternates: Alternates,
}

/// Alternate renditions offered alongside the sample.
pub struct Alternates {
    pub lower_quality: Option<LowerQuality>,
}

/// A lower-quality variant: a media-type tag and its candidate URLs.
pub struct LowerQuality {
    pub media_type: String,
    pub urls: Vec<String>,
}

/// The artist names joined by a comma and a space, with no trailing
/// separator.
pub open spec fn joined_artists(names: Seq<Seq<char>>) -> Seq<char>
    decreases names.len(),
{
    if names.len() == 0 {
        Seq::empty()
    } else if names.len() == 1 {
        names[0]
    } else {
        joined_artists(names.drop_last()) + ", "@ + names.last()
    }
}

/// The artist label of a post: a sentinel for zero artists, the name itself
/// for exactly one, and the comma-space-joined list for more.
pub open spec fn artist_label(names: Seq<Seq<char>>) -> Seq<char> {
    if names.len() == 0 {
        "unknown-artist"@
    } else {
        joined_artists(names)
    }
}

impl Tags {
    /// Derives the artist label used in destination filenames. The label is
    /// recomputed wherever it is needed and never cached on the post.
    pub fn parse_artists(&self) -> (r: String)
        ensures
            r@ == artist_label(self.artist.deep_view()),
    {
        let ghost deep = self.artist.deep_view();
        let n = self.artist.len();
        if n == 0 {
            return "unknown-artist".to_owned();
        }
        let mut label = self.artist[0].clone();
        proof {
            assert(deep.take(1) =~= seq![deep[0]]);
        }
        for i in 1..n
            invariant
                n == self.artist.len(),
                deep == self.artist.deep_view(),
                1 <= i <= n,
                label@ == joined_artists(deep.take(i as int)),
        {
            label.append(", ");
            label.append(self.artist[i].as_str());
            proof {
                assert(deep.take(i + 1).drop_last() =~= deep.take(i as int));
                assert(joined_artists(deep.take(i + 1)) == joined_artists(deep.take(i as int))
                    + ", "@ + deep[i as int]);
            }
        }
        proof {
            assert(deep.take(n as int) =~= deep);
        }
        label
    }
}

} // verus!

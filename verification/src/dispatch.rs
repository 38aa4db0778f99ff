//! Chunking for the concurrency dispatcher: a page of posts is split into
//! contiguous fixed-size batches, each the unit of work for one pool
//! worker, and the total of posts seen across pages is summed for the final
//! report.

use vstd::prelude::*;
use crate::api_defs::{Post, Posts};

verus! {

/// The views of a sequence of chunks.
pub open spec fn chunk_views(chunks: Seq<Vec<Post>>) -> Seq<Seq<Post>> {
    chunks.map_values(|c: Vec<Post>| c@)
}

/// The number of posts across a run's pages.
pub open spec fn total_posts(pages: Seq<Vec<Post>>) -> nat
    decreases pages.len(),
{
    if pages.len() == 0 {
        0
    } else {
        total_posts(pages.drop_last()) + pages.last()@.len()
    }
}

proof fn lemma_total_posts_prefix(pages: Seq<Vec<Post>>, j: int)
    requires
        0 <= j <= pages.len(),
    ensures
        total_posts(pages.take(j)) <= total_posts(pages),
    decreases pages.len(),
{
    if j == pages.len() {
        assert(pages.take(j) =~= pages);
    } else {
        assert(pages.drop_last().take(j) =~= pages.take(j));
        lemma_total_posts_prefix(pages.drop_last(), j);
    }
}

/// Counts the posts of all pages together: the total seen by a run, before
/// any skip or failure is decided.
pub fn sum_posts(data: &Vec<Vec<Post>>) -> (r: usize)
    requires
        total_posts(data@) <= usize::MAX,
    ensures
        r == total_posts(data@),
{
    let mut sum: usize = 0;
    let n = data.len();
    for i in 0..n
        invariant
            n == data.len(),
            total_posts(data@) <= usize::MAX,
            sum == total_posts(data@.take(i as int)),
    {
        proof {
            assert(data@.take(i + 1).drop_last() =~= data@.take(i as int));
            assert(data@.take(i + 1).last() == data@[i as int]);
            lemma_total_posts_prefix(data@, i + 1);
        }
        sum = sum + data[i].len();
    }
    proof {
        assert(data@.take(n as int) =~= data@);
    }
    sum
}

/// Splits a page into contiguous chunks of `chunk_size` posts, in the
/// original order; the last chunk holds whatever remains and may be
/// shorter. The chunks together carry exactly the page's posts.
pub fn slice_arr(arr: Posts, chunk_size: i32) -> (r: Vec<Vec<Post>>)
    requires
        chunk_size >= 1,
    ensures
        chunk_views(r@).flatten() == arr.posts@,
        forall|i: int| 0 <= i < r@.len() ==> (#[trigger] r@[i])@.len() <= chunk_size,
        forall|i: int| 0 <= i < r@.len() - 1 ==> (#[trigger] r@[i])@.len() == chunk_size,
        r@.len() > 0 ==> r@[r@.len() - 1]@.len() > 0,
        (r@.len() == 0) == (arr.posts@.len() == 0),
{
    let cs: usize = chunk_size as usize;
    let mut posts = arr.posts;
    let ghost orig = posts@;
    let mut chunks: Vec<Vec<Post>> = Vec::new();
    let mut cur: Vec<Post> = Vec::new();
    while posts.len() > 0
        invariant
            cs == chunk_size as usize,
            cs >= 1,
            orig =~= chunk_views(chunks@).flatten() + cur@ + posts@,
            forall|i: int| 0 <= i < chunks@.len() ==> (#[trigger] chunks@[i])@.len() == cs,
            cur@.len() < cs,
        decreases posts@.len(),
    {
        let ghost pre_chunks = chunks@;
        let ghost pre_cur = cur@;
        let ghost pre_posts = posts@;
        let p = posts.remove(0);
        cur.push(p);
        proof {
            assert(pre_cur.push(pre_posts[0]) + pre_posts.remove(0) =~= pre_cur + pre_posts);
            assert(chunk_views(chunks@).flatten() + cur@ + posts@ =~= chunk_views(pre_chunks).flatten()
                + pre_cur + pre_posts);
        }
        if cur.len() == cs {
            let full = cur;
            cur = Vec::new();
            chunks.push(full);
            proof {
                assert(chunk_views(chunks@) =~= chunk_views(pre_chunks).push(full@));
                chunk_views(pre_chunks).lemma_flatten_push(full@);
                assert(chunk_views(chunks@).flatten() + cur@ + posts@ =~= chunk_views(pre_chunks).flatten()
                    + full@ + posts@);
            }
        }
    }
    if cur.len() > 0 {
        let ghost pre_chunks = chunks@;
        let ghost last = cur@;
        chunks.push(cur);
        proof {
            assert(chunk_views(chunks@) =~= chunk_views(pre_chunks).push(last));
            chunk_views(pre_chunks).lemma_flatten_push(last);
            assert(chunk_views(chunks@).flatten() =~= orig);
        }
    } else {
        proof {
            assert(chunk_views(chunks@).flatten() =~= orig);
        }
    }
    proof {
        if chunks@.len() > 0 {
            let cvs = chunk_views(chunks@);
            assert(cvs[chunks@.len() - 1].len() > 0);
            cvs.lemma_flatten_and_flatten_alt_are_equivalent();
            cvs.lemma_flatten_length_ge_single_element_length(chunks@.len() - 1);
            assert(orig.len() > 0);
        } else {
            assert(chunk_views(chunks@) =~= Seq::<Seq<Post>>::empty());
            assert(orig.len() == 0);
        }
    }
    chunks
}

} // verus!

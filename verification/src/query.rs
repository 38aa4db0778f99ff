//! Construction of the search request: the tag expression and the full page
//! URL sent to the endpoint.

use vstd::prelude::*;
use vstd::string::StringExecFns;
use crate::decimal::{decimal_digits, u64_to_decimal};

verus! {

/// The view of an optional string argument.
pub open spec fn opt_str_view(o: Option<&str>) -> Option<Seq<char>> {
    match o {
        Some(s) => Some(s@),
        None => None,
    }
}

/// The tag expression sent as the single `tags` query parameter: the
/// favorites selector (when the search is over a user's favorites), the
/// free-form tags, and the random-order marker (when requested), joined by
/// whitespace.
pub open spec fn tag_expr_spec(
    favorites_of: Option<Seq<char>>,
    tags: Seq<char>,
    random: bool,
) -> Seq<char> {
    (match favorites_of {
        Some(user) => "fav:"@ + user,
        None => Seq::empty(),
    }) + " "@ + tags + " "@ + (if random {
        "order:random"@
    } else {
        Seq::empty()
    })
}

/// The URL of one page request against the search endpoint.
pub open spec fn page_url_spec(
    api_source: Seq<char>,
    tag_expr: Seq<char>,
    limit: nat,
    page: nat,
) -> Seq<char> {
    "https://"@ + api_source + "/posts.json?tags="@ + tag_expr + "&limit="@ + decimal_digits(limit)
        + "&page="@ + decimal_digits(page)
}

/// Builds the tag expression for a search.
pub fn build_tag_expr(favorites_of: Option<&str>, tags: &str, random: bool) -> (r: String)
    ensures
        r@ == tag_expr_spec(opt_str_view(favorites_of), tags@, random),
{
    let mut s = match favorites_of {
        Some(user) => {
            let mut t = "fav:".to_owned();
            t.append(user);
            t
        },
        None => String::new(),
    };
    s.append(" ");
    s.append(tags);
    s.append(" ");
    if random {
        s.append("order:random");
    }
    proof {
        assert(s@ =~= tag_expr_spec(opt_str_view(favorites_of), tags@, random));
    }
    s
}

/// Builds the URL of the request for one page of results.
pub fn build_page_url(api_source: &str, tag_expr: &str, limit: u32, page: u64) -> (r: String)
    ensures
        r@ == page_url_spec(api_source@, tag_expr@, limit as nat, page as nat),
{
    let mut s = "https://".to_owned();
    s.append(api_source);
    s.append("/posts.json?tags=");
    s.append(tag_expr);
    s.append("&limit=");
    let l = u64_to_decimal(limit as u64);
    s.append(l.as_str());
    s.append("&page=");
    let p = u64_to_decimal(page);
    s.append(p.as_str());
    proof {
        assert(s@ =~= page_url_spec(api_source@, tag_expr@, limit as nat, page as nat));
    }
    s
}

} // verus!

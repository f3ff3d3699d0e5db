//! The author endpoint: the detail of one author.

use crate::query::{by_url_key, url_key_query};
use crate::shaper::Shaper;
use crate::step::{Search, SearchView};
use vstd::prelude::*;

verus! {

/// The search of the detail of an author.
pub open spec fn author_search(url_key: Seq<char>) -> SearchView {
    SearchView { query: by_url_key(url_key), shaper: Shaper::Author }
}

/// The search of the detail of the author with the given URL key.
pub fn fetch_author_detail_by_url_key(url_key: String) -> (search: Search)
    ensures
        search@ == author_search(url_key@),
        search.wf(),
{
    Search { query: url_key_query(url_key.as_str()), shaper: Shaper::Author }
}

} // verus!

//! The category endpoints: the listing and the detail of one category.

use crate::json::{items_of, lemma_items_push, text_value, Json, JsonValue};
use crate::params::QueryParams;
use crate::query::{
    all_of, all_of_clauses, build_document, by_url_key, document, term, term_clause,
    url_key_query,
};
use crate::shaper::Shaper;
use crate::step::{Search, SearchView};
use vstd::prelude::*;

verus! {

/// The number of categories that a listing asks the backend for: more than
/// there are, so that the listing holds them all.
pub const ALL_CATEGORIES: usize = 1000;

/// The clause that a category is of the requested type, where the request
/// names one.
pub open spec fn type_filter(params: Map<Seq<char>, Seq<char>>) -> Seq<JsonValue> {
    if params.contains_key("type_category"@) {
        seq![term("type_category"@, text_value(params["type_category"@]))]
    } else {
        Seq::empty()
    }
}

/// The query document of the category listing.
pub open spec fn categories_query(params: Map<Seq<char>, Seq<char>>) -> JsonValue {
    document(all_of(type_filter(params)), None, Some(ALL_CATEGORIES), None)
}

/// The search of the category listing.
pub open spec fn categories_search(params: Map<Seq<char>, Seq<char>>) -> SearchView {
    SearchView { query: categories_query(params), shaper: Shaper::Categories }
}

/// The search of the detail of a category.
pub open spec fn category_search(url_key: Seq<char>) -> SearchView {
    SearchView { query: by_url_key(url_key), shaper: Shaper::Category }
}

/// The search of the category listing that a request asks for.
pub fn fetch_categories(query_params: &QueryParams) -> (search: Search)
    ensures
        search@ == categories_search(query_params@),
        search.wf(),
{
    let mut clauses: Vec<Json> = Vec::new();
    if let Some(type_category) = query_params.get("type_category") {
        let clause = term_clause("type_category", Json::text(type_category.as_str()));
        proof {
            lemma_items_push(clauses@, clause);
        }
        clauses.push(clause);
    }
    proof {
        assert(items_of(clauses@) =~= type_filter(query_params@));
    }
    let query = build_document(all_of_clauses(clauses), None, Some(ALL_CATEGORIES), None);
    Search { query, shaper: Shaper::Categories }
}

/// The search of the detail of the category with the given URL key.
pub fn fetch_category_detail_by_url_key(url_key: String) -> (search: Search)
    ensures
        search@ == category_search(url_key@),
        search.wf(),
{
    Search { query: url_key_query(url_key.as_str()), shaper: Shaper::Category }
}

} // verus!

//! The story endpoints: the filtered listing, the listing of a category and
//! the detail of one story.

use crate::json::{
    items_of, lemma_items_push, member, object1, optional_value, text_value, unsigned_value, Json,
    JsonValue,
};
use crate::pagination::{window, Pagination, DEFAULT_PAGE_SIZE};
use crate::params::{
    decode_or_raw, decoded_or_raw, flag_param, requested_page, requested_size, QueryParams,
};
use crate::query::{
    all_of, all_of_clauses, build_document, by_url_key, document, full_text, full_text_clause,
    lemma_conjunction_clauses, lemma_query_members, newest_first, order_by, sort_of, term,
    term_clause, url_key_query,
};
use crate::response::{bad_request, Response};
use crate::shaper::Shaper;
use crate::step::{Search, SearchView, Step, StepView};
use crate::text::texts_of;
use vstd::prelude::*;

verus! {

/// The clause that a story's title matches the requested title, with the
/// percent escapes of the request replaced.
pub open spec fn title_filter(params: Map<Seq<char>, Seq<char>>) -> Seq<JsonValue> {
    if params.contains_key("title"@) {
        seq![full_text("title"@, decoded_or_raw(params["title"@]))]
    } else {
        Seq::empty()
    }
}

/// The clause that a story is by the requested author.
pub open spec fn author_filter(params: Map<Seq<char>, Seq<char>>) -> Seq<JsonValue> {
    if params.contains_key("author_id"@) {
        seq![term("author.author_id.keyword"@, text_value(params["author_id"@]))]
    } else {
        Seq::empty()
    }
}

/// The clause that a story is complete.
pub open spec fn complete_clause() -> JsonValue {
    term("is_full"@, JsonValue::Bool(true))
}

/// The clause that a story is complete, where the request asks for
/// complete stories only. Any value of `is_full` but `true` asks for
/// nothing.
pub open spec fn complete_filter(params: Map<Seq<char>, Seq<char>>) -> Seq<JsonValue> {
    if flag_param(params, "is_full"@) {
        seq![complete_clause()]
    } else {
        Seq::empty()
    }
}

/// The clauses of a story listing: one for each filter that the request
/// names, in the order title, author, completeness.
pub open spec fn story_filters(params: Map<Seq<char>, Seq<char>>) -> Seq<JsonValue> {
    title_filter(params) + author_filter(params) + complete_filter(params)
}

/// The sort order of a story listing: by recency where asked for, else
/// none, which leaves the order to the backend.
pub open spec fn story_order(latest: bool) -> Option<JsonValue> {
    if latest {
        Some(newest_first())
    } else {
        None
    }
}

/// The window of a story listing for the parameters of a request.
pub open spec fn stories_window(params: Map<Seq<char>, Seq<char>>) -> Pagination {
    window(requested_page(params), requested_size(params, DEFAULT_PAGE_SIZE), DEFAULT_PAGE_SIZE)
}

/// The query document of a story listing.
pub open spec fn stories_query(params: Map<Seq<char>, Seq<char>>) -> JsonValue {
    document(
        all_of(story_filters(params)),
        Some(stories_window(params).spec_offset()),
        Some(stories_window(params).size),
        story_order(flag_param(params, "sort_by_latest"@)),
    )
}

/// The search of a story listing.
pub open spec fn stories_search(params: Map<Seq<char>, Seq<char>>) -> SearchView {
    SearchView { query: stories_query(params), shaper: Shaper::Stories(stories_window(params)) }
}

/// The query document of the listing of a category.
pub open spec fn category_stories_query(
    category_id: Seq<char>,
    page: usize,
    size: usize,
    latest: bool,
) -> JsonValue {
    document(
        all_of(seq![term("categories.category_id.keyword"@, text_value(category_id))]),
        Some(window(page, size, DEFAULT_PAGE_SIZE).spec_offset()),
        Some(window(page, size, DEFAULT_PAGE_SIZE).size),
        story_order(latest),
    )
}

/// The search of the listing of a category.
pub open spec fn category_stories_search(
    category_id: Seq<char>,
    page: usize,
    size: usize,
    latest: bool,
) -> SearchView {
    SearchView {
        query: category_stories_query(category_id, page, size, latest),
        shaper: Shaper::Stories(window(page, size, DEFAULT_PAGE_SIZE)),
    }
}

/// What the detail of a story does with the segments of a path: the path
/// needs a fourth segment, which is the story's URL key.
pub open spec fn story_detail(parts: Seq<Seq<char>>) -> StepView {
    if parts.len() < 4 {
        StepView::Respond(bad_request("Bad Request: Missing URL key"@))
    } else {
        StepView::Search(SearchView { query: by_url_key(parts[3]), shaper: Shaper::Story })
    }
}

/// The sort order of a story listing.
pub fn order_of(latest: bool) -> (sort: Option<Json>)
    ensures
        optional_value(sort) == story_order(latest),
{
    if latest {
        Some(order_by("updated_date", "desc"))
    } else {
        None
    }
}

/// The clauses of a story listing.
pub fn filters(query_params: &QueryParams) -> (clauses: Vec<Json>)
    ensures
        items_of(clauses@) == story_filters(query_params@),
{
    let mut clauses: Vec<Json> = Vec::new();
    if let Some(title) = query_params.get("title") {
        let decoded = decode_or_raw(title.as_str());
        let clause = full_text_clause("title", decoded.as_str());
        proof {
            lemma_items_push(clauses@, clause);
        }
        clauses.push(clause);
    }
    proof {
        assert(items_of(clauses@) =~= title_filter(query_params@));
    }
    if let Some(author_id) = query_params.get("author_id") {
        let clause = term_clause("author.author_id.keyword", Json::text(author_id.as_str()));
        proof {
            lemma_items_push(clauses@, clause);
        }
        clauses.push(clause);
    }
    proof {
        assert(items_of(clauses@) =~= title_filter(query_params@) + author_filter(
            query_params@,
        ));
    }
    if query_params.flag("is_full") {
        let clause = term_clause("is_full", Json::Bool(true));
        proof {
            lemma_items_push(clauses@, clause);
        }
        clauses.push(clause);
    }
    proof {
        assert(items_of(clauses@) =~= story_filters(query_params@));
    }
    clauses
}

/// The search of the story listing that a request asks for.
pub fn fetch_stories(query_params: &QueryParams) -> (search: Search)
    ensures
        search@ == stories_search(query_params@),
        search.wf(),
{
    let window = Pagination::stories(query_params.page(), query_params.size(DEFAULT_PAGE_SIZE));
    let query = build_document(
        all_of_clauses(filters(query_params)),
        Some(window.offset()),
        Some(window.size),
        order_of(query_params.flag("sort_by_latest")),
    );
    Search { query, shaper: Shaper::Stories(window) }
}

/// The search of the listing of the stories of a category.
pub fn fetch_stories_by_category(
    category_id: String,
    page: usize,
    size: usize,
    sort_by_latest: bool,
) -> (search: Search)
    ensures
        search@ == category_stories_search(category_id@, page, size, sort_by_latest),
        search.wf(),
{
    let window = Pagination::stories(page, size);
    let mut clauses: Vec<Json> = Vec::new();
    let clause = term_clause("categories.category_id.keyword", Json::text(category_id.as_str()));
    proof {
        lemma_items_push(clauses@, clause);
        assert(items_of(clauses@).push(clause@) =~= seq![clause@]);
    }
    clauses.push(clause);
    let query = build_document(
        all_of_clauses(clauses),
        Some(window.offset()),
        Some(window.size),
        order_of(sort_by_latest),
    );
    Search { query, shaper: Shaper::Stories(window) }
}

/// What the detail of a story does with the segments of a path.
pub fn fetch_story_detail(path_parts: Vec<String>) -> (step: Step)
    ensures
        step@ == story_detail(texts_of(path_parts@)),
        step.wf(),
{
    if path_parts.len() < 4 {
        return Step::Respond(Response::bad_request("Bad Request: Missing URL key"));
    }
    proof {
        assert(texts_of(path_parts@)[3] == path_parts@[3]@);
    }
    Step::Search(Search { query: url_key_query(path_parts[3].as_str()), shaper: Shaper::Story })
}

/// A story listing holds the clause for complete stories exactly where the
/// request has `is_full=true`.
pub proof fn lemma_complete_clause(params: Map<Seq<char>, Seq<char>>)
    ensures
        flag_param(params, "is_full"@) <==> story_filters(params).contains(complete_clause()),
        member(member(member(stories_query(params), "query"@), "bool"@), "must"@)
            == JsonValue::Array(story_filters(params)),
{
    lemma_query_members(
        all_of(story_filters(params)),
        Some(stories_window(params).spec_offset()),
        Some(stories_window(params).size),
        story_order(flag_param(params, "sort_by_latest"@)),
    );
    lemma_conjunction_clauses(story_filters(params));
    let filters = story_filters(params);
    let clause = complete_clause();
    if flag_param(params, "is_full"@) {
        assert(filters[filters.len() - 1] == clause);
    } else {
        assert forall|i: int| 0 <= i < filters.len() implies filters[i] != clause by {
            lemma_clause_kinds();
        }
    }
}

/// A clause that matches a text is no clause on an exact value, and a
/// clause on one field is none on another value.
proof fn lemma_clause_kinds()
    ensures
        forall|field: Seq<char>, text: Seq<char>| #[trigger]
            full_text(field, text) != complete_clause(),
        forall|field: Seq<char>, text: Seq<char>| #[trigger]
            term(field, text_value(text)) != complete_clause(),
{
    reveal_strlit("match");
    reveal_strlit("term");
    assert forall|field: Seq<char>, text: Seq<char>| #[trigger]
        full_text(field, text) != complete_clause() by {
        let matching = Map::<Seq<char>, JsonValue>::empty().insert(
            "match"@,
            object1(field, text_value(text)),
        );
        let exact = Map::<Seq<char>, JsonValue>::empty().insert(
            "term"@,
            object1("is_full"@, JsonValue::Bool(true)),
        );
        assert("match"@.len() == 5);
        assert("term"@.len() == 4);
        assert(matching.contains_key("match"@));
        assert(!exact.contains_key("match"@));
    }
    assert forall|field: Seq<char>, text: Seq<char>| #[trigger]
        term(field, text_value(text)) != complete_clause() by {
        let one = Map::<Seq<char>, JsonValue>::empty().insert(field, text_value(text));
        let other = Map::<Seq<char>, JsonValue>::empty().insert("is_full"@, JsonValue::Bool(true));
        assert(one.contains_key(field));
        if one == other {
            assert(other.contains_key(field));
            assert(one[field] == other[field]);
        }
        let outer_one = Map::<Seq<char>, JsonValue>::empty().insert(
            "term"@,
            JsonValue::Object(one),
        );
        let outer_other = Map::<Seq<char>, JsonValue>::empty().insert(
            "term"@,
            JsonValue::Object(other),
        );
        assert(outer_one["term"@] == JsonValue::Object(one));
        assert(outer_other["term"@] == JsonValue::Object(other));
    }
}

/// A story listing is sorted by recency exactly where the request has
/// `sort_by_latest=true`; otherwise its query names no order.
pub proof fn lemma_stories_order(params: Map<Seq<char>, Seq<char>>)
    ensures
        flag_param(params, "sort_by_latest"@) ==> sort_of(stories_query(params)) == Some(
            newest_first(),
        ),
        !flag_param(params, "sort_by_latest"@) ==> sort_of(stories_query(params)) is None,
{
    lemma_query_members(
        all_of(story_filters(params)),
        Some(stories_window(params).spec_offset()),
        Some(stories_window(params).size),
        story_order(flag_param(params, "sort_by_latest"@)),
    );
}

/// The listing of a category is sorted by recency exactly where that is
/// asked for; otherwise its query names no order.
pub proof fn lemma_category_stories_order(
    category_id: Seq<char>,
    page: usize,
    size: usize,
    latest: bool,
)
    ensures
        latest ==> sort_of(category_stories_query(category_id, page, size, latest)) == Some(
            newest_first(),
        ),
        !latest ==> sort_of(category_stories_query(category_id, page, size, latest)) is None,
{
    lemma_query_members(
        all_of(seq![term("categories.category_id.keyword"@, text_value(category_id))]),
        Some(window(page, size, DEFAULT_PAGE_SIZE).spec_offset()),
        Some(window(page, size, DEFAULT_PAGE_SIZE).size),
        story_order(latest),
    );
}

/// A listing asks for the window of its page: the offset is the number of
/// stories on the pages before it.
pub proof fn lemma_stories_window(params: Map<Seq<char>, Seq<char>>)
    ensures
        stories_window(params).wf(),
        member(stories_query(params), "from"@) == unsigned_value(
            stories_window(params).spec_offset() as u64,
        ),
        member(stories_query(params), "size"@) == unsigned_value(
            stories_window(params).size as u64,
        ),
{
    lemma_query_members(
        all_of(story_filters(params)),
        Some(stories_window(params).spec_offset()),
        Some(stories_window(params).size),
        story_order(flag_param(params, "sort_by_latest"@)),
    );
}

} // verus!

//! The chapter endpoints: the chapters of a story and the detail of one
//! chapter.

use crate::json::{items_of, lemma_items_push, text_value, Json, JsonValue};
use crate::pagination::{window, Pagination, DEFAULT_CHAPTER_PAGE_SIZE};
use crate::query::{
    all_of, all_of_clauses, build_document, document, lemma_query_members, order_by, ordered_by,
    reading_order, sort_of, term, term_clause,
};
use crate::response::{bad_request, Response};
use crate::shaper::Shaper;
use crate::step::{Search, SearchView, Step, StepView};
use crate::text::texts_of;
use vstd::prelude::*;

verus! {

/// The query document of the chapters of a story: the story's chapters, a
/// page of them, always in the order of the story.
pub open spec fn story_chapters_query(story_id: Seq<char>, page: usize, size: usize) -> JsonValue {
    document(
        term("story_id"@, text_value(story_id)),
        Some(window(page, size, DEFAULT_CHAPTER_PAGE_SIZE).spec_offset()),
        Some(window(page, size, DEFAULT_CHAPTER_PAGE_SIZE).size),
        Some(reading_order()),
    )
}

/// The search of the chapters of a story.
pub open spec fn story_chapters_search(story_id: Seq<char>, page: usize, size: usize) -> SearchView {
    SearchView {
        query: story_chapters_query(story_id, page, size),
        shaper: Shaper::Chapters(window(page, size, DEFAULT_CHAPTER_PAGE_SIZE)),
    }
}

/// The query document of the detail of a chapter: the chapter with the
/// given key in the story with the given key.
pub open spec fn chapter_query(story_key: Seq<char>, chapter_key: Seq<char>) -> JsonValue {
    document(
        all_of(
            seq![
                term("story_url_key"@, text_value(story_key)),
                term("url_key"@, text_value(chapter_key)),
            ],
        ),
        None,
        None,
        None,
    )
}

/// What the detail of a chapter does with the segments of a path: the path
/// needs a fourth and a fifth segment, the URL keys of the story and of the
/// chapter.
pub open spec fn chapter_detail(parts: Seq<Seq<char>>) -> StepView {
    if parts.len() < 5 {
        StepView::Respond(bad_request("Bad Request: Missing story/chapter keys"@))
    } else {
        StepView::Search(
            SearchView { query: chapter_query(parts[3], parts[4]), shaper: Shaper::Chapter },
        )
    }
}

/// The search of the chapters of a story.
pub fn fetch_chapters_by_story_id(story_id: String, page: usize, size: usize) -> (search: Search)
    ensures
        search@ == story_chapters_search(story_id@, page, size),
        search.wf(),
{
    let window = Pagination::chapters(page, size);
    let query = build_document(
        term_clause("story_id", Json::text(story_id.as_str())),
        Some(window.offset()),
        Some(window.size),
        Some(order_by("ordered", "asc")),
    );
    Search { query, shaper: Shaper::Chapters(window) }
}

/// What the detail of a chapter does with the segments of a path.
pub fn fetch_chapter_detail(path_parts: Vec<String>) -> (step: Step)
    ensures
        step@ == chapter_detail(texts_of(path_parts@)),
        step.wf(),
{
    if path_parts.len() < 5 {
        return Step::Respond(Response::bad_request("Bad Request: Missing story/chapter keys"));
    }
    proof {
        assert(texts_of(path_parts@)[3] == path_parts@[3]@);
        assert(texts_of(path_parts@)[4] == path_parts@[4]@);
    }
    let mut clauses: Vec<Json> = Vec::new();
    let of_story = term_clause("story_url_key", Json::text(path_parts[3].as_str()));
    let of_chapter = term_clause("url_key", Json::text(path_parts[4].as_str()));
    proof {
        lemma_items_push(clauses@, of_story);
        lemma_items_push(clauses@.push(of_story), of_chapter);
        assert(items_of(clauses@).push(of_story@).push(of_chapter@) =~= seq![
            of_story@,
            of_chapter@,
        ]);
    }
    clauses.push(of_story);
    clauses.push(of_chapter);
    let query = build_document(all_of_clauses(clauses), None, None, None);
    Step::Search(Search { query, shaper: Shaper::Chapter })
}

/// The chapters of a story are always asked for in the order of the story,
/// whatever the request says.
pub proof fn lemma_chapters_order(story_id: Seq<char>, page: usize, size: usize)
    ensures
        sort_of(story_chapters_query(story_id, page, size)) == Some(reading_order()),
        reading_order() == ordered_by("ordered"@, "asc"@),
{
    lemma_query_members(
        term("story_id"@, text_value(story_id)),
        Some(window(page, size, DEFAULT_CHAPTER_PAGE_SIZE).spec_offset()),
        Some(window(page, size, DEFAULT_CHAPTER_PAGE_SIZE).size),
        Some(reading_order()),
    );
}

} // verus!

//! From the backend's search result to the response for the client.
//!
//! A list endpoint answers with an envelope around the matched documents; a
//! detail endpoint answers with the first matched document itself, or with
//! 404 where nothing matched. A failed search gives the backend's status or
//! 500, whatever the endpoint.

use crate::backend::{result_view, BackendError, BackendErrorView};
use crate::codec::json_text;
use crate::json::{
    elements, items_of, lemma_items, lemma_items_push, member, put, text_value, unsigned,
    unsigned_value, Json, JsonValue,
};
use crate::pagination::{pages_for, Pagination};
use crate::response::{backend_unreachable, json_ok, plain, Response, ResponseView};
use vstd::prelude::*;

verus! {

/// How the result of a search becomes the response: one way per kind of
/// endpoint.
#[derive(Clone, Copy, Debug, PartialEq, Eq)]
pub enum Shaper {
    /// A page of stories with the totals.
    Stories(Pagination),
    /// A page of chapter summaries with the totals.
    Chapters(Pagination),
    /// All categories that matched, without totals.
    Categories,
    /// One story.
    Story,
    /// One chapter.
    Chapter,
    /// One category.
    Category,
    /// One author.
    Author,
}

/// The matched entries of a search result, in the backend's order.
pub open spec fn hits_of(body: JsonValue) -> Seq<JsonValue> {
    elements(member(member(body, "hits"@), "hits"@))
}

/// The stored document of a matched entry.
pub open spec fn source_of(hit: JsonValue) -> JsonValue {
    member(hit, "_source"@)
}

/// The stored documents of all matched entries.
pub open spec fn sources_of(body: JsonValue) -> Seq<JsonValue> {
    hits_of(body).map_values(|hit: JsonValue| source_of(hit))
}

/// The number of documents that matched in all: zero where the result does
/// not say.
pub open spec fn total_of(body: JsonValue) -> u64 {
    match unsigned(member(member(member(body, "hits"@), "total"@), "value"@)) {
        Some(n) => n,
        None => 0,
    }
}

/// The summary of a chapter: ten fields of its stored document, each null
/// where the document lacks it.
pub open spec fn chapter_summary(source: JsonValue) -> JsonValue {
    JsonValue::Object(
        Map::empty().insert("chapter_id"@, member(source, "chapter_id"@)).insert(
            "story_id"@,
            member(source, "story_id"@),
        ).insert("increment_id"@, member(source, "increment_id"@)).insert(
            "title"@,
            member(source, "title"@),
        ).insert("short_title"@, member(source, "short_title"@)).insert(
            "url_key"@,
            member(source, "url_key"@),
        ).insert("ordered"@, member(source, "ordered"@)).insert(
            "status"@,
            member(source, "status"@),
        ).insert("created_date"@, member(source, "created_date"@)).insert(
            "updated_date"@,
            member(source, "updated_date"@),
        ),
    )
}

/// The summaries of all matched chapters.
pub open spec fn summaries_of(body: JsonValue) -> Seq<JsonValue> {
    hits_of(body).map_values(|hit: JsonValue| chapter_summary(source_of(hit)))
}

/// The envelope of a list response around its data.
pub open spec fn envelope(data: JsonValue) -> JsonValue {
    JsonValue::Object(
        Map::empty().insert("message"@, text_value("Successfully"@)).insert(
            "error"@,
            JsonValue::Bool(false),
        ).insert("data"@, data),
    )
}

/// The data of a list without totals.
pub open spec fn listed(list: Seq<JsonValue>) -> JsonValue {
    JsonValue::Object(Map::empty().insert("list"@, JsonValue::Array(list)))
}

/// The data of one page of a list: the page, the number of all matches and
/// the number of pages they fill.
pub open spec fn paged(list: Seq<JsonValue>, total: u64, window: Pagination) -> JsonValue {
    JsonValue::Object(
        Map::empty().insert("list"@, JsonValue::Array(list)).insert(
            "total"@,
            unsigned_value(total),
        ).insert("total_page"@, unsigned_value(window.spec_total_pages(total))),
    )
}

/// The document that a detail endpoint answers with: the stored document
/// of the first match, where there is a match and its stored document is an
/// object.
pub open spec fn first_document(body: JsonValue) -> Option<JsonValue> {
    let hits = hits_of(body);
    if hits.len() > 0 && source_of(hits[0]) is Object {
        Some(source_of(hits[0]))
    } else {
        None
    }
}

impl Shaper {
    /// The page size of a paged list is at least one.
    pub open spec fn wf(&self) -> bool {
        match self {
            Shaper::Stories(window) => window.wf(),
            Shaper::Chapters(window) => window.wf(),
            _ => true,
        }
    }

    /// Whether the endpoint answers with one document.
    pub open spec fn is_detail(&self) -> bool {
        match self {
            Shaper::Story | Shaper::Chapter | Shaper::Category | Shaper::Author => true,
            _ => false,
        }
    }

    /// The backend collection that the endpoint searches.
    pub open spec fn spec_collection(&self) -> Seq<char> {
        match self {
            Shaper::Stories(_) | Shaper::Story => "stories"@,
            Shaper::Chapters(_) | Shaper::Chapter => "chapters"@,
            Shaper::Categories | Shaper::Category => "categories"@,
            Shaper::Author => "authors"@,
        }
    }

    /// The body of the 404 response of a detail endpoint.
    pub open spec fn spec_missing(&self) -> Seq<char> {
        match self {
            Shaper::Story => "Story not found"@,
            Shaper::Chapter => "Chapter not found"@,
            Shaper::Category => "Category not found"@,
            Shaper::Author => "Author not found"@,
            _ => Seq::empty(),
        }
    }

    /// The body of the response to a search that the backend rejected.
    pub open spec fn spec_rejected(&self) -> Seq<char> {
        match self {
            Shaper::Stories(_) => "Failed to fetch stories"@,
            Shaper::Chapters(_) => "Failed to fetch chapters"@,
            Shaper::Categories => "Failed to fetch categories"@,
            Shaper::Story => "Story not found"@,
            Shaper::Chapter => "Chapter not found"@,
            Shaper::Category => "Failed to fetch category"@,
            Shaper::Author => "Failed to fetch author"@,
        }
    }

    /// The document that a list endpoint answers with.
    pub open spec fn spec_listing(&self, body: JsonValue) -> JsonValue {
        match self {
            Shaper::Stories(window) => envelope(
                paged(sources_of(body), total_of(body), *window),
            ),
            Shaper::Chapters(window) => envelope(
                paged(summaries_of(body), total_of(body), *window),
            ),
            _ => envelope(listed(sources_of(body))),
        }
    }

    /// The response to a successful search with the given result.
    pub open spec fn spec_shape(&self, body: JsonValue) -> ResponseView {
        if self.is_detail() {
            match first_document(body) {
                Some(document) => json_ok(json_text(document)),
                None => plain(404, self.spec_missing()),
            }
        } else {
            json_ok(json_text(self.spec_listing(body)))
        }
    }

    /// The response to a failed search.
    pub open spec fn spec_fail(&self, error: BackendErrorView) -> ResponseView {
        match error {
            BackendErrorView::Rejected { status } => plain(status, self.spec_rejected()),
            BackendErrorView::Unreachable { detail } => backend_unreachable(detail),
        }
    }

    /// The response to a search with the given outcome.
    pub open spec fn spec_respond(&self, result: Result<JsonValue, BackendErrorView>) -> ResponseView {
        match result {
            Ok(body) => self.spec_shape(body),
            Err(error) => self.spec_fail(error),
        }
    }

    /// Whether the page size of a paged list is at least one.
    pub fn is_wf(&self) -> (b: bool)
        ensures
            b == self.wf(),
    {
        match self {
            Shaper::Stories(window) => window.is_wf(),
            Shaper::Chapters(window) => window.is_wf(),
            _ => true,
        }
    }

    /// The backend collection that the endpoint searches.
    pub fn collection(&self) -> (name: &'static str)
        ensures
            name@ == self.spec_collection(),
    {
        match self {
            Shaper::Stories(_) | Shaper::Story => "stories",
            Shaper::Chapters(_) | Shaper::Chapter => "chapters",
            Shaper::Categories | Shaper::Category => "categories",
            Shaper::Author => "authors",
        }
    }

    /// The body of the 404 response of a detail endpoint.
    pub fn missing(&self) -> (message: &'static str)
        ensures
            message@ == self.spec_missing(),
    {
        match self {
            Shaper::Story => "Story not found",
            Shaper::Chapter => "Chapter not found",
            Shaper::Category => "Category not found",
            Shaper::Author => "Author not found",
            _ => {
                proof {
                    reveal_strlit("");
                    assert(""@ =~= Seq::<char>::empty());
                }
                ""
            },
        }
    }

    /// The body of the response to a search that the backend rejected.
    pub fn rejected(&self) -> (message: &'static str)
        ensures
            message@ == self.spec_rejected(),
    {
        match self {
            Shaper::Stories(_) => "Failed to fetch stories",
            Shaper::Chapters(_) => "Failed to fetch chapters",
            Shaper::Categories => "Failed to fetch categories",
            Shaper::Story => "Story not found",
            Shaper::Chapter => "Chapter not found",
            Shaper::Category => "Failed to fetch category",
            Shaper::Author => "Failed to fetch author",
        }
    }

    /// The document that a list endpoint answers with.
    pub fn listing(&self, body: &Json) -> (document: Json)
        requires
            self.wf(),
        ensures
            document@ == self.spec_listing(body@),
    {
        let data = match self {
            Shaper::Stories(window) => {
                let total = total(body);
                page_data(sources(body), total, window)
            },
            Shaper::Chapters(window) => {
                let total = total(body);
                page_data(summaries(body), total, window)
            },
            _ => {
                let mut data: Vec<(String, Json)> = Vec::new();
                put(&mut data, "list", Json::Array(sources(body)));
                Json::Object(data)
            },
        };
        let mut fields: Vec<(String, Json)> = Vec::new();
        put(&mut fields, "message", Json::text("Successfully"));
        put(&mut fields, "error", Json::Bool(false));
        put(&mut fields, "data", data);
        Json::Object(fields)
    }

    /// The response to a successful search with the given result.
    pub fn shape(&self, body: &Json) -> (response: Response)
        requires
            self.wf(),
        ensures
            response@ == self.spec_shape(body@),
    {
        match self {
            Shaper::Story | Shaper::Chapter | Shaper::Category | Shaper::Author => {
                match first(body) {
                    Some(document) => Response::json_ok(document.render()),
                    None => Response::plain(404, self.missing()),
                }
            },
            _ => Response::json_ok(self.listing(body).render()),
        }
    }

    /// The response to a failed search.
    pub fn fail(&self, error: &BackendError) -> (response: Response)
        ensures
            response@ == self.spec_fail(error@),
    {
        match error {
            BackendError::Rejected { status } => Response::plain(*status, self.rejected()),
            BackendError::Unreachable { detail } => Response::backend_unreachable(detail.as_str()),
        }
    }

    /// The response to a search with the given outcome.
    pub fn respond(&self, result: &Result<Json, BackendError>) -> (response: Response)
        requires
            self.wf(),
        ensures
            response@ == self.spec_respond(result_view(*result)),
    {
        match result {
            Ok(body) => self.shape(body),
            Err(error) => self.fail(error),
        }
    }
}

/// The matched entries of a search result; none where the result has no
/// list of them.
pub fn hits(body: &Json) -> (list: Option<&Vec<Json>>)
    ensures
        match list {
            Some(entries) => items_of(entries@) == hits_of(body@),
            None => hits_of(body@) == Seq::<JsonValue>::empty(),
        },
{
    match body.get("hits") {
        Some(outer) => match outer.get("hits") {
            Some(inner) => inner.as_array(),
            None => None,
        },
        None => None,
    }
}

/// The number of documents that matched in all.
pub fn total(body: &Json) -> (n: u64)
    ensures
        n == total_of(body@),
{
    let value = body.member("hits").member("total").member("value");
    match value.as_u64() {
        Some(n) => n,
        None => 0,
    }
}

/// The stored documents of all matched entries.
pub fn sources(body: &Json) -> (list: Vec<Json>)
    ensures
        items_of(list@) == sources_of(body@),
{
    let mut list: Vec<Json> = Vec::new();
    let entries = match hits(body) {
        Some(entries) => entries,
        None => {
            proof {
                assert(sources_of(body@) =~= Seq::<JsonValue>::empty());
            }
            return list;
        },
    };
    let mut i: usize = 0;
    proof {
        lemma_items(entries@);
        assert(sources_of(body@).take(0) =~= Seq::<JsonValue>::empty());
    }
    while i < entries.len()
        invariant
            i <= entries.len(),
            items_of(entries@) == hits_of(body@),
            items_of(entries@).len() == entries.len(),
            forall|j: int|
                0 <= j < entries.len() ==> (#[trigger] items_of(entries@)[j]) == entries@[j]@,
            items_of(list@) == sources_of(body@).take(i as int),
        decreases entries.len() - i,
    {
        let source = entries[i].member("_source");
        proof {
            lemma_items_push(list@, source);
            assert(items_of(entries@)[i as int] == entries@[i as int]@);
            assert(sources_of(body@).take(i as int).push(source@) =~= sources_of(body@).take(
                i + 1,
            ));
        }
        list.push(source);
        i += 1;
    }
    proof {
        assert(sources_of(body@).take(i as int) =~= sources_of(body@));
    }
    list
}

/// The summary of a chapter from its stored document.
pub fn summary(source: &Json) -> (json: Json)
    ensures
        json@ == chapter_summary(source@),
{
    let mut fields: Vec<(String, Json)> = Vec::new();
    put(&mut fields, "chapter_id", source.member("chapter_id"));
    put(&mut fields, "story_id", source.member("story_id"));
    put(&mut fields, "increment_id", source.member("increment_id"));
    put(&mut fields, "title", source.member("title"));
    put(&mut fields, "short_title", source.member("short_title"));
    put(&mut fields, "url_key", source.member("url_key"));
    put(&mut fields, "ordered", source.member("ordered"));
    put(&mut fields, "status", source.member("status"));
    put(&mut fields, "created_date", source.member("created_date"));
    put(&mut fields, "updated_date", source.member("updated_date"));
    Json::Object(fields)
}

/// The summaries of all matched chapters.
pub fn summaries(body: &Json) -> (list: Vec<Json>)
    ensures
        items_of(list@) == summaries_of(body@),
{
    let mut list: Vec<Json> = Vec::new();
    let entries = match hits(body) {
        Some(entries) => entries,
        None => {
            proof {
                assert(summaries_of(body@) =~= Seq::<JsonValue>::empty());
            }
            return list;
        },
    };
    let mut i: usize = 0;
    proof {
        lemma_items(entries@);
        assert(summaries_of(body@).take(0) =~= Seq::<JsonValue>::empty());
    }
    while i < entries.len()
        invariant
            i <= entries.len(),
            items_of(entries@) == hits_of(body@),
            items_of(entries@).len() == entries.len(),
            forall|j: int|
                0 <= j < entries.len() ==> (#[trigger] items_of(entries@)[j]) == entries@[j]@,
            items_of(list@) == summaries_of(body@).take(i as int),
        decreases entries.len() - i,
    {
        let source = entries[i].member("_source");
        let entry = summary(&source);
        proof {
            lemma_items_push(list@, entry);
            assert(items_of(entries@)[i as int] == entries@[i as int]@);
            assert(summaries_of(body@).take(i as int).push(entry@) =~= summaries_of(body@).take(
                i + 1,
            ));
        }
        list.push(entry);
        i += 1;
    }
    proof {
        assert(summaries_of(body@).take(i as int) =~= summaries_of(body@));
    }
    list
}

/// The data of one page of a list.
pub fn page_data(list: Vec<Json>, total: u64, window: &Pagination) -> (data: Json)
    requires
        window.wf(),
    ensures
        data@ == paged(items_of(list@), total, *window),
{
    let mut data: Vec<(String, Json)> = Vec::new();
    put(&mut data, "list", Json::Array(list));
    put(&mut data, "total", Json::unsigned(total));
    put(&mut data, "total_page", Json::unsigned(window.total_pages(total)));
    Json::Object(data)
}

/// The document that a detail endpoint answers with, if there is one.
pub fn first(body: &Json) -> (found: Option<Json>)
    ensures
        match found {
            Some(document) => first_document(body@) == Some(document@),
            None => first_document(body@) is None,
        },
{
    match hits(body) {
        Some(entries) => {
            if entries.len() > 0 {
                proof {
                    lemma_items(entries@);
                    assert(items_of(entries@)[0] == entries@[0]@);
                }
                let source = entries[0].member("_source");
                if source.is_object() {
                    Some(source)
                } else {
                    None
                }
            } else {
                proof {
                    lemma_items(entries@);
                }
                None
            }
        },
        None => None,
    }
}

/// A detail endpoint answers a search that matched nothing with 404 and
/// the not-found message of its resource.
pub proof fn lemma_detail_without_match(shaper: Shaper, body: JsonValue)
    requires
        shaper.is_detail(),
        hits_of(body).len() == 0,
    ensures
        shaper.spec_respond(Ok(body)) == plain(404, shaper.spec_missing()),
        shaper.spec_respond(Ok(body)).status == 404,
        shaper == Shaper::Story ==> shaper.spec_respond(Ok(body)).body == "Story not found"@,
        shaper == Shaper::Chapter ==> shaper.spec_respond(Ok(body)).body == "Chapter not found"@,
        shaper == Shaper::Category ==> shaper.spec_respond(Ok(body)).body
            == "Category not found"@,
        shaper == Shaper::Author ==> shaper.spec_respond(Ok(body)).body == "Author not found"@,
{
}

/// A detail endpoint answers with the stored document of the first match,
/// whatever else matched.
pub proof fn lemma_detail_with_match(shaper: Shaper, body: JsonValue)
    requires
        shaper.is_detail(),
        hits_of(body).len() > 0,
        source_of(hits_of(body)[0]) is Object,
    ensures
        shaper.spec_respond(Ok(body)) == json_ok(json_text(source_of(hits_of(body)[0]))),
{
}

/// A list endpoint lists one document for every match, in the order of
/// the matches.
pub proof fn lemma_list_length(body: JsonValue)
    ensures
        sources_of(body).len() == hits_of(body).len(),
        summaries_of(body).len() == hits_of(body).len(),
{
}

/// The envelope of a list response holds the fixed message, the error flag
/// unset, and the data.
pub proof fn lemma_envelope_members(data: JsonValue)
    ensures
        member(envelope(data), "message"@) == text_value("Successfully"@),
        member(envelope(data), "error"@) == JsonValue::Bool(false),
        member(envelope(data), "data"@) == data,
{
    reveal_strlit("message");
    reveal_strlit("error");
    reveal_strlit("data");
    assert("message"@.len() == 7 && "error"@.len() == 5 && "data"@.len() == 4);
}

/// The data of a page tell the documents of the page, the number of all
/// matches, and the number of pages that the matches fill: the quotient of
/// the matches by the page size, rounded up.
pub proof fn lemma_page_data(list: Seq<JsonValue>, total: u64, window: Pagination)
    requires
        window.wf(),
    ensures
        member(paged(list, total, window), "list"@) == JsonValue::Array(list),
        member(paged(list, total, window), "total"@) == unsigned_value(total),
        member(paged(list, total, window), "total_page"@) == unsigned_value(
            window.spec_total_pages(total),
        ),
        window.spec_total_pages(total) == pages_for(total as int, window.size as int),
{
    reveal_strlit("list");
    reveal_strlit("total");
    reveal_strlit("total_page");
    assert("list"@.len() == 4 && "total"@.len() == 5 && "total_page"@.len() == 10);
    crate::pagination::lemma_window_pages(window, total);
}

/// A paged listing is the envelope around the data of the page: the
/// stored documents of the matches for stories, their summaries for
/// chapters, with the totals of the search.
pub proof fn lemma_listing_data(window: Pagination, body: JsonValue)
    ensures
        member(Shaper::Stories(window).spec_listing(body), "data"@) == paged(
            sources_of(body),
            total_of(body),
            window,
        ),
        member(Shaper::Chapters(window).spec_listing(body), "data"@) == paged(
            summaries_of(body),
            total_of(body),
            window,
        ),
        member(Shaper::Categories.spec_listing(body), "data"@) == listed(sources_of(body)),
{
    lemma_envelope_members(paged(sources_of(body), total_of(body), window));
    lemma_envelope_members(paged(summaries_of(body), total_of(body), window));
    lemma_envelope_members(listed(sources_of(body)));
}

/// A failed search is answered alike by every endpoint but for the message
/// of a rejection: the backend's status where it rejected the search, 500
/// where it could not be reached.
pub proof fn lemma_failures(shaper: Shaper, error: BackendErrorView)
    ensures
        error matches BackendErrorView::Rejected { status } ==> shaper.spec_respond(Err(error))
            == plain(status, shaper.spec_rejected()),
        error matches BackendErrorView::Unreachable { detail } ==> shaper.spec_respond(
            Err(error),
        ) == plain(500, "Elasticsearch error: "@ + detail),
{
}

} // verus!

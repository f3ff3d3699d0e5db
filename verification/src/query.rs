//! The parts that search queries are made of.

use crate::json::{
    items_of, lemma_items_push, member, object1, optional_value, put, text_value, unsigned_value,
    Json, JsonValue,
};
use vstd::prelude::*;

verus! {

/// A clause that a field holds exactly the given value.
pub open spec fn term(field: Seq<char>, value: JsonValue) -> JsonValue {
    object1("term"@, object1(field, value))
}

/// A clause that a field matches the given text in full-text search.
pub open spec fn full_text(field: Seq<char>, text: Seq<char>) -> JsonValue {
    object1("match"@, object1(field, text_value(text)))
}

/// The conjunction of clauses: a document matches where it meets them all.
pub open spec fn all_of(clauses: Seq<JsonValue>) -> JsonValue {
    object1("bool"@, object1("must"@, JsonValue::Array(clauses)))
}

/// A sort specification by one field in one direction.
pub open spec fn ordered_by(field: Seq<char>, direction: Seq<char>) -> JsonValue {
    JsonValue::Array(seq![object1(field, object1("order"@, text_value(direction)))])
}

/// Most recently updated first.
pub open spec fn newest_first() -> JsonValue {
    ordered_by("updated_date"@, "desc"@)
}

/// Chapters in the order of the story.
pub open spec fn reading_order() -> JsonValue {
    ordered_by("ordered"@, "asc"@)
}

/// A number of a query document, where there is one.
pub open spec fn with_number(
    members: Map<Seq<char>, JsonValue>,
    name: Seq<char>,
    number: Option<usize>,
) -> Map<Seq<char>, JsonValue> {
    match number {
        Some(n) => members.insert(name, unsigned_value(n as u64)),
        None => members,
    }
}

/// The sort specification of a query document, where there is one.
pub open spec fn with_sort(members: Map<Seq<char>, JsonValue>, sort: Option<JsonValue>) -> Map<
    Seq<char>,
    JsonValue,
> {
    match sort {
        Some(order) => members.insert("sort"@, order),
        None => members,
    }
}

/// A query document: the query itself, then as far as they are given the
/// offset of the first result, the number of results and the sort order.
pub open spec fn document(
    query: JsonValue,
    from: Option<usize>,
    size: Option<usize>,
    sort: Option<JsonValue>,
) -> JsonValue {
    JsonValue::Object(
        with_sort(
            with_number(
                with_number(Map::empty().insert("query"@, query), "from"@, from),
                "size"@,
                size,
            ),
            sort,
        ),
    )
}

/// The query document of a detail by URL key: the one document with the
/// key.
pub open spec fn by_url_key(url_key: Seq<char>) -> JsonValue {
    document(term("url_key"@, text_value(url_key)), None, Some(1usize), None)
}

/// The sort order that a query document names, if it names one.
pub open spec fn sort_of(document: JsonValue) -> Option<JsonValue> {
    match document {
        JsonValue::Object(members) => if members.contains_key("sort"@) {
            Some(members["sort"@])
        } else {
            None
        },
        _ => None,
    }
}

/// The members of a query document are what it was made of: the query,
/// and the offset, the size and the sort order as far as they were given.
pub proof fn lemma_query_members(
    query: JsonValue,
    from: Option<usize>,
    size: Option<usize>,
    sort: Option<JsonValue>,
)
    ensures
        member(document(query, from, size, sort), "query"@) == query,
        sort_of(document(query, from, size, sort)) == sort,
        from matches Some(n) ==> member(document(query, from, size, sort), "from"@)
            == unsigned_value(n as u64),
        size matches Some(n) ==> member(document(query, from, size, sort), "size"@)
            == unsigned_value(n as u64),
{
    reveal_strlit("query");
    reveal_strlit("from");
    reveal_strlit("size");
    reveal_strlit("sort");
    assert("query"@ != "from"@ && "query"@ != "size"@ && "query"@ != "sort"@) by {
        assert("query"@.len() == 5);
        assert("from"@.len() == 4);
        assert("size"@.len() == 4);
        assert("sort"@.len() == 4);
    }
    assert("from"@ != "size"@ && "from"@ != "sort"@ && "size"@ != "sort"@) by {
        assert("from"@[0] == 'f');
        assert("size"@[1] == 'i');
        assert("sort"@[1] == 'o');
        assert("size"@[0] == 's');
        assert("sort"@[0] == 's');
    }
}

/// The clauses of a conjunction are the clauses it was made of.
pub proof fn lemma_conjunction_clauses(clauses: Seq<JsonValue>)
    ensures
        member(member(all_of(clauses), "bool"@), "must"@) == JsonValue::Array(clauses),
{
}

/// Builds a clause that a field holds exactly the given value.
pub fn term_clause(field: &str, value: Json) -> (clause: Json)
    ensures
        clause@ == term(field@, value@),
{
    Json::object1("term", Json::object1(field, value))
}

/// Builds a clause that a field matches the given text.
pub fn full_text_clause(field: &str, text: &str) -> (clause: Json)
    ensures
        clause@ == full_text(field@, text@),
{
    Json::object1("match", Json::object1(field, Json::text(text)))
}

/// Builds the conjunction of clauses.
pub fn all_of_clauses(clauses: Vec<Json>) -> (query: Json)
    ensures
        query@ == all_of(items_of(clauses@)),
{
    Json::object1("bool", Json::object1("must", Json::Array(clauses)))
}

/// Builds a sort specification by one field in one direction.
pub fn order_by(field: &str, direction: &str) -> (sort: Json)
    ensures
        sort@ == ordered_by(field@, direction@),
{
    let mut keys: Vec<Json> = Vec::new();
    let key = Json::object1(field, Json::object1("order", Json::text(direction)));
    proof {
        lemma_items_push(keys@, key);
        assert(items_of(keys@).push(key@) =~= seq![key@]);
    }
    keys.push(key);
    Json::Array(keys)
}

/// Builds a query document.
pub fn build_document(query: Json, from: Option<usize>, size: Option<usize>, sort: Option<Json>) -> (doc:
    Json)
    ensures
        doc@ == document(query@, from, size, optional_value(sort)),
{
    let mut fields: Vec<(String, Json)> = Vec::new();
    put(&mut fields, "query", query);
    if let Some(n) = from {
        put(&mut fields, "from", Json::unsigned(n as u64));
    }
    if let Some(n) = size {
        put(&mut fields, "size", Json::unsigned(n as u64));
    }
    if let Some(order) = sort {
        put(&mut fields, "sort", order);
    }
    Json::Object(fields)
}

/// The query document of a detail by URL key.
pub fn url_key_query(url_key: &str) -> (query: Json)
    ensures
        query@ == by_url_key(url_key@),
{
    build_document(term_clause("url_key", Json::text(url_key)), None, Some(1), None)
}

} // verus!

//! JSON documents as the gateway reads and builds them.

use crate::codec::{
    contents, distinct_names, entries, json_text, look_at, map_content, map_entries, map_insert,
    map_new, named, number_as_u64, number_from_u64, number_of, parsed_json, put_together,
    unsigned_of, value_content, value_from_str, value_to_string, Parts, Seen,
};
use serde_json::{Number, Value};
use vstd::prelude::*;

verus! {

/// A JSON document. An object is kept as the list of its members in the
/// order they were added; where a name occurs twice the later member counts.
#[derive(Debug, PartialEq, Eq)]
pub enum Json {
    Null,
    Bool(bool),
    Number(Number),
    Text(String),
    Array(Vec<Json>),
    Object(Vec<(String, Json)>),
}

/// What a JSON document says: an object is a map from names to documents.
pub enum JsonValue {
    Null,
    Bool(bool),
    Number(Number),
    Text(Seq<char>),
    Array(Seq<JsonValue>),
    Object(Map<Seq<char>, JsonValue>),
}

/// The documents of a list, in order.
pub open spec fn items_of(items: Seq<Json>) -> Seq<JsonValue>
    decreases items,
{
    if items.len() == 0 {
        Seq::empty()
    } else {
        items_of(items.drop_last()).push(value_of(items.last()))
    }
}

/// The map that a list of members stands for: each member is put into the
/// map in turn, so a later member replaces an earlier one of the same name.
pub open spec fn members_of(fields: Seq<(String, Json)>) -> Map<Seq<char>, JsonValue>
    decreases fields,
{
    if fields.len() == 0 {
        Map::empty()
    } else {
        members_of(fields.drop_last()).insert(fields.last().0@, value_of(fields.last().1))
    }
}

/// What a document says.
pub open spec fn value_of(json: Json) -> JsonValue
    decreases json,
{
    match json {
        Json::Null => JsonValue::Null,
        Json::Bool(b) => JsonValue::Bool(b),
        Json::Number(n) => JsonValue::Number(n),
        Json::Text(s) => JsonValue::Text(s@),
        Json::Array(items) => JsonValue::Array(items_of(items@)),
        Json::Object(fields) => JsonValue::Object(members_of(fields@)),
    }
}

impl View for Json {
    type V = JsonValue;

    open spec fn view(&self) -> JsonValue {
        value_of(*self)
    }
}

/// Adding a document to a list adds what it says to what the list says.
pub proof fn lemma_items_push(items: Seq<Json>, last: Json)
    ensures
        items_of(items.push(last)) == items_of(items).push(last@),
{
    assert(items.push(last).drop_last() =~= items);
}

/// Adding a member to a list of members puts it into the map.
pub proof fn lemma_members_push(fields: Seq<(String, Json)>, last: (String, Json))
    ensures
        members_of(fields.push(last)) == members_of(fields).insert(last.0@, last.1@),
{
    assert(fields.push(last).drop_last() =~= fields);
}

/// What a list of documents says, position by position.
pub proof fn lemma_items(items: Seq<Json>)
    ensures
        items_of(items).len() == items.len(),
        forall|i: int| 0 <= i < items.len() ==> (#[trigger] items_of(items)[i]) == items[i]@,
    decreases items.len(),
{
    if items.len() > 0 {
        lemma_items(items.drop_last());
    }
}

/// A name that no member has is not in the map.
pub proof fn lemma_member_absent(fields: Seq<(String, Json)>, name: Seq<char>)
    requires
        forall|i: int| 0 <= i < fields.len() ==> (#[trigger] fields[i]).0@ != name,
    ensures
        !members_of(fields).contains_key(name),
    decreases fields.len(),
{
    if fields.len() > 0 {
        assert(fields.last() == fields[fields.len() - 1]);
        lemma_member_absent(fields.drop_last(), name);
    }
}

/// The last member of a name is the one the map holds.
pub proof fn lemma_member_found(fields: Seq<(String, Json)>, at: int, name: Seq<char>)
    requires
        0 <= at < fields.len(),
        fields[at].0@ == name,
        forall|i: int| at < i < fields.len() ==> (#[trigger] fields[i]).0@ != name,
    ensures
        members_of(fields).contains_key(name),
        members_of(fields)[name] == fields[at].1@,
    decreases fields.len(),
{
    if at < fields.len() - 1 {
        assert(fields.last() == fields[fields.len() - 1]);
        lemma_member_found(fields.drop_last(), at, name);
    }
}

/// Whether a document is an object with a member of the given name.
pub open spec fn has_member(value: JsonValue, name: Seq<char>) -> bool {
    match value {
        JsonValue::Object(members) => members.contains_key(name),
        _ => false,
    }
}

/// The member of a document under a name: the null document where the
/// document is no object or has no such member.
pub open spec fn member(value: JsonValue, name: Seq<char>) -> JsonValue {
    match value {
        JsonValue::Object(members) => if members.contains_key(name) {
            members[name]
        } else {
            JsonValue::Null
        },
        _ => JsonValue::Null,
    }
}

/// The items of a document that is a list: none for any other document.
pub open spec fn elements(value: JsonValue) -> Seq<JsonValue> {
    match value {
        JsonValue::Array(items) => items,
        _ => Seq::empty(),
    }
}

/// The unsigned integer that a document is, if it is one.
pub open spec fn unsigned(value: JsonValue) -> Option<u64> {
    match value {
        JsonValue::Number(number) => unsigned_of(number),
        _ => None,
    }
}

/// What an optional document says.
pub open spec fn optional_value(json: Option<Json>) -> Option<JsonValue> {
    match json {
        Some(j) => Some(j@),
        None => None,
    }
}

/// The document that is the text `text`.
pub open spec fn text_value(text: Seq<char>) -> JsonValue {
    JsonValue::Text(text)
}

/// The document that is the unsigned integer `n`.
pub open spec fn unsigned_value(n: u64) -> JsonValue {
    JsonValue::Number(number_of(n))
}

/// The object with one member.
pub open spec fn object1(name: Seq<char>, value: JsonValue) -> JsonValue {
    JsonValue::Object(Map::empty().insert(name, value))
}

impl Json {
    /// The document that is the given text.
    pub fn text(text: &str) -> (json: Json)
        ensures
            json@ == text_value(text@),
    {
        Json::Text(text.to_owned())
    }

    /// The document that is the given unsigned integer.
    pub fn unsigned(n: u64) -> (json: Json)
        ensures
            json@ == unsigned_value(n),
    {
        Json::Number(number_from_u64(n))
    }

    /// The object with the one member `name`.
    pub fn object1(name: &str, value: Json) -> (json: Json)
        ensures
            json@ == object1(name@, value@),
    {
        let mut fields: Vec<(String, Json)> = Vec::new();
        put(&mut fields, name, value);
        Json::Object(fields)
    }

    /// The member under `name`, if the document is an object that has one.
    pub fn get(&self, name: &str) -> (found: Option<&Json>)
        ensures
            found is Some <==> has_member(self@, name@),
            found matches Some(json) ==> json@ == member(self@, name@),
    {
        match self {
            Json::Object(fields) => {
                let wanted = name.to_owned();
                let mut i: usize = fields.len();
                while i > 0
                    invariant
                        i <= fields.len(),
                        wanted@ == name@,
                        *self == Json::Object(*fields),
                        forall|j: int| i <= j < fields.len() ==> (#[trigger] fields@[j]).0@ != name@,
                    decreases i,
                {
                    i -= 1;
                    if fields[i].0 == wanted {
                        proof {
                            lemma_member_found(fields@, i as int, name@);
                        }
                        return Some(&fields[i].1);
                    }
                }
                proof {
                    lemma_member_absent(fields@, name@);
                }
                None
            },
            _ => None,
        }
    }

    /// A copy of the member under `name`: the null document where the
    /// document is no object or has no such member.
    pub fn member(&self, name: &str) -> (json: Json)
        ensures
            json@ == member(self@, name@),
    {
        match self.get(name) {
            Some(found) => found.clone(),
            None => Json::Null,
        }
    }

    /// The items, if the document is a list.
    pub fn as_array(&self) -> (items: Option<&Vec<Json>>)
        ensures
            match items {
                Some(list) => self@ == JsonValue::Array(items_of(list@)),
                None => !(self@ is Array),
            },
    {
        match self {
            Json::Array(items) => Some(items),
            _ => None,
        }
    }

    /// The document as an unsigned integer, if it is one.
    pub fn as_u64(&self) -> (n: Option<u64>)
        ensures
            n == unsigned(self@),
    {
        match self {
            Json::Number(number) => number_as_u64(number),
            _ => None,
        }
    }

    /// Whether the document is an object.
    pub fn is_object(&self) -> (b: bool)
        ensures
            b == (self@ is Object),
    {
        match self {
            Json::Object(_) => true,
            _ => false,
        }
    }

    /// Reads a JSON text. `None` exactly where the text is not JSON.
    pub fn parse(text: &str) -> (parsed: Option<Json>)
        ensures
            optional_value(parsed) == parsed_json(text@),
    {
        match value_from_str(text) {
            Ok(value) => Some(json_of_value(&value)),
            Err(_) => None,
        }
    }

    /// Writes the document as compact JSON text.
    pub fn render(&self) -> (text: String)
        ensures
            text@ == json_text(self@),
    {
        let value = value_of_json(self);
        value_to_string(&value)
    }
}

/// A row of named documents stands for a finite map.
proof fn lemma_named_finite(pairs: Seq<(Seq<char>, JsonValue)>)
    ensures
        named(pairs).dom().finite(),
    decreases pairs.len(),
{
    if pairs.len() > 0 {
        lemma_named_finite(pairs.drop_last());
    }
}

/// Where no two of a row of named documents have the same name, each is in
/// the map under its name.
proof fn lemma_named_member(pairs: Seq<(Seq<char>, JsonValue)>, at: int)
    requires
        distinct_names(pairs),
        0 <= at < pairs.len(),
    ensures
        named(pairs).contains_key(pairs[at].0),
        named(pairs)[pairs[at].0] == pairs[at].1,
    decreases pairs.len(),
{
    if at < pairs.len() - 1 {
        assert(pairs.last() == pairs[pairs.len() - 1]);
        assert(pairs.drop_last()[at] == pairs[at]);
        assert(distinct_names(pairs.drop_last())) by {
            assert forall|i: int, j: int|
                0 <= i < pairs.drop_last().len() && 0 <= j < pairs.drop_last().len() && i != j
                implies (#[trigger] pairs.drop_last()[i]).0 != (#[trigger] pairs.drop_last()[j]).0 by {
                assert(pairs.drop_last()[i] == pairs[i]);
                assert(pairs.drop_last()[j] == pairs[j]);
            }
        }
        lemma_named_member(pairs.drop_last(), at);
    }
}

/// The document that says what a value of the JSON crate holds.
pub fn json_of_value(value: &Value) -> (json: Json)
    ensures
        json@ == value_content(*value),
    decreases value_content(*value),
{
    match look_at(value) {
        Seen::Null => Json::Null,
        Seen::Bool(b) => Json::Bool(b),
        Seen::Number(n) => Json::Number(n.clone()),
        Seen::Text(s) => Json::Text(s.clone()),
        Seen::Array(values) => {
            let mut items: Vec<Json> = Vec::new();
            let mut i: usize = 0;
            while i < values.len()
                invariant
                    i <= values.len(),
                    value_content(*value) == JsonValue::Array(contents(values@)),
                    items_of(items@) == contents(values@).take(i as int),
                decreases values.len() - i,
            {
                proof {
                    assert(contents(values@)[i as int] == value_content(values@[i as int]));
                    assert(decreases_to!(value_content(*value) => value_content(*value)->Array_0));
                }
                let item = json_of_value(&values[i]);
                proof {
                    lemma_items_push(items@, item);
                    assert(contents(values@).take(i as int).push(item@) =~= contents(
                        values@,
                    ).take(i + 1));
                }
                items.push(item);
                i += 1;
            }
            proof {
                assert(contents(values@).take(i as int) =~= contents(values@));
            }
            Json::Array(items)
        },
        Seen::Object(map) => {
            let members = map_entries(map);
            let ghost pairs = entries(members@);
            let mut fields: Vec<(String, Json)> = Vec::new();
            let mut i: usize = 0;
            while i < members.len()
                invariant
                    i <= members.len(),
                    pairs == entries(members@),
                    distinct_names(pairs),
                    value_content(*value) == JsonValue::Object(named(pairs)),
                    members_of(fields@) == named(pairs.take(i as int)),
                decreases members.len() - i,
            {
                proof {
                    lemma_named_finite(pairs);
                    lemma_named_member(pairs, i as int);
                    assert(pairs[i as int].1 == value_content(*members@[i as int].1));
                    assert(decreases_to!(value_content(*value) => value_content(*value)->Object_0));
                }
                let name = members[i].0.clone();
                let member = json_of_value(members[i].1);
                proof {
                    lemma_members_push(fields@, (name, member));
                    assert(pairs.take(i + 1).drop_last() =~= pairs.take(i as int));
                }
                fields.push((name, member));
                i += 1;
            }
            proof {
                assert(pairs.take(i as int) =~= pairs);
            }
            Json::Object(fields)
        },
    }
}

/// The value of the JSON crate that holds what a document says.
pub fn value_of_json(json: &Json) -> (value: Value)
    ensures
        value_content(value) == json@,
    decreases json,
{
    match json {
        Json::Null => put_together(Parts::Null),
        Json::Bool(b) => put_together(Parts::Bool(*b)),
        Json::Number(n) => put_together(Parts::Number(n.clone())),
        Json::Text(s) => put_together(Parts::Text(s.clone())),
        Json::Array(items) => {
            let mut values: Vec<Value> = Vec::new();
            let mut i: usize = 0;
            proof {
                assert(contents(values@) =~= items_of(items@.take(0)));
            }
            while i < items.len()
                invariant
                    i <= items.len(),
                    *json == Json::Array(*items),
                    contents(values@) == items_of(items@.take(i as int)),
                decreases items.len() - i,
            {
                proof {
                    vstd::std_specs::vec::axiom_vec_index_decreases(*items, i as int);
                    assert(decreases_to!(*json => json->Array_0));
                }
                let value = value_of_json(&items[i]);
                proof {
                    lemma_items_push(items@.take(i as int), items@[i as int]);
                    assert(items@.take(i as int).push(items@[i as int]) =~= items@.take(i + 1));
                    assert(contents(values@.push(value)) =~= contents(values@).push(
                        value_content(value),
                    ));
                }
                values.push(value);
                i += 1;
            }
            proof {
                assert(items@.take(i as int) =~= items@);
            }
            put_together(Parts::Array(values))
        },
        Json::Object(fields) => {
            let mut members = map_new();
            let mut i: usize = 0;
            while i < fields.len()
                invariant
                    i <= fields.len(),
                    *json == Json::Object(*fields),
                    map_content(members) == members_of(fields@.take(i as int)),
                decreases fields.len() - i,
            {
                proof {
                    vstd::std_specs::vec::axiom_vec_index_decreases(*fields, i as int);
                    assert(decreases_to!(*json => json->Object_0));
                    assert(decreases_to!(fields[i as int] => fields[i as int].1));
                }
                let name = fields[i].0.clone();
                let value = value_of_json(&fields[i].1);
                proof {
                    lemma_members_push(fields@.take(i as int), fields@[i as int]);
                    assert(fields@.take(i as int).push(fields@[i as int]) =~= fields@.take(i + 1));
                }
                map_insert(&mut members, name, value);
                i += 1;
            }
            proof {
                assert(fields@.take(i as int) =~= fields@);
            }
            put_together(Parts::Object(members))
        },
    }
}

/// Adds a member to the members of an object under construction.
pub fn put(fields: &mut Vec<(String, Json)>, name: &str, value: Json)
    ensures
        members_of(final(fields)@) == members_of(old(fields)@).insert(name@, value@),
{
    let member = (name.to_owned(), value);
    proof {
        lemma_members_push(fields@, member);
    }
    fields.push(member);
}

impl Clone for Json {
    /// A copy that says the same.
    fn clone(&self) -> (copy: Json)
        ensures
            copy@ == self@,
        decreases self,
    {
        match self {
            Json::Null => Json::Null,
            Json::Bool(b) => Json::Bool(*b),
            Json::Number(n) => Json::Number(n.clone()),
            Json::Text(s) => Json::Text(s.clone()),
            Json::Array(items) => {
                let mut copies: Vec<Json> = Vec::new();
                let mut i: usize = 0;
                while i < items.len()
                    invariant
                        i <= items.len(),
                        *self == Json::Array(*items),
                        items_of(copies@) == items_of(items@.take(i as int)),
                    decreases items.len() - i,
                {
                    proof {
                        vstd::std_specs::vec::axiom_vec_index_decreases(*items, i as int);
                        assert(decreases_to!(*self => self->Array_0));
                    }
                    let copy = items[i].clone();
                    proof {
                        lemma_items_push(copies@, copy);
                        lemma_items_push(items@.take(i as int), items@[i as int]);
                        assert(items@.take(i as int).push(items@[i as int]) =~= items@.take(
                            i as int + 1,
                        ));
                    }
                    copies.push(copy);
                    i += 1;
                }
                proof {
                    assert(items@.take(i as int) =~= items@);
                }
                Json::Array(copies)
            },
            Json::Object(fields) => {
                let mut copies: Vec<(String, Json)> = Vec::new();
                let mut i: usize = 0;
                while i < fields.len()
                    invariant
                        i <= fields.len(),
                        *self == Json::Object(*fields),
                        members_of(copies@) == members_of(fields@.take(i as int)),
                    decreases fields.len() - i,
                {
                    proof {
                        vstd::std_specs::vec::axiom_vec_index_decreases(*fields, i as int);
                        assert(decreases_to!(*self => self->Object_0));
                        assert(decreases_to!(fields[i as int] => fields[i as int].1));
                    }
                    let name = fields[i].0.clone();
                    let copy = fields[i].1.clone();
                    proof {
                        lemma_members_push(copies@, (name, copy));
                        lemma_members_push(fields@.take(i as int), fields@[i as int]);
                        assert(fields@.take(i as int).push(fields@[i as int]) =~= fields@.take(
                            i as int + 1,
                        ));
                    }
                    copies.push((name, copy));
                    i += 1;
                }
                proof {
                    assert(fields@.take(i as int) =~= fields@);
                }
                Json::Object(copies)
            },
        }
    }
}

} // verus!

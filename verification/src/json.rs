//! JSON trees: tool arguments, tool schemas, requests and payloads.

use vstd::prelude::*;
use crate::numbers::all_digits;
use crate::numbers::parsed;

verus! {

/// A JSON value. A number is kept as the text that writes it.
#[derive(Debug)]
pub enum Json {
    Null,
    Bool(bool),
    Number(String),
    Text(String),
    Array(Vec<Json>),
    Object(Vec<(String, Json)>),
}

/// What a JSON value holds.
#[verifier::ext_equal]
pub enum JsonView {
    Null,
    Bool(bool),
    Number(Seq<char>),
    Text(Seq<char>),
    Array(Seq<JsonView>),
    Object(Seq<(Seq<char>, JsonView)>),
}

impl Json {
    /// What the value holds.
    pub open spec fn tree(self) -> JsonView
        decreases self,
    {
        match self {
            Json::Null => JsonView::Null,
            Json::Bool(b) => JsonView::Bool(b),
            Json::Number(n) => JsonView::Number(n@),
            Json::Text(t) => JsonView::Text(t@),
            Json::Array(items) => JsonView::Array(
                Seq::new(
                    items@.len(),
                    |i: int|
                        if 0 <= i < items@.len() {
                            items@[i].tree()
                        } else {
                            JsonView::Null
                        },
                ),
            ),
            Json::Object(fields) => JsonView::Object(
                Seq::new(
                    fields@.len(),
                    |i: int|
                        if 0 <= i < fields@.len() {
                            (fields@[i].0@, fields@[i].1.tree())
                        } else {
                            (Seq::empty(), JsonView::Null)
                        },
                ),
            ),
        }
    }
}

impl View for Json {
    type V = JsonView;

    open spec fn view(&self) -> JsonView {
        self.tree()
    }
}

/// What a list of JSON values holds.
pub open spec fn trees(items: Seq<Json>) -> Seq<JsonView> {
    Seq::new(items.len(), |i: int| items[i]@)
}

/// What a list of JSON fields holds.
pub open spec fn field_trees(fields: Seq<(String, Json)>) -> Seq<(Seq<char>, JsonView)> {
    Seq::new(fields.len(), |i: int| (fields[i].0@, fields[i].1@))
}

/// Pushing a value pushes what it holds.
pub broadcast proof fn trees_push(items: Seq<Json>, item: Json)
    ensures
        #[trigger] trees(items.push(item)) == trees(items).push(item@),
{
    assert(trees(items.push(item)) =~= trees(items).push(item@));
}

/// Pushing a field pushes what it holds.
pub broadcast proof fn field_trees_push(fields: Seq<(String, Json)>, field: (String, Json))
    ensures
        #[trigger] field_trees(fields.push(field)) == field_trees(fields).push(
            (field.0@, field.1@),
        ),
{
    assert(field_trees(fields.push(field)) =~= field_trees(fields).push((field.0@, field.1@)));
}

/// An array holds what its items hold.
pub broadcast proof fn array_view(items: Vec<Json>)
    ensures
        (#[trigger] Json::Array(items).view()) == JsonView::Array(trees(items@)),
{
    assert(Json::Array(items)@->Array_0 =~= trees(items@));
}

/// An object holds what its fields hold.
pub broadcast proof fn object_view(fields: Vec<(String, Json)>)
    ensures
        (#[trigger] Json::Object(fields).view()) == JsonView::Object(field_trees(fields@)),
{
    assert(Json::Object(fields)@->Object_0 =~= field_trees(fields@));
}

/// The value of the first field named `key`.
pub open spec fn field(fields: Seq<(Seq<char>, JsonView)>, key: Seq<char>) -> Option<JsonView>
    decreases fields.len(),
{
    if fields.len() == 0 {
        None
    } else if fields[0].0 == key {
        Some(fields[0].1)
    } else {
        field(fields.skip(1), key)
    }
}

/// The member `key` of an object; nothing else has members.
pub open spec fn member(value: JsonView, key: Seq<char>) -> Option<JsonView> {
    match value {
        JsonView::Object(fields) => field(fields, key),
        _ => None,
    }
}

/// The text of a string value.
pub open spec fn text_of(value: Option<JsonView>) -> Option<Seq<char>> {
    match value {
        Some(JsonView::Text(t)) => Some(t),
        _ => None,
    }
}

/// The value of a boolean.
pub open spec fn bool_of(value: Option<JsonView>) -> Option<bool> {
    match value {
        Some(JsonView::Bool(b)) => Some(b),
        _ => None,
    }
}

/// The value of a number that is an unsigned 64-bit integer.
pub open spec fn u64_of(value: Option<JsonView>) -> Option<nat> {
    match value {
        Some(JsonView::Number(n)) => if all_digits(n) {
            parsed(n, u64::MAX as nat)
        } else {
            None
        },
        _ => None,
    }
}

/// What an optional value holds.
pub open spec fn tree_of(value: Option<&Json>) -> Option<JsonView> {
    match value {
        Some(json) => Some(json@),
        None => None,
    }
}

/// A list of strings.
pub open spec fn text_values(list: Seq<Seq<char>>) -> Seq<JsonView> {
    Seq::new(list.len(), |i: int| JsonView::Text(list[i]))
}

/// A string, or `null`.
pub open spec fn nullable_text(value: Option<Seq<char>>) -> JsonView {
    match value {
        Some(t) => JsonView::Text(t),
        None => JsonView::Null,
    }
}

/// The texts among a list of values.
pub open spec fn texts_among(items: Seq<JsonView>) -> Seq<Seq<char>>
    decreases items.len(),
{
    if items.len() == 0 {
        Seq::empty()
    } else {
        match items.last() {
            JsonView::Text(t) => texts_among(items.drop_last()).push(t),
            _ => texts_among(items.drop_last()),
        }
    }
}

} // verus!

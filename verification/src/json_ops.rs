//! Reading, copying and building JSON trees.

use vstd::prelude::*;
use crate::codec::compact_text;
use crate::codec::json_document;
use crate::codec::parse_json;
use crate::codec::write_compact;
use crate::json::array_view;
use crate::json::field_trees;
use crate::json::field_trees_push;
use crate::json::object_view;
use crate::json::trees;
use crate::json::trees_push;
use crate::json::Json;
use crate::json::JsonView;
use crate::json::bool_of;
use crate::json::field;
use crate::json::member;
use crate::json::nullable_text;
use crate::json::text_values;
use crate::json::text_of;
use crate::json::texts_among;
use crate::json::tree_of;
use crate::json::u64_of;
use crate::table::pairs_of;
use crate::table::put;
use crate::table::table_put;
use crate::numbers::all_digits;
use crate::numbers::decimal;
use crate::numbers::parse_u64;
use crate::numbers::print_u64;
use crate::text::chars_of;
use crate::text::is_digit_char;
use crate::text::same;
use crate::text::texts;
use crate::text::texts_empty;
use crate::text::texts_push;

verus! {

broadcast use {array_view, object_view, trees_push, field_trees_push, texts_push, texts_empty};

/// Copies a list of values.
pub fn copy_items(items: &Vec<Json>) -> (result: Vec<Json>)
    ensures
        trees(result@) == trees(items@),
    decreases items,
{
    let mut list: Vec<Json> = Vec::new();
    let mut i: usize = 0;
    while i < items.len()
        invariant
            i <= items@.len(),
            trees(list@) == trees(items@).take(i as int),
        decreases items@.len() - i,
    {
        let item = items[i].copy();
        list.push(item);
        assert(trees(list@) =~= trees(items@).take(i + 1));
        i = i + 1;
    }
    assert(trees(items@).take(i as int) =~= trees(items@));
    list
}

/// Copies a list of fields.
pub fn copy_fields(fields: &Vec<(String, Json)>) -> (result: Vec<(String, Json)>)
    ensures
        field_trees(result@) == field_trees(fields@),
    decreases fields,
{
    let mut list: Vec<(String, Json)> = Vec::new();
    let mut i: usize = 0;
    while i < fields.len()
        invariant
            i <= fields@.len(),
            field_trees(list@) == field_trees(fields@).take(i as int),
        decreases fields@.len() - i,
    {
        let item = (fields[i].0.clone(), fields[i].1.copy());
        list.push(item);
        assert(field_trees(list@) =~= field_trees(fields@).take(i + 1));
        i = i + 1;
    }
    assert(field_trees(fields@).take(i as int) =~= field_trees(fields@));
    list
}

impl Json {
    /// Copies the value.
    pub fn copy(&self) -> (result: Json)
        ensures
            result@ == self@,
        decreases self,
    {
        match self {
            Json::Null => Json::Null,
            Json::Bool(b) => Json::Bool(*b),
            Json::Number(n) => Json::Number(n.clone()),
            Json::Text(t) => Json::Text(t.clone()),
            Json::Array(items) => Json::Array(copy_items(items)),
            Json::Object(fields) => Json::Object(copy_fields(fields)),
        }
    }

    /// The member `key` of an object.
    pub fn get(&self, key: &str) -> (result: Option<&Json>)
        ensures
            tree_of(result) == member(self@, key@),
    {
        match self {
            Json::Object(fields) => {
                let mut i: usize = 0;
                assert(field_trees(fields@).skip(0) =~= field_trees(fields@));
                while i < fields.len()
                    invariant
                        i <= fields@.len(),
                        field(field_trees(fields@), key@) == field(
                            field_trees(fields@).skip(i as int),
                            key@,
                        ),
                        member(self@, key@) == field(field_trees(fields@), key@),
                    decreases fields@.len() - i,
                {
                    let ghost rest = field_trees(fields@).skip(i as int);
                    assert(rest[0] == (fields@[i as int].0@, fields@[i as int].1@));
                    if same(&fields[i].0, key) {
                        return Some(&fields[i].1);
                    }
                    assert(rest.skip(1) =~= field_trees(fields@).skip(i + 1));
                    i = i + 1;
                }
                None
            },
            _ => None,
        }
    }

    /// The text of a string value.
    pub fn as_text(&self) -> (result: Option<&str>)
        ensures
            match result {
                Some(t) => text_of(Some(self@)) == Some(t@),
                None => text_of(Some(self@)) is None,
            },
    {
        match self {
            Json::Text(t) => Some(t.as_str()),
            _ => None,
        }
    }

    /// The value of a boolean.
    pub fn as_bool(&self) -> (result: Option<bool>)
        ensures
            result == bool_of(Some(self@)),
    {
        match self {
            Json::Bool(b) => Some(*b),
            _ => None,
        }
    }

    /// The value of a number that is an unsigned 64-bit integer.
    pub fn as_u64(&self) -> (result: Option<u64>)
        ensures
            match result {
                Some(n) => u64_of(Some(self@)) == Some(n as nat),
                None => u64_of(Some(self@)) is None,
            },
    {
        match self {
            Json::Number(n) => {
                if only_digits(n) {
                    parse_u64(n)
                } else {
                    None
                }
            },
            _ => None,
        }
    }

    /// The member `key`, where it is a string.
    pub fn text_member(&self, key: &str) -> (result: Option<String>)
        ensures
            match result {
                Some(t) => text_of(member(self@, key@)) == Some(t@),
                None => text_of(member(self@, key@)) is None,
            },
    {
        match self.get(key) {
            Some(value) => match value.as_text() {
                Some(t) => Some(t.to_owned()),
                None => None,
            },
            None => None,
        }
    }

    /// The member `key`, where it is a boolean.
    pub fn bool_member(&self, key: &str) -> (result: Option<bool>)
        ensures
            result == bool_of(member(self@, key@)),
    {
        match self.get(key) {
            Some(value) => value.as_bool(),
            None => None,
        }
    }

    /// The member `key`, where it is an unsigned 64-bit integer.
    pub fn u64_member(&self, key: &str) -> (result: Option<u64>)
        ensures
            match result {
                Some(n) => u64_of(member(self@, key@)) == Some(n as nat),
                None => u64_of(member(self@, key@)) is None,
            },
    {
        match self.get(key) {
            Some(value) => value.as_u64(),
            None => None,
        }
    }

    /// The text of the value, without white space between its parts.
    pub fn to_text(&self) -> (result: String)
        ensures
            result@ == compact_text(self@),
    {
        write_compact(self)
    }

    /// Reads a JSON document, or tells why `bytes` are none.
    pub fn parse(bytes: &[u8]) -> (result: Result<Json, String>)
        ensures
            match result {
                Ok(json) => json_document(bytes@) == Ok::<JsonView, Seq<char>>(json@),
                Err(message) => json_document(bytes@) == Err::<JsonView, Seq<char>>(message@),
            },
    {
        parse_json(bytes)
    }

    /// A string value.
    pub fn text(value: &str) -> (result: Json)
        ensures
            result@ == JsonView::Text(value@),
    {
        Json::Text(value.to_owned())
    }

    /// A whole number.
    pub fn number(value: u64) -> (result: Json)
        ensures
            result@ == JsonView::Number(decimal(value as nat)),
    {
        Json::Number(print_u64(value))
    }
}

/// A list of strings.
pub fn text_array(list: &Vec<String>) -> (result: Json)
    ensures
        result@ == JsonView::Array(text_values(texts(list@))),
{
    let ghost wanted = text_values(texts(list@));
    let mut items: Vec<Json> = Vec::new();
    let mut i: usize = 0;
    assert(trees(items@) =~= wanted.take(0));
    while i < list.len()
        invariant
            i <= list@.len(),
            wanted == text_values(texts(list@)),
            trees(items@) == wanted.take(i as int),
        decreases list@.len() - i,
    {
        items.push(Json::Text(list[i].clone()));
        assert(wanted.take(i + 1) =~= wanted.take(i as int).push(wanted[i as int]));
        i = i + 1;
    }
    assert(wanted.take(i as int) =~= wanted);
    Json::Array(items)
}

/// A string, or `null`.
pub fn text_or_null(value: &Option<String>) -> (result: Json)
    ensures
        result@ == nullable_text(match *value {
            Some(t) => Some(t@),
            None => None,
        }),
{
    match value {
        Some(t) => Json::Text(t.clone()),
        None => Json::Null,
    }
}

/// An object with a field set: the field replaces the one with its name, or goes to its place
/// in the order.
pub open spec fn assigned(value: JsonView, key: Seq<char>, field: JsonView) -> JsonView {
    match value {
        JsonView::Object(fields) => JsonView::Object(put(fields, key, field)),
        _ => value,
    }
}

impl Json {
    /// Sets a field of an object.
    pub fn assign(&mut self, key: &str, value: Json)
        requires
            old(self)@ is Object,
        ensures
            final(self)@ == assigned(old(self)@, key@, value@),
    {
        match self {
            Json::Object(fields) => {
                assert(field_trees(fields@) =~= pairs_of(fields@));
                table_put(fields, key.to_owned(), value);
                assert(field_trees(fields@) =~= pairs_of(fields@));
            },
            _ => {},
        }
    }
}

/// An object under construction.
pub struct Fields {
    items: Vec<(String, Json)>,
}

impl View for Fields {
    type V = Seq<(Seq<char>, JsonView)>;

    closed spec fn view(&self) -> Seq<(Seq<char>, JsonView)> {
        field_trees(self.items@)
    }
}

impl Fields {
    /// An object without fields.
    pub fn new() -> (result: Fields)
        ensures
            result@ == Seq::<(Seq<char>, JsonView)>::empty(),
    {
        let result = Fields { items: Vec::new() };
        assert(result@ =~= Seq::empty());
        result
    }

    /// Adds a field at the end.
    pub fn add(&mut self, key: &str, value: Json)
        ensures
            final(self)@ == old(self)@.push((key@, value@)),
    {
        self.items.push((key.to_owned(), value));
    }

    /// The object.
    pub fn done(self) -> (result: Json)
        ensures
            result@ == JsonView::Object(self@),
    {
        Json::Object(self.items)
    }
}

/// Tells whether every character is a decimal digit.
pub fn only_digits(text: &str) -> (result: bool)
    ensures
        result == all_digits(text@),
{
    let chars = chars_of(text);
    let mut i: usize = 0;
    while i < chars.len()
        invariant
            i <= chars@.len(),
            chars@ == text@,
            forall|k: int| 0 <= k < i ==> crate::text::is_digit(#[trigger] chars@[k]),
        decreases chars@.len() - i,
    {
        if !is_digit_char(chars[i]) {
            assert(!crate::text::is_digit(text@[i as int]));
            return false;
        }
        i = i + 1;
    }
    true
}

/// The texts among a list of values, in order.
pub fn collect_texts(items: &Vec<Json>) -> (result: Vec<String>)
    ensures
        texts(result@) == texts_among(trees(items@)),
{
    let mut result: Vec<String> = Vec::new();
    let mut i: usize = 0;
    while i < items.len()
        invariant
            i <= items@.len(),
            texts(result@) == texts_among(trees(items@).take(i as int)),
        decreases items@.len() - i,
    {
        let ghost after = trees(items@).take(i + 1);
        assert(after.drop_last() =~= trees(items@).take(i as int));
        assert(after.last() == items@[i as int]@);
        match &items[i] {
            Json::Text(t) => {
                result.push(t.clone());
            },
            _ => {},
        }
        i = i + 1;
    }
    assert(trees(items@).take(i as int) =~= trees(items@));
    result
}

} // verus!

//! JSON documents, as the remote agent answers them.
//!
//! The agent's replies arrive as `serde_json::Value`. [`Json`] holds the same
//! document as plain data, and the accessors below read it the way
//! `serde_json` does: a missing key or a value of another kind reads as `None`.
use vstd::prelude::*;

use crate::text::same_text;

verus! {

/// A JSON document as plain data.
///
/// Of a number only the reading that the agent protocol uses is kept: an
/// unsigned integer, or some other number.
#[derive(Debug)]
pub enum Json {
    Null,
    Bool(bool),
    UInt(u64),
    OtherNumber,
    Str(String),
    Array(Vec<Json>),
    Object(Vec<(String, Json)>),
}

/// The mathematical value of a JSON document. An object is the sequence of its
/// fields.
pub enum JsonView {
    Null,
    Bool(bool),
    UInt(u64),
    OtherNumber,
    Str(Seq<char>),
    Array(Seq<JsonView>),
    Object(Seq<(Seq<char>, JsonView)>),
}

/// The values of `items`, in order.
pub open spec fn array_view(items: Seq<Json>) -> Seq<JsonView>
    decreases items,
{
    Seq::new(
        items.len(),
        |i: int|
            if 0 <= i < items.len() {
                items[i].view()
            } else {
                JsonView::Null
            },
    )
}

/// The names and values of `fields`, in order.
pub open spec fn object_view(fields: Seq<(String, Json)>) -> Seq<(Seq<char>, JsonView)>
    decreases fields,
{
    Seq::new(
        fields.len(),
        |i: int|
            if 0 <= i < fields.len() {
                (fields[i].0@, fields[i].1.view())
            } else {
                (Seq::empty(), JsonView::Null)
            },
    )
}

impl Json {
    pub open spec fn view(&self) -> JsonView
        decreases self,
    {
        match self {
            Json::Null => JsonView::Null,
            Json::Bool(b) => JsonView::Bool(*b),
            Json::UInt(n) => JsonView::UInt(*n),
            Json::OtherNumber => JsonView::OtherNumber,
            Json::Str(s) => JsonView::Str(s@),
            Json::Array(items) => JsonView::Array(array_view(items@)),
            Json::Object(fields) => JsonView::Object(object_view(fields@)),
        }
    }
}

/// The value of the last field called `key`, where there is one.
pub open spec fn last_field(fields: Seq<(Seq<char>, JsonView)>, key: Seq<char>) -> Option<JsonView>
    decreases fields.len(),
{
    if fields.len() == 0 {
        None
    } else if fields.last().0 == key {
        Some(fields.last().1)
    } else {
        last_field(fields.drop_last(), key)
    }
}

impl JsonView {
    /// The field `key` of an object; nothing for any other value.
    pub open spec fn get(self, key: Seq<char>) -> Option<JsonView> {
        match self {
            JsonView::Object(fields) => last_field(fields, key),
            _ => None,
        }
    }

    pub open spec fn as_str(self) -> Option<Seq<char>> {
        match self {
            JsonView::Str(s) => Some(s),
            _ => None,
        }
    }

    pub open spec fn as_u64(self) -> Option<u64> {
        match self {
            JsonView::UInt(n) => Some(n),
            _ => None,
        }
    }

    pub open spec fn as_bool(self) -> Option<bool> {
        match self {
            JsonView::Bool(b) => Some(b),
            _ => None,
        }
    }

    pub open spec fn as_array(self) -> Option<Seq<JsonView>> {
        match self {
            JsonView::Array(items) => Some(items),
            _ => None,
        }
    }

    /// The text of the field `key`.
    pub open spec fn str_field(self, key: Seq<char>) -> Option<Seq<char>> {
        match self.get(key) {
            Some(v) => v.as_str(),
            None => None,
        }
    }

    /// The unsigned integer of the field `key`.
    pub open spec fn u64_field(self, key: Seq<char>) -> Option<u64> {
        match self.get(key) {
            Some(v) => v.as_u64(),
            None => None,
        }
    }

    /// The boolean of the field `key`.
    pub open spec fn bool_field(self, key: Seq<char>) -> Option<bool> {
        match self.get(key) {
            Some(v) => v.as_bool(),
            None => None,
        }
    }

    /// The items of the array in the field `key`.
    pub open spec fn array_field(self, key: Seq<char>) -> Option<Seq<JsonView>> {
        match self.get(key) {
            Some(v) => v.as_array(),
            None => None,
        }
    }
}

impl Json {
    /// The field `key` of an object; nothing for any other value.
    pub fn get(&self, key: &str) -> (value: Option<&Json>)
        ensures
            match value {
                Some(v) => self@.get(key@) == Some(v@),
                None => self@.get(key@) is None,
            },
    {
        match self {
            Json::Object(fields) => {
                let ghost all = object_view(fields@);
                let mut n: usize = fields.len();
                assert(all.take(n as int) == all);
                while n > 0
                    invariant
                        n <= fields.len(),
                        all == object_view(fields@),
                        self@ == JsonView::Object(all),
                        last_field(all, key@) == last_field(all.take(n as int), key@),
                    decreases n,
                {
                    let i: usize = n - 1;
                    assert(all.take(n as int).drop_last() == all.take(i as int));
                    assert(all.take(n as int).last() == (
                        fields@[i as int].0@,
                        fields@[i as int].1@,
                    ));
                    if same_text(fields[i].0.as_str(), key) {
                        return Some(&fields[i].1);
                    }
                    n = i;
                }
                None
            },
            _ => None,
        }
    }

    pub fn as_str(&self) -> (text: Option<&str>)
        ensures
            match text {
                Some(s) => self@.as_str() == Some(s@),
                None => self@.as_str() is None,
            },
    {
        match self {
            Json::Str(s) => Some(s.as_str()),
            _ => None,
        }
    }

    pub fn as_u64(&self) -> (number: Option<u64>)
        ensures
            number == self@.as_u64(),
    {
        match self {
            Json::UInt(n) => Some(*n),
            _ => None,
        }
    }

    pub fn as_bool(&self) -> (truth: Option<bool>)
        ensures
            truth == self@.as_bool(),
    {
        match self {
            Json::Bool(b) => Some(*b),
            _ => None,
        }
    }

    pub fn as_array(&self) -> (items: Option<&Vec<Json>>)
        ensures
            match items {
                Some(v) => self@.as_array() == Some(array_view(v@)),
                None => self@.as_array() is None,
            },
    {
        match self {
            Json::Array(items) => Some(items),
            _ => None,
        }
    }

    /// The text of the field `key`.
    pub fn str_field(&self, key: &str) -> (text: Option<&str>)
        ensures
            match text {
                Some(s) => self@.str_field(key@) == Some(s@),
                None => self@.str_field(key@) is None,
            },
    {
        match self.get(key) {
            Some(v) => v.as_str(),
            None => None,
        }
    }

    /// The unsigned integer of the field `key`.
    pub fn u64_field(&self, key: &str) -> (number: Option<u64>)
        ensures
            number == self@.u64_field(key@),
    {
        match self.get(key) {
            Some(v) => v.as_u64(),
            None => None,
        }
    }

    /// The boolean of the field `key`.
    pub fn bool_field(&self, key: &str) -> (truth: Option<bool>)
        ensures
            truth == self@.bool_field(key@),
    {
        match self.get(key) {
            Some(v) => v.as_bool(),
            None => None,
        }
    }

    /// The items of the array in the field `key`.
    pub fn array_field(&self, key: &str) -> (items: Option<&Vec<Json>>)
        ensures
            match items {
                Some(v) => self@.array_field(key@) == Some(array_view(v@)),
                None => self@.array_field(key@) is None,
            },
    {
        match self.get(key) {
            Some(v) => v.as_array(),
            None => None,
        }
    }
}

// ---------------------------------------------------------------------------
// From `serde_json`
// ---------------------------------------------------------------------------

/// `serde_json::Value`, carried as an opaque value.
#[verifier::external_type_specification]
#[verifier::external_body]
pub struct ExValue(serde_json::Value);

/// What a `serde_json::Value` holds.
pub uninterp spec fn value_view(v: serde_json::Value) -> JsonView;

/// The outermost level of a `serde_json::Value`.
pub(crate) enum ValueParts {
    Null,
    Bool(bool),
    UInt(u64),
    OtherNumber,
    Str(String),
    Array(Vec<serde_json::Value>),
    Object(Vec<(String, serde_json::Value)>),
}

/// The contents of each item.
pub open spec fn items_view(items: Seq<serde_json::Value>) -> Seq<JsonView> {
    Seq::new(items.len(), |i: int| value_view(items[i]))
}

/// The name and contents of each field.
pub open spec fn fields_view(fields: Seq<(String, serde_json::Value)>) -> Seq<
    (Seq<char>, JsonView),
> {
    Seq::new(fields.len(), |i: int| (fields[i].0@, value_view(fields[i].1)))
}

pub(crate) open spec fn parts_view(parts: ValueParts) -> JsonView {
    match parts {
        ValueParts::Null => JsonView::Null,
        ValueParts::Bool(b) => JsonView::Bool(b),
        ValueParts::UInt(n) => JsonView::UInt(n),
        ValueParts::OtherNumber => JsonView::OtherNumber,
        ValueParts::Str(s) => JsonView::Str(s@),
        ValueParts::Array(items) => JsonView::Array(items_view(items@)),
        ValueParts::Object(fields) => JsonView::Object(fields_view(fields@)),
    }
}

/// Takes a `serde_json::Value` apart by its variant.
///
/// A boolean, a string and the items of an array come out as they are. A number
/// comes out as what `serde_json::Number::as_u64` reads of it, and as
/// `OtherNumber` where that is nothing. The fields of an object come out in the
/// order in which `serde_json::Map` lists them.
#[verifier::external_body]
pub(crate) fn value_parts(v: serde_json::Value) -> (parts: ValueParts)
    ensures
        parts_view(parts) == value_view(v),
{
    match v {
        serde_json::Value::Null => ValueParts::Null,
        serde_json::Value::Bool(b) => ValueParts::Bool(b),
        serde_json::Value::Number(n) => match n.as_u64() {
            Some(u) => ValueParts::UInt(u),
            None => ValueParts::OtherNumber,
        },
        serde_json::Value::String(s) => ValueParts::Str(s),
        serde_json::Value::Array(items) => ValueParts::Array(items),
        serde_json::Value::Object(fields) => ValueParts::Object(fields.into_iter().collect()),
    }
}

impl Json {
    /// The document that a `serde_json::Value` holds.
    pub fn from_value(v: serde_json::Value) -> (json: Json)
        ensures
            json@ == value_view(v),
        decreases value_view(v),
    {
        let ghost whole = value_view(v);
        match value_parts(v) {
            ValueParts::Null => Json::Null,
            ValueParts::Bool(b) => Json::Bool(b),
            ValueParts::UInt(n) => Json::UInt(n),
            ValueParts::OtherNumber => Json::OtherNumber,
            ValueParts::Str(s) => Json::Str(s),
            ValueParts::Array(items) => {
                let ghost all = items@;
                let mut out: Vec<Json> = Vec::new();
                for item in it: items
                    invariant
                        it.seq() == all,
                        out.len() == it.index(),
                        array_view(out@) == items_view(all).take(it.index()),
                        whole == value_view(v),
                        whole == JsonView::Array(items_view(all)),
                {
                    let ghost before = out@;
                    proof {
                        assert(value_view(item) == items_view(all)[it.index()]);
                        assert(decreases_to!(whole => whole->Array_0));
                        assert(decreases_to!(items_view(all) => items_view(all)[it.index()]));
                    }
                    out.push(Json::from_value(item));
                    proof {
                        assert(array_view(out@) =~= array_view(before).push(value_view(item)));
                    }
                }
                assert(array_view(out@) =~= items_view(all));
                Json::Array(out)
            },
            ValueParts::Object(fields) => {
                let ghost all = fields@;
                let mut out: Vec<(String, Json)> = Vec::new();
                for field in it: fields
                    invariant
                        it.seq() == all,
                        out.len() == it.index(),
                        object_view(out@) == fields_view(all).take(it.index()),
                        whole == value_view(v),
                        whole == JsonView::Object(fields_view(all)),
                {
                    let ghost before = out@;
                    proof {
                        assert((field.0@, value_view(field.1)) == fields_view(all)[it.index()]);
                        assert(decreases_to!(whole => whole->Object_0));
                        let at = fields_view(all)[it.index()];
                        assert(decreases_to!(fields_view(all) => fields_view(all)[it.index()]));
                        assert(decreases_to!(at => at.1));
                    }
                    let ghost name = field.0@;
                    let ghost inner = value_view(field.1);
                    out.push((field.0, Json::from_value(field.1)));
                    proof {
                        assert(object_view(out@) =~= object_view(before).push((name, inner)));
                    }
                }
                assert(object_view(out@) =~= fields_view(all));
                Json::Object(out)
            },
        }
    }
}

} // verus!

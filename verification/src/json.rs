//! The boundary to the JSON parser.
//!
//! Inbound messages are flat JSON objects. The parser's tree never enters
//! the verified code: one object is handed over as a list of members whose
//! values are plain data, with the contents of nested arrays and objects
//! left behind, since no message carries any.

use vstd::prelude::*;

verus! {

/// One member value of a JSON object, as far as the dispatcher reads it.
///
/// A number is held as the bit pattern of its binary64 reading, or `None`
/// where it has no such reading.
#[derive(Clone, Debug, PartialEq, Eq)]
pub enum JsonValue {
    Null,
    Bool(bool),
    Number(Option<u64>),
    Text(String),
    Array,
    Object,
}

/// One `key: value` member of a JSON object.
#[derive(Clone, Debug, PartialEq, Eq)]
pub struct JsonMember {
    pub key: String,
    pub value: JsonValue,
}

/// The mathematical content of a [`JsonValue`].
pub enum JsonValueView {
    Null,
    Bool(bool),
    Number(Option<u64>),
    Text(Seq<char>),
    Array,
    Object,
}

/// The mathematical content of a [`JsonMember`].
pub struct JsonMemberView {
    pub key: Seq<char>,
    pub value: JsonValueView,
}

impl View for JsonValue {
    type V = JsonValueView;

    open spec fn view(&self) -> JsonValueView {
        match *self {
            JsonValue::Null => JsonValueView::Null,
            JsonValue::Bool(b) => JsonValueView::Bool(b),
            JsonValue::Number(n) => JsonValueView::Number(n),
            JsonValue::Text(s) => JsonValueView::Text(s@),
            JsonValue::Array => JsonValueView::Array,
            JsonValue::Object => JsonValueView::Object,
        }
    }
}

impl View for JsonMember {
    type V = JsonMemberView;

    open spec fn view(&self) -> JsonMemberView {
        JsonMemberView { key: self.key@, value: self.value@ }
    }
}

/// The content of a parsed document: its members in the parser's order,
/// or `None` for a text that is no JSON object.
pub open spec fn document_view(doc: Option<Vec<JsonMember>>) -> Option<Seq<JsonMemberView>> {
    match doc {
        Some(members) => Some(members@.map_values(|m: JsonMember| m@)),
        None => None,
    }
}

/// The members that the JSON parser reads from `raw`, or `None` where it
/// does not accept `raw` as a single JSON object.
pub uninterp spec fn object_members(raw: Seq<char>) -> Option<Seq<JsonMemberView>>;

/// Parses `raw` with `serde_json::from_str` as a map from strings to JSON
/// values and hands the members over one for one, each value by its
/// variant, a number by `Number::as_f64` and the bits of that.
///
/// The contract claims no more than that the outcome is a function of the
/// text: the same text always reads as the same members, or always fails.
#[verifier::external_body]
pub(crate) fn parse_object(raw: &str) -> (doc: Option<Vec<JsonMember>>)
    ensures
        document_view(doc) == object_members(raw@),
{
    let map = serde_json::from_str::<serde_json::Map<String, serde_json::Value>>(raw).ok()?;
    Some(map.into_iter().map(|(key, value)| JsonMember {
        key,
        value: match value {
            serde_json::Value::Null => JsonValue::Null,
            serde_json::Value::Bool(b) => JsonValue::Bool(b),
            serde_json::Value::Number(n) => JsonValue::Number(n.as_f64().map(|x| x.to_bits())),
            serde_json::Value::String(s) => JsonValue::Text(s),
            serde_json::Value::Array(_) => JsonValue::Array,
            serde_json::Value::Object(_) => JsonValue::Object,
        },
    }).collect())
}

} // verus!

//! One field of a JSON text, read by `serde_json` and reduced to what the
//! library looks at: whether it is a string, and which.

use vstd::prelude::*;

verus! {

/// What stands under a key of a JSON text.
#[derive(Clone, Debug, PartialEq, Eq)]
pub enum JsonField {
    /// The text is not valid JSON.
    Malformed,
    /// The text is no object, or the object has no such key.
    Absent,
    /// `null`.
    Null,
    /// `true` or `false`.
    Bool,
    /// A number.
    Number,
    /// A string, with its value.
    Text(String),
    /// An array.
    Array,
    /// An object.
    Object,
}

/// The model of a [`JsonField`].
pub enum JsonFieldView {
    Malformed,
    Absent,
    Null,
    Bool,
    Number,
    Text(Seq<char>),
    Array,
    Object,
}

impl View for JsonField {
    type V = JsonFieldView;

    open spec fn view(&self) -> JsonFieldView {
        match self {
            JsonField::Malformed => JsonFieldView::Malformed,
            JsonField::Absent => JsonFieldView::Absent,
            JsonField::Null => JsonFieldView::Null,
            JsonField::Bool => JsonFieldView::Bool,
            JsonField::Number => JsonFieldView::Number,
            JsonField::Text(value) => JsonFieldView::Text(value@),
            JsonField::Array => JsonFieldView::Array,
            JsonField::Object => JsonFieldView::Object,
        }
    }
}

/// What `serde_json` finds under `key` in `text`.
pub uninterp spec fn json_field(text: Seq<char>, key: Seq<char>) -> JsonFieldView;

/// Parses `text` with `serde_json::from_str` into a `serde_json::Value` and
/// looks `key` up with `Value::get`.
///
/// Believed: the answer depends on the two strings alone. A parse error gives
/// `Malformed`, a `get` that returns `None` gives `Absent`, and each variant
/// of `Value` gives the variant of the same name, a string with its value.
#[verifier::external_body]
pub(crate) fn lookup(text: &str, key: &str) -> (field: JsonField)
    ensures
        field@ == json_field(text@, key@),
{
    match serde_json::from_str::<serde_json::Value>(text) {
        Err(_) => JsonField::Malformed,
        Ok(value) => match value.get(key) {
            None => JsonField::Absent,
            Some(serde_json::Value::Null) => JsonField::Null,
            Some(serde_json::Value::Bool(_)) => JsonField::Bool,
            Some(serde_json::Value::Number(_)) => JsonField::Number,
            Some(serde_json::Value::String(value)) => JsonField::Text(value.clone()),
            Some(serde_json::Value::Array(_)) => JsonField::Array,
            Some(serde_json::Value::Object(_)) => JsonField::Object,
        },
    }
}

} // verus!

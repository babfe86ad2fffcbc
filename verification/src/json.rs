//! The JSON that crosses the library's boundary: one member read out of a
//! document, and a flat object of texts written as a document.

use vstd::prelude::*;

verus! {

/// What a JSON text holds under one key of its top-level object.
#[derive(Clone, Debug, PartialEq, Eq)]
pub enum Field {
    /// The text is not one JSON value.
    Malformed,
    /// The text is a JSON value that is not an object.
    NotObject,
    /// The object has no member under the key.
    Absent,
    /// The member is `null`.
    Null,
    /// The member is a string.
    Text(String),
    /// The member is a number, a boolean, an array or an object.
    Other,
}

/// The mathematical counterpart of [`Field`].
pub ghost enum FieldView {
    Malformed,
    NotObject,
    Absent,
    Null,
    Text(Seq<char>),
    Other,
}

impl View for Field {
    type V = FieldView;

    open spec fn view(&self) -> FieldView {
        match self {
            Field::Malformed => FieldView::Malformed,
            Field::NotObject => FieldView::NotObject,
            Field::Absent => FieldView::Absent,
            Field::Null => FieldView::Null,
            Field::Text(s) => FieldView::Text(s@),
            Field::Other => FieldView::Other,
        }
    }
}

/// What `serde_json` finds under `key` when it parses `text`.
pub uninterp spec fn json_field(text: Seq<char>, key: Seq<char>) -> FieldView;

/// The document that `serde_json` writes for the object whose members are
/// `members`, each value a string; `None` where it reports an error.
pub uninterp spec fn json_object(members: Seq<(Seq<char>, Seq<char>)>) -> Option<Seq<char>>;

/// Parses `text` with `serde_json::from_str` into a `serde_json::Value` and
/// reads the member `key` of the object with `serde_json::Map::get`. The
/// result tells apart a text that does not parse, a value that is not an
/// object, a missing member, and the member's kind.
#[verifier::external_body]
pub(crate) fn lookup(text: &str, key: &str) -> (r: Field)
    ensures
        r@ == json_field(text@, key@),
{
    match serde_json::from_str::<serde_json::Value>(text) {
        Err(_) => Field::Malformed,
        Ok(serde_json::Value::Object(members)) => match members.get(key) {
            None => Field::Absent,
            Some(serde_json::Value::Null) => Field::Null,
            Some(serde_json::Value::String(s)) => Field::Text(s.clone()),
            Some(_) => Field::Other,
        },
        Ok(_) => Field::NotObject,
    }
}

/// Fills a `serde_json::Map` with `members`, each value a JSON string, and
/// writes it with `serde_json::to_string`. A later member replaces an earlier
/// one of the same key.
#[verifier::external_body]
pub(crate) fn encode(members: &Vec<(String, String)>) -> (r: Option<String>)
    ensures
        match r {
            Some(t) => json_object(members.deep_view()) == Some(t@),
            None => json_object(members.deep_view()) is None,
        },
{
    let mut object = serde_json::Map::new();
    for (key, value) in members.iter() {
        object.insert(key.clone(), serde_json::Value::String(value.clone()));
    }
    serde_json::to_string(&serde_json::Value::Object(object)).ok()
}

} // verus!
